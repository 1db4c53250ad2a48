use maestro::accessibility::{
    check_accessibility_permission, request_accessibility_permission, AccessibilityError,
};
use maestro::app_info::{
    capabilities_from, choose_app_name, connected_app_from, extract_app_info, AppInfoError,
};
use maestro::launcher::{launch_favorite_simple, launch_report, plan_launch, LaunchPlan};
use maestro::models::{AppCapabilities, ConnectedApp, LaunchMethod};
use maestro::workspace_apps::{
    app_to_activate, bring_app_to_front, first_with_bundle, get_running_apps, is_app_running,
    launch_app, launch_app_with_file, lists_running_app, open_url, LaunchError, RunningApp,
};

fn app(bundle_id: &str, pid: u32) -> RunningApp {
    RunningApp { bundle_id: bundle_id.to_string(), name: format!("App {}", pid), pid }
}

fn unsupported() -> Result<(), LaunchError> {
    Err(LaunchError::Unknown("macOS only feature".to_string()))
}

#[test]
fn deep_link_wins_over_file() {
    let plan = plan_launch(
        "/Applications/Code.app".to_string(),
        Some("/tmp/a.txt".to_string()),
        Some("vscode://open".to_string()),
    );
    assert_eq!(plan, LaunchPlan::OpenUrl("vscode://open".to_string()));
    assert_eq!(plan.method(), LaunchMethod::Deeplink);
}

#[test]
fn file_wins_over_bare_app() {
    let plan = plan_launch("/Applications/Code.app".to_string(), Some("/tmp/a.txt".to_string()), None);
    assert_eq!(
        plan,
        LaunchPlan::OpenFile {
            app_path: "/Applications/Code.app".to_string(),
            file_path: "/tmp/a.txt".to_string(),
        }
    );
    assert_eq!(plan.method(), LaunchMethod::File);
}

#[test]
fn bare_app_without_link_or_file() {
    let plan = plan_launch("/Applications/Code.app".to_string(), None, None);
    assert_eq!(plan, LaunchPlan::OpenApp("/Applications/Code.app".to_string()));
    assert_eq!(plan.method(), LaunchMethod::AppOnly);
}

#[test]
fn success_with_restore_warns() {
    let r = launch_report(LaunchMethod::File, Ok(()), true);
    assert!(r.success);
    assert_eq!(r.method, LaunchMethod::File);
    assert_eq!(r.warnings.len(), 1);
    assert_eq!(r.warnings[0].code, "state_not_restored");
    assert_eq!(r.warnings[0].message, "State restoration not yet implemented");
    assert!(r.error.is_none());
}

#[test]
fn success_without_restore_is_clean() {
    let r = launch_report(LaunchMethod::AppOnly, Ok(()), false);
    assert!(r.success);
    assert!(r.warnings.is_empty());
    assert!(r.error.is_none());
}

#[test]
fn failure_reports_launch_failed() {
    let r = launch_report(LaunchMethod::Deeplink, Err(LaunchError::NotFound), true);
    assert!(!r.success);
    assert!(r.warnings.is_empty());
    let e = r.error.expect("an error");
    assert_eq!(e.code, "launch_failed");
    assert_eq!(e.message, "Application not found");
    assert!(!e.recoverable);
}

#[test]
fn launch_without_workspace_reports_unsupported() {
    let r = launch_favorite_simple("/Applications/Code.app".to_string(), None, None, true)
        .expect("a report");
    assert!(!r.success);
    assert_eq!(r.method, LaunchMethod::AppOnly);
    assert!(r.warnings.is_empty());
    assert_eq!(r.error.unwrap().message, "macOS only feature");
}

#[test]
fn workspace_requests_are_unsupported_here() {
    assert_eq!(launch_app("/Applications/Code.app"), unsupported());
    assert_eq!(launch_app_with_file("/Applications/Code.app", "/tmp/a"), unsupported());
    assert_eq!(open_url("https://example.com"), unsupported());
    assert_eq!(bring_app_to_front("com.example"), unsupported());
    assert!(get_running_apps().is_empty());
    assert!(!is_app_running("com.example"));
}

#[test]
fn running_app_lookup_finds_the_first_match() {
    let apps = vec![app("com.a", 1), app("com.b", 2), app("com.b", 3)];
    assert!(lists_running_app(&apps, "com.b"));
    assert!(!lists_running_app(&apps, "com.c"));
    assert_eq!(first_with_bundle(&apps, "com.b"), Some(1));
    assert_eq!(app_to_activate(&apps, "com.b"), Ok(1));
    assert_eq!(app_to_activate(&apps, "com.c"), Err(LaunchError::NotFound));
    assert_eq!(first_with_bundle(&Vec::new(), "com.a"), None);
}

#[test]
fn error_messages() {
    assert_eq!(LaunchError::NotFound.message(), "Application not found");
    assert_eq!(LaunchError::PermissionDenied.message(), "Permission denied");
    assert_eq!(LaunchError::Unknown("boom".to_string()).message(), "boom");
    assert_eq!(AccessibilityError::PermissionDenied.message(), "Accessibility permission denied");
    assert_eq!(AccessibilityError::NotFound.message(), "App or window not found");
    assert_eq!(AccessibilityError::Unknown("x".to_string()).message(), "x");
    assert_eq!(AppInfoError::NotFound.message(), "Application not found");
    assert_eq!(AppInfoError::InvalidBundle.message(), "Invalid application bundle");
    assert_eq!(AppInfoError::NoBundleId.message(), "No bundle identifier found");
    assert_eq!(AppInfoError::FailedToExtractIcon.message(), "Failed to extract app icon");
    assert_eq!(AppInfoError::Other("y".to_string()).message(), "y");
}

#[test]
fn accessibility_is_not_granted() {
    assert!(!check_accessibility_permission());
    assert!(!request_accessibility_permission());
}

#[test]
fn app_info_needs_a_bundle_workspace() {
    assert_eq!(
        extract_app_info("/Applications/Code.app"),
        Err(AppInfoError::Other("macOS only feature".to_string()))
    );
}

#[test]
fn connected_app_gets_identifier_and_timestamp() {
    let caps = AppCapabilities {
        url_scheme: Some("custom".to_string()),
        applescriptable: false,
        file_associations: vec!["*".to_string()],
    };
    let a = ConnectedApp::new(
        "com.example".to_string(),
        "Example".to_string(),
        "/Applications/Example.app".to_string(),
        "aWNvbg==".to_string(),
        caps.clone(),
    );
    let b = ConnectedApp::new(
        "com.example".to_string(),
        "Example".to_string(),
        "/Applications/Example.app".to_string(),
        String::new(),
        caps.clone(),
    );
    assert_eq!(a.id.len(), 36);
    assert_ne!(a.id, b.id);
    assert_eq!(a.bundle_id, "com.example");
    assert_eq!(a.name, "Example");
    assert_eq!(a.path, "/Applications/Example.app");
    assert_eq!(a.icon, "aWNvbg==");
    assert_eq!(a.capabilities, caps);
    assert!(a.created_at.contains('T'));
}

#[test]
fn app_name_falls_back_in_order() {
    let s = |x: &str| Some(x.to_string());
    assert_eq!(choose_app_name(s("Display"), s("Bundle"), s("Stem")), "Display");
    assert_eq!(choose_app_name(None, s("Bundle"), s("Stem")), "Bundle");
    assert_eq!(choose_app_name(None, None, s("Stem")), "Stem");
    assert_eq!(choose_app_name(None, None, None), "Unknown App");
}

#[test]
fn capabilities_follow_declarations() {
    let both = capabilities_from(true, true);
    assert_eq!(both.url_scheme, Some("custom".to_string()));
    assert_eq!(both.file_associations, vec!["*".to_string()]);
    assert!(!both.applescriptable);
    let none = capabilities_from(false, false);
    assert_eq!(none.url_scheme, None);
    assert!(none.file_associations.is_empty());
}

#[test]
fn registration_needs_identifier_then_icon() {
    let caps = capabilities_from(false, false);
    let path = "/Applications/X.app".to_string();
    assert_eq!(
        connected_app_from(None, "X".to_string(), path.clone(), None, caps.clone()),
        Err(AppInfoError::NoBundleId)
    );
    assert_eq!(
        connected_app_from(Some("com.x".to_string()), "X".to_string(), path.clone(), None, caps.clone()),
        Err(AppInfoError::FailedToExtractIcon)
    );
    let app = connected_app_from(
        Some("com.x".to_string()),
        "X".to_string(),
        path.clone(),
        Some("aWNvbg==".to_string()),
        caps.clone(),
    )
    .expect("registration");
    assert_eq!(app.bundle_id, "com.x");
    assert_eq!(app.icon, "aWNvbg==");
    assert_eq!(app.path, path);
    assert_eq!(app.id.len(), 36);
}
