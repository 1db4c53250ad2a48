//! Reading an application bundle into a `ConnectedApp`.

use vstd::prelude::*;
use vstd::string::StringExecFns;

use crate::models::{AppCapabilities, ConnectedApp};

verus! {

#[derive(Clone, Debug, PartialEq, Eq)]
pub enum AppInfoError {
    NotFound,
    InvalidBundle,
    NoBundleId,
    FailedToExtractIcon,
    Other(String),
}

pub open spec fn app_info_error_message(e: AppInfoError) -> Seq<char> {
    match e {
        AppInfoError::NotFound => "Application not found"@,
        AppInfoError::InvalidBundle => "Invalid application bundle"@,
        AppInfoError::NoBundleId => "No bundle identifier found"@,
        AppInfoError::FailedToExtractIcon => "Failed to extract app icon"@,
        AppInfoError::Other(msg) => msg@,
    }
}

impl AppInfoError {
    /// The text shown to a user for this error.
    pub fn message(&self) -> (r: String)
        ensures
            r@ == app_info_error_message(*self),
    {
        match self {
            AppInfoError::NotFound => String::from_str("Application not found"),
            AppInfoError::InvalidBundle => String::from_str("Invalid application bundle"),
            AppInfoError::NoBundleId => String::from_str("No bundle identifier found"),
            AppInfoError::FailedToExtractIcon => String::from_str("Failed to extract app icon"),
            AppInfoError::Other(msg) => msg.clone(),
        }
    }
}

/// Reads the bundle at `app_path`. Application bundles exist on macOS only,
/// so on this build every path is refused.
pub fn extract_app_info(app_path: &str) -> (r: Result<ConnectedApp, AppInfoError>)
    ensures
        r matches Err(AppInfoError::Other(msg)) && msg@ == "macOS only feature"@,
{
    Err(AppInfoError::Other(String::from_str("macOS only feature")))
}

/// The name shown for an application: its display name, else its bundle
/// name, else the stem of its path, else a placeholder.
pub fn choose_app_name(
    display_name: Option<String>,
    bundle_name: Option<String>,
    path_stem: Option<String>,
) -> (r: String)
    ensures
        r@ == match (display_name, bundle_name, path_stem) {
            (Some(n), _, _) => n@,
            (None, Some(n), _) => n@,
            (None, None, Some(n)) => n@,
            (None, None, None) => "Unknown App"@,
        },
{
    match display_name {
        Some(n) => n,
        None => match bundle_name {
            Some(n) => n,
            None => match path_stem {
                Some(n) => n,
                None => String::from_str("Unknown App"),
            },
        },
    }
}

/// What a bundle's information dictionary declares: URL types give a custom
/// URL scheme, document types an association with every file.
pub fn capabilities_from(declares_url_types: bool, declares_document_types: bool) -> (r:
    AppCapabilities)
    ensures
        declares_url_types ==> (r.url_scheme matches Some(s) && s@ == "custom"@),
        !declares_url_types ==> r.url_scheme is None,
        !r.applescriptable,
        declares_document_types ==> r.file_associations@.len() == 1
            && r.file_associations@[0]@ == "*"@,
        !declares_document_types ==> r.file_associations@.len() == 0,
{
    let mut file_associations: Vec<String> = Vec::new();
    if declares_document_types {
        file_associations.push(String::from_str("*"));
    }
    let url_scheme = if declares_url_types {
        Some(String::from_str("custom"))
    } else {
        None
    };
    AppCapabilities { url_scheme, applescriptable: false, file_associations }
}

/// Assembles a registration from what was read of a bundle: a bundle
/// without identifier or without icon is refused, the identifier first.
pub fn connected_app_from(
    bundle_id: Option<String>,
    name: String,
    app_path: String,
    icon: Option<String>,
    capabilities: AppCapabilities,
) -> (r: Result<ConnectedApp, AppInfoError>)
    ensures
        bundle_id is None ==> r == Err::<ConnectedApp, AppInfoError>(AppInfoError::NoBundleId),
        bundle_id is Some && icon is None ==> r == Err::<ConnectedApp, AppInfoError>(
            AppInfoError::FailedToExtractIcon,
        ),
        bundle_id is Some && icon is Some ==> (r matches Ok(app) && app.bundle_id
            == bundle_id->Some_0 && app.name == name && app.path == app_path && app.icon
            == icon->Some_0 && app.capabilities == capabilities && app.id@.len() == 36),
{
    let bundle_id = match bundle_id {
        Some(b) => b,
        None => return Err(AppInfoError::NoBundleId),
    };
    let icon = match icon {
        Some(i) => i,
        None => return Err(AppInfoError::FailedToExtractIcon),
    };
    Ok(ConnectedApp::new(bundle_id, name, app_path, icon, capabilities))
}

} // verus!
