//! Launching a favorite: choosing how, and reporting what happened.

use vstd::prelude::*;
use vstd::string::StringExecFns;

use crate::models::{LaunchError, LaunchMethod, LaunchResult, LaunchWarning};
use crate::workspace_apps::{self, launch_error_message, unsupported_launch};

verus! {

/// What a launch request asks the desktop to do.
#[derive(Clone, Debug, PartialEq, Eq)]
pub enum LaunchPlan {
    OpenUrl(String),
    OpenFile { app_path: String, file_path: String },
    OpenApp(String),
}

/// A deep link wins over a file, and a file over opening the bare application.
pub open spec fn launch_method_of(file_path: Option<String>, deep_link: Option<String>) -> LaunchMethod {
    if deep_link is Some {
        LaunchMethod::Deeplink
    } else if file_path is Some {
        LaunchMethod::File
    } else {
        LaunchMethod::AppOnly
    }
}

pub open spec fn method_of_plan(p: LaunchPlan) -> LaunchMethod {
    match p {
        LaunchPlan::OpenUrl(_) => LaunchMethod::Deeplink,
        LaunchPlan::OpenFile { .. } => LaunchMethod::File,
        LaunchPlan::OpenApp(_) => LaunchMethod::AppOnly,
    }
}

/// Chooses what to open for a favorite.
pub fn plan_launch(app_path: String, file_path: Option<String>, deep_link: Option<String>) -> (r:
    LaunchPlan)
    ensures
        method_of_plan(r) == launch_method_of(file_path, deep_link),
        match deep_link {
            Some(url) => r == LaunchPlan::OpenUrl(url),
            None => match file_path {
                Some(f) => r == (LaunchPlan::OpenFile { app_path, file_path: f }),
                None => r == LaunchPlan::OpenApp(app_path),
            },
        },
{
    match deep_link {
        Some(url) => LaunchPlan::OpenUrl(url),
        None => match file_path {
            Some(f) => LaunchPlan::OpenFile { app_path, file_path: f },
            None => LaunchPlan::OpenApp(app_path),
        },
    }
}

impl LaunchPlan {
    pub fn method(&self) -> (r: LaunchMethod)
        ensures
            r == method_of_plan(*self),
    {
        match self {
            LaunchPlan::OpenUrl(_) => LaunchMethod::Deeplink,
            LaunchPlan::OpenFile { .. } => LaunchMethod::File,
            LaunchPlan::OpenApp(_) => LaunchMethod::AppOnly,
        }
    }
}

/// The report of a launch by `method` that ended in `outcome`: a success
/// carries a warning when state restoration was asked for, since it is not
/// performed; a failure carries a non-recoverable `launch_failed` error with
/// the failure's message.
pub open spec fn is_report(
    r: LaunchResult,
    method: LaunchMethod,
    outcome: Result<(), workspace_apps::LaunchError>,
    restore_state: bool,
) -> bool {
    &&& r.method == method
    &&& r.success == outcome is Ok
    &&& match outcome {
        Ok(()) => {
            &&& r.error is None
            &&& restore_state ==> r.warnings@.len() == 1 && r.warnings@[0].code@
                == "state_not_restored"@ && r.warnings@[0].message@
                == "State restoration not yet implemented"@
            &&& !restore_state ==> r.warnings@.len() == 0
        },
        Err(e) => {
            &&& r.warnings@.len() == 0
            &&& r.error matches Some(err) && err.code@ == "launch_failed"@ && err.message@
                == launch_error_message(e) && !err.recoverable
        },
    }
}

/// Builds the report of a launch.
pub fn launch_report(
    method: LaunchMethod,
    outcome: Result<(), workspace_apps::LaunchError>,
    restore_state: bool,
) -> (r: LaunchResult)
    ensures
        is_report(r, method, outcome, restore_state),
{
    let mut warnings: Vec<LaunchWarning> = Vec::new();
    match outcome {
        Ok(()) => {
            if restore_state {
                warnings.push(
                    LaunchWarning {
                        code: String::from_str("state_not_restored"),
                        message: String::from_str("State restoration not yet implemented"),
                    },
                );
            }
            LaunchResult { success: true, method, warnings, error: None }
        },
        Err(e) => {
            let error = LaunchError {
                code: String::from_str("launch_failed"),
                message: e.message(),
                recoverable: false,
            };
            LaunchResult { success: false, method, warnings, error: Some(error) }
        },
    }
}

/// Carries out `plan` with this host's application workspace.
pub fn perform_launch(plan: &LaunchPlan) -> (r: Result<(), workspace_apps::LaunchError>)
    ensures
        unsupported_launch(r),
{
    match plan {
        LaunchPlan::OpenUrl(url) => workspace_apps::open_url(url.as_str()),
        LaunchPlan::OpenFile { app_path, file_path } => workspace_apps::launch_app_with_file(
            app_path.as_str(),
            file_path.as_str(),
        ),
        LaunchPlan::OpenApp(app_path) => workspace_apps::launch_app(app_path.as_str()),
    }
}

/// Launches a favorite and reports how it went; the report itself never fails.
pub fn launch_favorite_simple(
    app_path: String,
    file_path: Option<String>,
    deep_link: Option<String>,
    restore_state: bool,
) -> (r: Result<LaunchResult, String>)
    ensures
        r matches Ok(report) && exists|outcome: Result<(), workspace_apps::LaunchError>|
            unsupported_launch(outcome) && is_report(
                report,
                launch_method_of(file_path, deep_link),
                outcome,
                restore_state,
            ),
{
    let plan = plan_launch(app_path, file_path, deep_link);
    let method = plan.method();
    let outcome = perform_launch(&plan);
    Ok(launch_report(method, outcome, restore_state))
}

} // verus!
