//! Running applications and launching them. The native application
//! workspace exists on macOS only; this module holds the decisions made over
//! what it reports, and the behaviour of hosts that have no such workspace.

use vstd::prelude::*;
use vstd::string::StringExecFns;

verus! {

/// An application that the desktop reports as running.
#[derive(Clone, Debug, PartialEq, Eq)]
pub struct RunningApp {
    pub bundle_id: String,
    pub name: String,
    pub pid: u32,
}

/// Why a launch or an activation did not happen.
#[derive(Clone, Debug, PartialEq, Eq)]
pub enum LaunchError {
    NotFound,
    PermissionDenied,
    Unknown(String),
}

pub open spec fn launch_error_message(e: LaunchError) -> Seq<char> {
    match e {
        LaunchError::NotFound => "Application not found"@,
        LaunchError::PermissionDenied => "Permission denied"@,
        LaunchError::Unknown(msg) => msg@,
    }
}

impl LaunchError {
    /// The text shown to a user for this error.
    pub fn message(&self) -> (r: String)
        ensures
            r@ == launch_error_message(*self),
    {
        match self {
            LaunchError::NotFound => String::from_str("Application not found"),
            LaunchError::PermissionDenied => String::from_str("Permission denied"),
            LaunchError::Unknown(msg) => msg.clone(),
        }
    }
}

/// The error of every launch request on a host without a native application workspace.
pub open spec fn unsupported_launch(r: Result<(), LaunchError>) -> bool {
    r matches Err(LaunchError::Unknown(msg)) && msg@ == "macOS only feature"@
}

fn unsupported() -> (r: Result<(), LaunchError>)
    ensures
        unsupported_launch(r),
{
    Err(LaunchError::Unknown(String::from_str("macOS only feature")))
}

/// Opens `file_path` with the application at `app_path`.
pub fn launch_app_with_file(app_path: &str, file_path: &str) -> (r: Result<(), LaunchError>)
    ensures
        unsupported_launch(r),
{
    unsupported()
}

/// Launches the application at `app_path`.
pub fn launch_app(app_path: &str) -> (r: Result<(), LaunchError>)
    ensures
        unsupported_launch(r),
{
    unsupported()
}

/// Opens `url` with the application registered for its scheme.
pub fn open_url(url: &str) -> (r: Result<(), LaunchError>)
    ensures
        unsupported_launch(r),
{
    unsupported()
}

/// The applications running on this host: none that can be seen without a
/// native application workspace.
pub fn get_running_apps() -> (r: Vec<RunningApp>)
    ensures
        r@.len() == 0,
{
    Vec::new()
}

pub open spec fn lists_bundle(apps: Seq<RunningApp>, bundle_id: Seq<char>) -> bool {
    exists|i: int| 0 <= i < apps.len() && #[trigger] apps[i].bundle_id@ == bundle_id
}

/// Whether some application in `apps` has the bundle identifier `bundle_id`.
pub fn lists_running_app(apps: &Vec<RunningApp>, bundle_id: &str) -> (r: bool)
    ensures
        r == lists_bundle(apps@, bundle_id@),
{
    match first_with_bundle(apps, bundle_id) {
        Some(_) => true,
        None => false,
    }
}

/// The first position in `apps` whose bundle identifier is `bundle_id`.
pub fn first_with_bundle(apps: &Vec<RunningApp>, bundle_id: &str) -> (r: Option<usize>)
    ensures
        match r {
            Some(i) => i < apps@.len() && apps@[i as int].bundle_id@ == bundle_id@ && forall|
                j: int,
            | 0 <= j < i ==> #[trigger] apps@[j].bundle_id@ != bundle_id@,
            None => !lists_bundle(apps@, bundle_id@),
        },
{
    let wanted = bundle_id.to_owned();
    let mut i: usize = 0;
    while i < apps.len()
        invariant
            i <= apps@.len(),
            wanted@ == bundle_id@,
            forall|j: int| 0 <= j < i ==> #[trigger] apps@[j].bundle_id@ != bundle_id@,
        decreases apps@.len() - i,
    {
        if apps[i].bundle_id == wanted {
            return Some(i);
        }
        i += 1;
    }
    None
}

/// The application to bring to the front for `bundle_id`: the first running
/// one with that identifier, or `NotFound`.
pub fn app_to_activate(apps: &Vec<RunningApp>, bundle_id: &str) -> (r: Result<usize, LaunchError>)
    ensures
        match r {
            Ok(i) => i < apps@.len() && apps@[i as int].bundle_id@ == bundle_id@ && forall|j: int|
                0 <= j < i ==> #[trigger] apps@[j].bundle_id@ != bundle_id@,
            Err(e) => e == LaunchError::NotFound && !lists_bundle(apps@, bundle_id@),
        },
{
    match first_with_bundle(apps, bundle_id) {
        Some(i) => Ok(i),
        None => Err(LaunchError::NotFound),
    }
}

/// Whether an application with `bundle_id` is running on this host.
pub fn is_app_running(bundle_id: &str) -> (r: bool)
    ensures
        !r,
{
    let apps = get_running_apps();
    lists_running_app(&apps, bundle_id)
}

/// Brings the running application with `bundle_id` to the front.
pub fn bring_app_to_front(bundle_id: &str) -> (r: Result<(), LaunchError>)
    ensures
        unsupported_launch(r),
{
    unsupported()
}

} // verus!
