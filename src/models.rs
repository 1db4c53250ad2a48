//! The records that the launcher keeps and reports.

use vstd::prelude::*;

verus! {

/// Relies on `uuid::Uuid::new_v4` and its `Display`: a random identifier,
/// written in the hyphenated form of 36 characters.
#[verifier::external_body]
fn new_identifier() -> (r: String)
    ensures
        r@.len() == 36,
{
    uuid::Uuid::new_v4().to_string()
}

/// Relies on `chrono::Utc::now` and `DateTime::to_rfc3339`: the current time
/// as an RFC 3339 timestamp.
#[verifier::external_body]
fn timestamp_now() -> (r: String) {
    chrono::Utc::now().to_rfc3339()
}

/// A registered application, the template that favorites are made from.
#[derive(Clone, Debug, PartialEq, Eq)]
pub struct ConnectedApp {
    pub id: String,
    pub bundle_id: String,
    pub name: String,
    pub path: String,
    /// The application icon as base64-encoded PNG.
    pub icon: String,
    pub capabilities: AppCapabilities,
    /// RFC 3339 timestamp of the registration.
    pub created_at: String,
}

#[derive(Clone, Debug, PartialEq, Eq)]
pub struct AppCapabilities {
    pub url_scheme: Option<String>,
    pub applescriptable: bool,
    pub file_associations: Vec<String>,
}

impl ConnectedApp {
    /// A new registration with a fresh identifier, stamped with the current time.
    pub fn new(
        bundle_id: String,
        name: String,
        path: String,
        icon: String,
        capabilities: AppCapabilities,
    ) -> (r: Self)
        ensures
            r.id@.len() == 36,
            r.bundle_id == bundle_id,
            r.name == name,
            r.path == path,
            r.icon == icon,
            r.capabilities == capabilities,
    {
        ConnectedApp {
            id: new_identifier(),
            bundle_id,
            name,
            path,
            icon,
            capabilities,
            created_at: timestamp_now(),
        }
    }
}

/// How a favorite is launched.
#[derive(Clone, Copy, Debug, PartialEq, Eq, Structural)]
pub enum LaunchMethod {
    File,
    Deeplink,
    AppOnly,
}

/// What a favorite opens.
#[derive(Clone, Debug, PartialEq, Eq)]
pub struct LaunchConfig {
    pub file_path: Option<String>,
    pub deep_link: Option<String>,
    pub launch_method: LaunchMethod,
}

/// The report of one launch.
#[derive(Clone, Debug, PartialEq, Eq)]
pub struct LaunchResult {
    pub success: bool,
    pub method: LaunchMethod,
    pub warnings: Vec<LaunchWarning>,
    pub error: Option<LaunchError>,
}

#[derive(Clone, Debug, PartialEq, Eq)]
pub struct LaunchWarning {
    pub code: String,
    pub message: String,
}

#[derive(Clone, Debug, PartialEq, Eq)]
pub struct LaunchError {
    pub code: String,
    pub message: String,
    pub recoverable: bool,
}

} // verus!
