//! Access to other applications' windows through the accessibility service.

use vstd::prelude::*;
use vstd::string::StringExecFns;

verus! {

#[derive(Clone, Debug, PartialEq, Eq)]
pub enum AccessibilityError {
    PermissionDenied,
    NotFound,
    Unknown(String),
}

pub open spec fn accessibility_error_message(e: AccessibilityError) -> Seq<char> {
    match e {
        AccessibilityError::PermissionDenied => "Accessibility permission denied"@,
        AccessibilityError::NotFound => "App or window not found"@,
        AccessibilityError::Unknown(msg) => msg@,
    }
}

impl AccessibilityError {
    /// The text shown to a user for this error.
    pub fn message(&self) -> (r: String)
        ensures
            r@ == accessibility_error_message(*self),
    {
        match self {
            AccessibilityError::PermissionDenied => String::from_str(
                "Accessibility permission denied",
            ),
            AccessibilityError::NotFound => String::from_str("App or window not found"),
            AccessibilityError::Unknown(msg) => msg.clone(),
        }
    }
}

/// Whether this process may use the accessibility service; it is never
/// granted to this build.
pub fn check_accessibility_permission() -> (r: bool)
    ensures
        !r,
{
    false
}

/// Asks the user to grant accessibility access; this build cannot be granted it.
pub fn request_accessibility_permission() -> (r: bool)
    ensures
        !r,
{
    false
}

} // verus!
