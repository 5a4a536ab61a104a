//! The library's error type.
use vstd::prelude::*;

verus! {

/// Errors that the library's operations report.
#[derive(Debug, Clone, Copy, PartialEq, Eq, Structural)]
pub enum HftError {
    /// A live (non-dry-run) swap was requested; only simulation is enabled.
    LiveModeDisabled,
}

impl HftError {
    /// The human-readable message of the error.
    pub fn message(&self) -> (m: &'static str)
        ensures
            *self == HftError::LiveModeDisabled ==> m@
                == "Live mode not enabled in demo. Use --dry-run."@,
    {
        match self {
            HftError::LiveModeDisabled => "Live mode not enabled in demo. Use --dry-run.",
        }
    }
}

} // verus!
