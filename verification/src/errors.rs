//! Error values of the hand-off protocol.

use vstd::prelude::*;

verus! {

/// Returned when a pending payload is requested but the hand-off slot is
/// empty: a second fetch, a fetch with no preceding open, or a fetch after a
/// close. Expected in normal flow; callers treat it as "nothing to display".
#[derive(Clone, Copy, Debug, PartialEq, Eq, Structural)]
pub struct EmptyError;

impl EmptyError {
    /// The user-visible description handed across the command boundary.
    pub fn message(&self) -> (r: String)
        ensures
            r@ == "No credential data available"@,
    {
        String::from_str("No credential data available")
    }
}

/// Returned when the host windowing subsystem fails to create or destroy the
/// auxiliary window. Carries the host's own description of the failure.
#[derive(Debug)]
pub struct WindowError {
    /// The host's description of the windowing failure.
    pub message: String,
}

impl WindowError {
    /// Wraps the host's description of a windowing failure.
    pub fn new(message: String) -> (r: WindowError)
        ensures
            r.message@ == message@,
    {
        WindowError { message }
    }
}

} // verus!
