//! Errors surfaced by the renderer core.

use vstd::prelude::*;

verus! {

/// Failure taxonomy of the core: construction failures (no suitable
/// device, a native creation call failing), steady-state failures during
/// acquire/submit/present, and lookup failures, where a key no longer
/// resolves in its registry — a contract violation surfaced as an error
/// rather than ignored.
#[derive(Clone, Copy, Debug, PartialEq, Eq, Structural)]
pub enum Error {
    /// No physical device passed both the capability and the
    /// presentation-support predicates.
    NoSuitableDevice,
    /// A key did not resolve in its registry: the parent disappeared or
    /// was never valid.
    KeyNotFound,
    /// A native object-creation call failed during construction.
    CreationFailed,
    /// A native wait, acquire, submit or present call failed on the
    /// steady-state path.
    RenderFailed,
}

impl Error {
    /// A short description of the failure.
    pub fn message(&self) -> (r: &'static str)
        ensures
            *self is NoSuitableDevice ==> r@ == "no suitable physical devices were found"@,
            *self is KeyNotFound ==> r@ == "resource key not found in its registry"@,
            *self is CreationFailed ==> r@ == "native object creation failed"@,
            *self is RenderFailed ==> r@ == "frame submission or presentation failed"@,
    {
        match self {
            Error::NoSuitableDevice => "no suitable physical devices were found",
            Error::KeyNotFound => "resource key not found in its registry",
            Error::CreationFailed => "native object creation failed",
            Error::RenderFailed => "frame submission or presentation failed",
        }
    }
}

} // verus!
