//! Outcome codes reported by the remote security service.

use vstd::prelude::*;

verus! {

/// Code describing the outcome of a request, as reported by the remote
/// security service.
///
/// To this layer the code is an indivisible payload: it is carried, compared
/// for equality, and never interpreted further. Equality is total, reflexive,
/// symmetric and transitive, and holds exactly when the raw codes are equal.
#[derive(Clone, Copy, Debug, Eq, PartialEq, Structural)]
pub struct ResponseStatus {
    /// The raw code, exactly as the service reported it.
    pub code: u16,
}

impl ResponseStatus {
    /// Wraps a raw service code.
    pub fn new(code: u16) -> (status: ResponseStatus)
        ensures
            status.code == code,
    {
        ResponseStatus { code }
    }
}

} // verus!
