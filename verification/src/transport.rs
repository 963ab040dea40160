//! Failures reported by the interprocess channel that connects the client to
//! the service.

use vstd::prelude::*;

verus! {

/// Platform-independent classification of a transport failure.
///
/// The finite categories below abstract away operating-system detail: raw
/// error numbers and message text vary by platform and locale, but every
/// transport fault falls under exactly one of these categories, and the
/// equivalence relation over client errors looks at nothing else.
#[derive(Clone, Copy, Debug, Eq, PartialEq, Structural)]
pub enum TransportErrorKind {
    /// The service's endpoint refused the connection.
    ConnectionRefused,
    /// The connection was reset by the peer.
    ConnectionReset,
    /// The channel was closed while a write was still expected.
    BrokenPipe,
    /// The operation did not complete in time.
    TimedOut,
    /// The operation would have had to block to complete.
    WouldBlock,
    /// The service's endpoint does not exist.
    NotFound,
    /// The client may not access the service's endpoint.
    PermissionDenied,
    /// The channel ended in the middle of a message.
    UnexpectedEof,
    /// Any failure outside the categories above.
    Other,
}

/// A failure reported by the interprocess channel.
///
/// Besides its classification, a fault carries whatever free-text description
/// and raw operating-system code accompanied it. Both are kept so that callers
/// can log or display them, but comparisons ignore them: only the
/// classification takes part in the equivalence relation over client errors.
#[derive(Debug)]
pub struct TransportError {
    /// The finite, platform-independent category of the failure.
    pub kind: TransportErrorKind,
    /// Free-text description of the failure; never compared.
    pub message: String,
    /// Raw operating-system error code, when one exists; never compared.
    pub os_code: Option<i32>,
}

impl TransportError {
    /// Builds a transport failure from its classification and whatever detail
    /// accompanied it.
    pub fn new(kind: TransportErrorKind, message: String, os_code: Option<i32>) -> (err: TransportError)
        ensures
            err.kind == kind,
            err.message == message,
            err.os_code == os_code,
    {
        TransportError { kind, message, os_code }
    }

    /// The failure's platform-independent classification.
    pub fn kind(&self) -> (kind: TransportErrorKind)
        ensures
            kind == self.kind,
    {
        self.kind
    }
}

} // verus!
