//! Error classification for a client library that talks to a remote security
//! service over an interprocess channel.
//!
//! Every fallible operation of such a client can fail for two very different
//! reasons: the remote service processed the request and reported a failure
//! status, or something went wrong locally in the client (a protocol mismatch,
//! a transport fault, a provider-selection fault). This crate gives those
//! failures one uniform error type, [`Error`], splits the local failures into
//! a closed set of categories, [`ClientErrorKind`], and defines a deliberately
//! relaxed equivalence over both: transport faults compare by their finite,
//! platform-independent classification alone, so that comparisons are not
//! defeated by operating-system error numbers or message text.

mod error;
mod status;
mod transport;

pub use error::ClientErrorKind;
pub use error::Error;
pub use error::Result;
pub use status::ResponseStatus;
pub use transport::TransportError;
pub use transport::TransportErrorKind;
