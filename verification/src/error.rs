//! The unified error type, the client error categories, and the
//! category-aware equivalence relation over them.

use vstd::prelude::*;

use crate::status::ResponseStatus;
use crate::transport::TransportError;
use vstd::std_specs::convert::FromSpec;

verus! {

/// The single error type returned by every fallible operation of the client
/// library.
///
/// Exactly one of two shapes holds: the remote service itself reported a
/// failure status, or the failure arose locally in the client. Equality is
/// the category-aware equivalence given by [`error_equiv`].
#[derive(Debug)]
pub enum Error {
    /// The remote service processed the request and reported this status.
    Service(ResponseStatus),
    /// The failure arose locally in the client.
    Client(ClientErrorKind),
}

/// The closed set of locally-originated failure categories.
///
/// Equality is the category-aware equivalence given by [`client_kind_equiv`]:
/// values of different shapes are never equal, `Interface` values compare by
/// their status codes, `Ipc` values compare by the transport failure's
/// classification alone, and the three payload-free shapes are each equal
/// only to themselves.
#[derive(Debug)]
pub enum ClientErrorKind {
    /// A service status surfaced locally by the client-side protocol layer.
    Interface(ResponseStatus),
    /// A fault in the interprocess channel to the service.
    Ipc(TransportError),
    /// The response's operation code did not match the request's.
    InvalidServiceResponseType,
    /// The requested operation is not supported by the selected provider.
    InvalidProvider,
    /// No provider was implicitly available when one was required.
    NoProvider,
}

/// Return type of every fallible operation of the client library: a success
/// value of the caller's choosing, or a unified [`Error`].
pub type Result<T> = core::result::Result<T, Error>;

/// The equivalence relation over client error kinds.
///
/// It is deliberately coarser than field-by-field comparison: two `Ipc`
/// faults are equivalent whenever their classifications match, whatever
/// their message text or raw operating-system codes, since that detail
/// varies by platform and locale. Values of different shapes are never
/// equivalent, and the payload-free shapes are each equivalent exactly to
/// themselves.
pub open spec fn client_kind_equiv(a: ClientErrorKind, b: ClientErrorKind) -> bool {
    match a {
        ClientErrorKind::Interface(status) => {
            b matches ClientErrorKind::Interface(other_status) && status == other_status
        },
        ClientErrorKind::Ipc(err) => {
            b matches ClientErrorKind::Ipc(other_err) && err.kind == other_err.kind
        },
        ClientErrorKind::InvalidServiceResponseType => b is InvalidServiceResponseType,
        ClientErrorKind::InvalidProvider => b is InvalidProvider,
        ClientErrorKind::NoProvider => b is NoProvider,
    }
}

/// The equivalence relation over unified errors.
///
/// Errors of different tiers are never equivalent; `Service` errors compare
/// by their status codes; `Client` errors compare by [`client_kind_equiv`].
pub open spec fn error_equiv(a: Error, b: Error) -> bool {
    match a {
        Error::Service(status) => {
            b matches Error::Service(other_status) && status == other_status
        },
        Error::Client(kind) => {
            b matches Error::Client(other_kind) && client_kind_equiv(kind, other_kind)
        },
    }
}

/// Whether two client error kinds fall under the same shape, regardless of
/// payload.
pub open spec fn same_client_shape(a: ClientErrorKind, b: ClientErrorKind) -> bool {
    match a {
        ClientErrorKind::Interface(_) => b is Interface,
        ClientErrorKind::Ipc(_) => b is Ipc,
        ClientErrorKind::InvalidServiceResponseType => b is InvalidServiceResponseType,
        ClientErrorKind::InvalidProvider => b is InvalidProvider,
        ClientErrorKind::NoProvider => b is NoProvider,
    }
}

/// Whether two unified errors fall under the same tier: both reported by the
/// service, or both raised locally in the client.
pub open spec fn same_tier(a: Error, b: Error) -> bool {
    match a {
        Error::Service(_) => b is Service,
        Error::Client(_) => b is Client,
    }
}

/// Whether a client error kind is one of the three payload-free shapes.
pub open spec fn is_payload_free(k: ClientErrorKind) -> bool {
    ||| k is InvalidServiceResponseType
    ||| k is InvalidProvider
    ||| k is NoProvider
}

/// Two `Service` errors are equivalent exactly when their status codes are
/// equal.
pub proof fn lemma_service_eq_by_status(s1: ResponseStatus, s2: ResponseStatus)
    ensures
        error_equiv(Error::Service(s1), Error::Service(s2)) == (s1 == s2),
{
}

/// Two `Ipc` kinds are equivalent exactly when their transport failures carry
/// the same classification — whatever their message text or raw
/// operating-system codes.
pub proof fn lemma_ipc_eq_by_classification(e1: TransportError, e2: TransportError)
    ensures
        client_kind_equiv(ClientErrorKind::Ipc(e1), ClientErrorKind::Ipc(e2)) == (e1.kind
            == e2.kind),
{
}

/// Promoting a client error kind into the unified error type yields a value
/// equivalent to wrapping the same kind in `Client` directly.
pub proof fn lemma_promotion_matches_direct_wrapping(k: ClientErrorKind)
    ensures
        error_equiv(Error::from_spec(k), Error::Client(k)),
{
    lemma_client_kind_equiv_is_reflexive(k);
}

/// Client error kinds of different shapes are never equivalent.
pub proof fn lemma_distinct_shapes_never_equal(a: ClientErrorKind, b: ClientErrorKind)
    requires
        !same_client_shape(a, b),
    ensures
        !client_kind_equiv(a, b),
{
}

/// Unified errors of different tiers are never equivalent, whatever their
/// payloads.
pub proof fn lemma_distinct_tiers_never_equal(a: Error, b: Error)
    requires
        !same_tier(a, b),
    ensures
        !error_equiv(a, b),
{
}

/// A payload-free kind is equivalent to itself, and to another kind exactly
/// when that kind has the same shape.
pub proof fn lemma_payload_free_singleton(k: ClientErrorKind, other: ClientErrorKind)
    requires
        is_payload_free(k),
    ensures
        client_kind_equiv(k, k),
        client_kind_equiv(k, other) == same_client_shape(k, other),
{
}

/// The relation over client error kinds is reflexive.
pub proof fn lemma_client_kind_equiv_is_reflexive(k: ClientErrorKind)
    ensures
        client_kind_equiv(k, k),
{
}

/// The relation over client error kinds is symmetric.
pub proof fn lemma_client_kind_equiv_is_symmetric(a: ClientErrorKind, b: ClientErrorKind)
    ensures
        client_kind_equiv(a, b) == client_kind_equiv(b, a),
{
}

/// The relation over client error kinds is transitive.
pub proof fn lemma_client_kind_equiv_is_transitive(
    a: ClientErrorKind,
    b: ClientErrorKind,
    c: ClientErrorKind,
)
    requires
        client_kind_equiv(a, b),
        client_kind_equiv(b, c),
    ensures
        client_kind_equiv(a, c),
{
}

/// The relation over unified errors is reflexive.
pub proof fn lemma_error_equiv_is_reflexive(e: Error)
    ensures
        error_equiv(e, e),
{
    if let Error::Client(kind) = e {
        lemma_client_kind_equiv_is_reflexive(kind);
    }
}

/// The relation over unified errors is symmetric.
pub proof fn lemma_error_equiv_is_symmetric(a: Error, b: Error)
    ensures
        error_equiv(a, b) == error_equiv(b, a),
{
}

/// The relation over unified errors is transitive.
pub proof fn lemma_error_equiv_is_transitive(a: Error, b: Error, c: Error)
    requires
        error_equiv(a, b),
        error_equiv(b, c),
    ensures
        error_equiv(a, c),
{
}

impl PartialEq for ClientErrorKind {
    fn eq(&self, other: &Self) -> bool {
        match self {
            ClientErrorKind::Interface(status) => match other {
                ClientErrorKind::Interface(other_status) => status == other_status,
                _ => false,
            },
            ClientErrorKind::Ipc(err) => match other {
                ClientErrorKind::Ipc(other_err) => err.kind == other_err.kind,
                _ => false,
            },
            ClientErrorKind::InvalidServiceResponseType => match other {
                ClientErrorKind::InvalidServiceResponseType => true,
                _ => false,
            },
            ClientErrorKind::InvalidProvider => match other {
                ClientErrorKind::InvalidProvider => true,
                _ => false,
            },
            ClientErrorKind::NoProvider => match other {
                ClientErrorKind::NoProvider => true,
                _ => false,
            },
        }
    }
}

impl vstd::std_specs::cmp::PartialEqSpecImpl for ClientErrorKind {
    open spec fn obeys_eq_spec() -> bool {
        true
    }

    open spec fn eq_spec(&self, other: &ClientErrorKind) -> bool {
        client_kind_equiv(*self, *other)
    }
}

impl PartialEq for Error {
    fn eq(&self, other: &Self) -> bool {
        match self {
            Error::Service(status) => match other {
                Error::Service(other_status) => status == other_status,
                _ => false,
            },
            Error::Client(kind) => match other {
                Error::Client(other_kind) => kind == other_kind,
                _ => false,
            },
        }
    }
}

impl vstd::std_specs::cmp::PartialEqSpecImpl for Error {
    open spec fn obeys_eq_spec() -> bool {
        true
    }

    open spec fn eq_spec(&self, other: &Error) -> bool {
        error_equiv(*self, *other)
    }
}

impl From<ClientErrorKind> for Error {
    fn from(client_error: ClientErrorKind) -> Self {
        Error::Client(client_error)
    }
}

impl vstd::std_specs::convert::FromSpecImpl<ClientErrorKind> for Error {
    open spec fn obeys_from_spec() -> bool {
        true
    }

    open spec fn from_spec(client_error: ClientErrorKind) -> Error {
        Error::Client(client_error)
    }
}

} // verus!
