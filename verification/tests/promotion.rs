use parsec_client::ClientErrorKind;
use parsec_client::Error;
use parsec_client::ResponseStatus;
use parsec_client::TransportError;
use parsec_client::TransportErrorKind;

/// Propagates a client-origin fault the way library internals do: the `?`
/// operator promotes the kind into the unified error type with no explicit
/// wrapping at the call site.
fn propagate(kind: ClientErrorKind) -> parsec_client::Result<u32> {
    Err(kind)?
}

#[test]
fn promotion_equals_direct_wrapping() {
    assert_eq!(
        Error::from(ClientErrorKind::NoProvider),
        Error::Client(ClientErrorKind::NoProvider)
    );
}

#[test]
fn promotion_preserves_every_kind() {
    assert_eq!(
        Error::from(ClientErrorKind::Interface(ResponseStatus::new(7))),
        Error::Client(ClientErrorKind::Interface(ResponseStatus::new(7)))
    );
    let ipc = TransportError::new(TransportErrorKind::UnexpectedEof, String::from("eof"), None);
    let same = TransportError::new(TransportErrorKind::UnexpectedEof, String::from("eof"), None);
    assert_eq!(
        Error::from(ClientErrorKind::Ipc(ipc)),
        Error::Client(ClientErrorKind::Ipc(same))
    );
    assert_eq!(
        Error::from(ClientErrorKind::InvalidServiceResponseType),
        Error::Client(ClientErrorKind::InvalidServiceResponseType)
    );
    assert_eq!(
        Error::from(ClientErrorKind::InvalidProvider),
        Error::Client(ClientErrorKind::InvalidProvider)
    );
}

#[test]
fn question_mark_promotes_client_kinds() {
    let outcome = propagate(ClientErrorKind::InvalidProvider);
    assert_eq!(outcome, Err(Error::Client(ClientErrorKind::InvalidProvider)));
}

#[test]
fn result_alias_carries_successes_untouched() {
    let outcome: parsec_client::Result<u32> = Ok(7);
    assert_eq!(outcome, Ok(7));
}
