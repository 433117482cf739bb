use ghost_actor::GhostError;
use kitsune_transport::error::{TransportError, TransportResult};

#[test]
fn text_error_displays_its_text() {
    let err = TransportError::from("boom");
    assert_eq!(err.message(), "boom");
}

#[test]
fn owned_text_error_displays_its_text() {
    let err = TransportError::from(String::from("connection refused"));
    assert!(matches!(err, TransportError::Other(_)));
    assert_eq!(err.message(), "connection refused");
}

#[test]
fn empty_text_is_kept_empty() {
    assert_eq!(TransportError::from("").message(), "");
}

#[test]
fn other_wraps_a_cause_by_its_message() {
    let cause = std::io::Error::new(std::io::ErrorKind::Other, "handshake failed");
    let err = TransportError::other(cause.to_string());
    assert!(matches!(err, TransportError::Other(_)));
    assert_eq!(err.message(), "handshake failed");
}

#[test]
fn message_is_the_same_each_time() {
    let err = TransportError::from("boom");
    assert_eq!(err.message(), err.message());
}

#[test]
fn dispatch_failure_displays_as_ghost_actor_does() {
    let err = TransportError::from(GhostError::Disconnected);
    assert!(matches!(err, TransportError::GhostError(_)));
    assert_eq!(err.message(), "GhostActorDisconnected");
    assert_eq!(err.message(), GhostError::Disconnected.to_string());
}

#[test]
fn dispatch_failure_with_a_text_displays_the_text() {
    let err = TransportError::from(GhostError::from("actor gone"));
    assert_eq!(err.message(), "actor gone");
}

#[test]
fn error_discards_into_unit() {
    let unit: () = TransportError::from("boom").into();
    assert_eq!(unit, ());
    assert_eq!(TransportError::from("boom").discard(), ());
}

#[test]
fn result_alias_carries_the_error() {
    let failed: TransportResult<u8> = Err("boom".into());
    let text = match failed {
        Ok(_) => String::new(),
        Err(TransportError::Other(text)) => text,
        Err(other) => other.message(),
    };
    assert_eq!(text, "boom");
}
