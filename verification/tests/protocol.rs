use sttd::protocol::{
    is_compatible_version, Command, RequestEnvelope, Response, ResponseEnvelope, ResponseKind,
    PROTOCOL_VERSION,
};

#[test]
fn version_compatibility_guard() {
    assert!(is_compatible_version(1));
    assert!(!is_compatible_version(2));
}

#[test]
fn envelopes_carry_the_current_protocol_version() {
    let req = RequestEnvelope::new(Command::Status);
    assert_eq!(req.protocol_version, PROTOCOL_VERSION);
    assert_eq!(req.command, Command::Status);

    let ack = ResponseEnvelope::ack("done");
    assert_eq!(ack.protocol_version, PROTOCOL_VERSION);
    assert_eq!(
        ack.result,
        ResponseKind::Success(Response::Ack { message: "done".to_string() })
    );

    let err = ResponseEnvelope::err("ERR_X", "broken", true);
    match err.result {
        ResponseKind::Failure(payload) => {
            assert_eq!(payload.code, "ERR_X");
            assert_eq!(payload.message, "broken");
            assert!(payload.retryable);
        }
        other => panic!("unexpected result: {other:?}"),
    }
}
