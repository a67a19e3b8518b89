use quincy::addr::{IpAddress, IpNetwork};
use quincy::auth::{
    reply_outcome, request_verdict, responder_outcome, send_result, validation_reply, AuthMessage,
    AuthStreamBuilder, AuthStreamMode, Received, RequestVerdict, SendOutcome, WaitOutcome,
    AUTH_MESSAGE_BUFFER_SIZE,
};
use quincy::error::{AuthError, QuincyError};

fn net(a: [u8; 4], prefix: u8) -> IpNetwork {
    IpNetwork::new(IpAddress::V4(a), prefix).unwrap()
}

fn auth_err<T: std::fmt::Debug>(r: Result<T, QuincyError>) -> AuthError {
    match r {
        Err(QuincyError::Auth(e)) => e,
        other => panic!("expected an auth error, got {other:?}"),
    }
}

#[test]
fn accepted_payload_gives_both_sides_the_same_addresses() {
    let client = net([10, 0, 0, 2], 24);
    let server = net([10, 0, 0, 1], 24);
    let request = Received::Message(AuthMessage::Authenticate {
        payload: serde_json::Value::String("credentials".to_string()),
    });
    let payload = match request_verdict(request) {
        RequestVerdict::Validate(p) => p,
        other => panic!("expected validation, got {other:?}"),
    };
    assert_eq!(payload, serde_json::Value::String("credentials".to_string()));
    let (reply, result) = validation_reply(Ok(("alice".to_string(), client)), server);
    let result = responder_outcome(result, SendOutcome::Sent).unwrap();
    assert_eq!(result, ("alice".to_string(), client));
    let initiator = reply_outcome(Received::Message(reply)).unwrap();
    assert_eq!(initiator, (client, server));
}

#[test]
fn rejected_payload_is_invalid_credentials_for_the_initiator() {
    let server = net([10, 0, 0, 1], 24);
    let (reply, result) = validation_reply(Err(QuincyError::Auth(AuthError::UserNotFound)), server);
    assert!(matches!(reply, AuthMessage::Failed));
    assert_eq!(
        auth_err(responder_outcome(result, SendOutcome::Sent)),
        AuthError::UserNotFound
    );
    assert_eq!(auth_err(reply_outcome(Received::Message(reply))), AuthError::InvalidCredentials);
}

#[test]
fn rejection_keeps_its_error_when_the_reply_cannot_be_sent() {
    let server = net([10, 0, 0, 1], 24);
    let (_, result) = validation_reply(Err(QuincyError::Auth(AuthError::InvalidCredentials)), server);
    assert_eq!(
        auth_err(responder_outcome(result, SendOutcome::StreamFailed)),
        AuthError::InvalidCredentials
    );
}

#[test]
fn accepted_attempt_fails_when_acceptance_cannot_be_sent() {
    let client = net([10, 0, 0, 2], 24);
    let server = net([10, 0, 0, 1], 24);
    let (_, result) = validation_reply(Ok(("bob".to_string(), client)), server);
    assert_eq!(auth_err(responder_outcome(result, SendOutcome::StreamFailed)), AuthError::StreamError);
}

#[test]
fn silent_responder_times_out() {
    assert_eq!(auth_err(reply_outcome(Received::TimedOut)), AuthError::Timeout);
}

#[test]
fn broken_reply_stream_is_a_stream_error() {
    assert_eq!(auth_err(reply_outcome(Received::StreamFailed)), AuthError::StreamError);
}

#[test]
fn malformed_or_unexpected_reply_is_invalid_payload() {
    assert_eq!(auth_err(reply_outcome(Received::Malformed)), AuthError::InvalidPayload);
    let echoed = AuthMessage::Authenticate { payload: serde_json::Value::Null };
    assert_eq!(auth_err(reply_outcome(Received::Message(echoed))), AuthError::InvalidPayload);
}

#[test]
fn responder_answers_bad_requests_with_failed() {
    match request_verdict(Received::Malformed) {
        RequestVerdict::Refuse { reply_failed, error } => {
            assert!(reply_failed);
            assert_eq!(error, AuthError::InvalidPayload);
        }
        other => panic!("expected refusal, got {other:?}"),
    }
    match request_verdict(Received::Message(AuthMessage::Failed)) {
        RequestVerdict::Refuse { reply_failed, error } => {
            assert!(reply_failed);
            assert_eq!(error, AuthError::InvalidPayload);
        }
        other => panic!("expected refusal, got {other:?}"),
    }
}

#[test]
fn responder_gives_up_silently_on_timeout_or_stream_failure() {
    match request_verdict(Received::TimedOut) {
        RequestVerdict::Refuse { reply_failed, error } => {
            assert!(!reply_failed);
            assert_eq!(error, AuthError::Timeout);
        }
        other => panic!("expected refusal, got {other:?}"),
    }
    match request_verdict(Received::StreamFailed) {
        RequestVerdict::Refuse { reply_failed, error } => {
            assert!(!reply_failed);
            assert_eq!(error, AuthError::StreamError);
        }
        other => panic!("expected refusal, got {other:?}"),
    }
}

#[test]
fn stream_setup_outcomes() {
    let client = AuthStreamBuilder::new(AuthStreamMode::Client);
    assert!(client.opens_stream());
    assert_eq!(client.mode(), AuthStreamMode::Client);
    assert_eq!(client.connect(WaitOutcome::Ready(7u32)).unwrap(), 7);
    let server = AuthStreamBuilder::new(AuthStreamMode::Server);
    assert!(!server.opens_stream());
    assert_eq!(auth_err(server.connect(WaitOutcome::<u32>::TimedOut)), AuthError::Timeout);
    let server = AuthStreamBuilder::new(AuthStreamMode::Server);
    assert_eq!(auth_err(server.connect(WaitOutcome::<u32>::Failed)), AuthError::StreamError);
}

#[test]
fn send_outcomes() {
    assert!(send_result(SendOutcome::Sent).is_ok());
    assert_eq!(auth_err(send_result(SendOutcome::Unencodable)), AuthError::InvalidPayload);
    assert_eq!(auth_err(send_result(SendOutcome::StreamFailed)), AuthError::StreamError);
}

#[test]
fn concurrent_handshakes_do_not_interfere() {
    let server = net([10, 0, 0, 1], 24);
    let a = net([10, 0, 0, 2], 24);
    let b = net([10, 0, 0, 3], 24);
    let (reply_a, result_a) = validation_reply(Ok(("a".to_string(), a)), server);
    let (reply_b, result_b) = validation_reply(Err(QuincyError::Auth(AuthError::InvalidCredentials)), server);
    assert_eq!(reply_outcome(Received::Message(reply_a)).unwrap(), (a, server));
    assert_eq!(auth_err(reply_outcome(Received::Message(reply_b))), AuthError::InvalidCredentials);
    assert_eq!(responder_outcome(result_a, SendOutcome::Sent).unwrap(), ("a".to_string(), a));
    assert!(responder_outcome(result_b, SendOutcome::Sent).is_err());
    let (reply_c, _) = validation_reply(Ok(("c".to_string(), b)), server);
    assert_eq!(reply_outcome(Received::Message(reply_c)).unwrap(), (b, server));
}

#[test]
fn auth_buffer_is_bounded() {
    assert_eq!(AUTH_MESSAGE_BUFFER_SIZE, 1024);
}

#[test]
fn cloned_request_keeps_its_payload() {
    let mut map = serde_json::Map::new();
    map.insert("username".to_string(), serde_json::Value::String("alice".to_string()));
    map.insert("password".to_string(), serde_json::Value::String("secret".to_string()));
    let payload = serde_json::Value::Object(map);
    let message = AuthMessage::Authenticate { payload: payload.clone() };
    match message.clone() {
        AuthMessage::Authenticate { payload: copy } => assert_eq!(copy, payload),
        other => panic!("unexpected {other:?}"),
    }
}
