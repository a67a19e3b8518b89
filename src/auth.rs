//! The authentication handshake.
//!
//! One request and one reply over a dedicated bidirectional stream: the
//! initiator sends `Authenticate` with its credential payload; the responder
//! checks it and answers `Authenticated` with both tunnel addresses, or
//! `Failed`. Every wait (stream open or accept, receive) is bounded by a
//! timeout, and an expiry is reported as a timeout, never as a rejection.
//!
//! The waiting itself happens in the embedding application; this module
//! decides what each outcome means. Every decision depends only on the values
//! of its own handshake, so concurrent handshakes cannot affect each other.

use vstd::prelude::*;
use crate::addr::IpNetwork;
use crate::error::{AuthError, QuincyError, Result};

verus! {

#[verifier::external_type_specification]
#[verifier::external_body]
pub struct ExValue(serde_json::Value);

/// Relies on `impl Clone for serde_json::Value` (derived): the clone is equal.
pub assume_specification[ <serde_json::Value as core::clone::Clone>::clone ](v: &serde_json::Value) -> (r: serde_json::Value)
    ensures
        r == *v,
;

/// The capacity of the single read that receives one handshake message.
pub const AUTH_MESSAGE_BUFFER_SIZE: usize = 1024;

/// A handshake message. Exactly one flows in each direction.
#[derive(Clone, Debug)]
pub enum AuthMessage {
    /// The initiator's request, with its opaque credential payload.
    Authenticate { payload: serde_json::Value },
    /// The responder's acceptance, with the addresses of both tunnel ends.
    Authenticated { client_address: IpNetwork, server_address: IpNetwork },
    /// The responder's rejection. It carries no reason.
    Failed,
}

/// Whether the stream is opened (initiator) or accepted (responder).
#[derive(Clone, Copy, Debug, PartialEq, Eq, Structural)]
pub enum AuthStreamMode {
    Client,
    Server,
}

/// Marks an authentication stream that is not connected yet.
pub struct Initialized;

/// Marks an authentication stream that is connected.
pub struct Established;

/// How a timeout-bounded wait ended.
#[derive(Debug)]
pub enum WaitOutcome<T> {
    Ready(T),
    Failed,
    TimedOut,
}

/// How the wait for one message ended.
#[derive(Debug)]
pub enum Received {
    /// A well-formed message arrived.
    Message(AuthMessage),
    /// Bytes arrived that are not a message.
    Malformed,
    /// The stream failed.
    StreamFailed,
    /// Nothing arrived before the timeout.
    TimedOut,
}

/// How sending one message ended.
#[derive(Clone, Copy, Debug, PartialEq, Eq, Structural)]
pub enum SendOutcome {
    Sent,
    /// The message could not be encoded.
    Unencodable,
    StreamFailed,
}

/// What the responder does with the request it received.
#[derive(Debug)]
pub enum RequestVerdict {
    /// Hand the payload to the credential check.
    Validate(serde_json::Value),
    /// Refuse the attempt with `error`, first sending `Failed` where
    /// `reply_failed` holds.
    Refuse { reply_failed: bool, error: AuthError },
}

/// Sets up the stream of one handshake attempt.
pub struct AuthStreamBuilder {
    mode: AuthStreamMode,
}

pub open spec fn auth_error(e: AuthError) -> QuincyError {
    QuincyError::Auth(e)
}

pub open spec fn spec_connect<T>(outcome: WaitOutcome<T>) -> Result<T> {
    match outcome {
        WaitOutcome::Ready(t) => Ok(t),
        WaitOutcome::Failed => Err(auth_error(AuthError::StreamError)),
        WaitOutcome::TimedOut => Err(auth_error(AuthError::Timeout)),
    }
}

impl AuthStreamBuilder {
    pub closed spec fn spec_mode(&self) -> AuthStreamMode {
        self.mode
    }

    pub fn new(stream_mode: AuthStreamMode) -> (r: AuthStreamBuilder)
        ensures
            r.spec_mode() == stream_mode,
    {
        AuthStreamBuilder { mode: stream_mode }
    }

    pub fn mode(&self) -> (r: AuthStreamMode)
        ensures
            r == self.spec_mode(),
    {
        self.mode
    }

    /// Whether this side opens the stream; the other side accepts it.
    pub fn opens_stream(&self) -> (r: bool)
        ensures
            r == (self.spec_mode() == AuthStreamMode::Client),
    {
        match self.mode {
            AuthStreamMode::Client => true,
            AuthStreamMode::Server => false,
        }
    }

    /// The stream, given how the bounded wait to open or accept it ended.
    pub fn connect<T>(self, outcome: WaitOutcome<T>) -> (r: Result<T>)
        ensures
            r == spec_connect(outcome),
    {
        match outcome {
            WaitOutcome::Ready(t) => Ok(t),
            WaitOutcome::Failed => Err(QuincyError::Auth(AuthError::StreamError)),
            WaitOutcome::TimedOut => Err(QuincyError::Auth(AuthError::Timeout)),
        }
    }
}

pub open spec fn spec_send_result(sent: SendOutcome) -> Result<()> {
    match sent {
        SendOutcome::Sent => Ok(()),
        SendOutcome::Unencodable => Err(auth_error(AuthError::InvalidPayload)),
        SendOutcome::StreamFailed => Err(auth_error(AuthError::StreamError)),
    }
}

/// The result of sending one message.
pub fn send_result(sent: SendOutcome) -> (r: Result<()>)
    ensures
        r == spec_send_result(sent),
{
    match sent {
        SendOutcome::Sent => Ok(()),
        SendOutcome::Unencodable => Err(QuincyError::Auth(AuthError::InvalidPayload)),
        SendOutcome::StreamFailed => Err(QuincyError::Auth(AuthError::StreamError)),
    }
}

/// What the initiator's handshake yields for the reply it waited for.
pub open spec fn spec_reply_outcome(reply: Received) -> Result<(IpNetwork, IpNetwork)> {
    match reply {
        Received::Message(AuthMessage::Authenticated { client_address, server_address }) => Ok(
            (client_address, server_address),
        ),
        Received::Message(AuthMessage::Failed) => Err(auth_error(AuthError::InvalidCredentials)),
        Received::Message(AuthMessage::Authenticate { .. }) => Err(
            auth_error(AuthError::InvalidPayload),
        ),
        Received::Malformed => Err(auth_error(AuthError::InvalidPayload)),
        Received::StreamFailed => Err(auth_error(AuthError::StreamError)),
        Received::TimedOut => Err(auth_error(AuthError::Timeout)),
    }
}

/// The initiator's result: the client and server addresses on acceptance.
pub fn reply_outcome(reply: Received) -> (r: Result<(IpNetwork, IpNetwork)>)
    ensures
        r == spec_reply_outcome(reply),
{
    match reply {
        Received::Message(AuthMessage::Authenticated { client_address, server_address }) => Ok(
            (client_address, server_address),
        ),
        Received::Message(AuthMessage::Failed) => Err(QuincyError::Auth(AuthError::InvalidCredentials)),
        Received::Message(AuthMessage::Authenticate { .. }) => Err(
            QuincyError::Auth(AuthError::InvalidPayload),
        ),
        Received::Malformed => Err(QuincyError::Auth(AuthError::InvalidPayload)),
        Received::StreamFailed => Err(QuincyError::Auth(AuthError::StreamError)),
        Received::TimedOut => Err(QuincyError::Auth(AuthError::Timeout)),
    }
}

pub open spec fn spec_request_verdict(request: Received) -> RequestVerdict {
    match request {
        Received::Message(AuthMessage::Authenticate { payload }) => RequestVerdict::Validate(payload),
        Received::Message(_) => RequestVerdict::Refuse {
            reply_failed: true,
            error: AuthError::InvalidPayload,
        },
        Received::Malformed => RequestVerdict::Refuse {
            reply_failed: true,
            error: AuthError::InvalidPayload,
        },
        Received::StreamFailed => RequestVerdict::Refuse {
            reply_failed: false,
            error: AuthError::StreamError,
        },
        Received::TimedOut => RequestVerdict::Refuse { reply_failed: false, error: AuthError::Timeout },
    }
}

/// The responder's verdict on the request it waited for: validate an
/// `Authenticate` payload; answer anything else, or bytes that are no
/// message, with `Failed` and an invalid-payload error; give up without a
/// reply where the stream failed or the wait timed out.
pub fn request_verdict(request: Received) -> (r: RequestVerdict)
    ensures
        r == spec_request_verdict(request),
{
    match request {
        Received::Message(AuthMessage::Authenticate { payload }) => RequestVerdict::Validate(payload),
        Received::Message(_) => RequestVerdict::Refuse {
            reply_failed: true,
            error: AuthError::InvalidPayload,
        },
        Received::Malformed => RequestVerdict::Refuse {
            reply_failed: true,
            error: AuthError::InvalidPayload,
        },
        Received::StreamFailed => RequestVerdict::Refuse {
            reply_failed: false,
            error: AuthError::StreamError,
        },
        Received::TimedOut => RequestVerdict::Refuse { reply_failed: false, error: AuthError::Timeout },
    }
}

pub open spec fn spec_validation_reply(
    validation: Result<(String, IpNetwork)>,
    server_address: IpNetwork,
) -> (AuthMessage, Result<(String, IpNetwork)>) {
    match validation {
        Ok((identity, client_address)) => (
            AuthMessage::Authenticated { client_address, server_address },
            Ok((identity, client_address)),
        ),
        Err(e) => (AuthMessage::Failed, Err(e)),
    }
}

/// The responder's reply to the credential check's result, and the result it
/// reports: on acceptance `Authenticated` with the assigned client address and
/// the responder's own `server_address`; on rejection `Failed` and the
/// check's own error.
pub fn validation_reply(validation: Result<(String, IpNetwork)>, server_address: IpNetwork) -> (r: (
    AuthMessage,
    Result<(String, IpNetwork)>,
))
    ensures
        r == spec_validation_reply(validation, server_address),
{
    match validation {
        Ok((identity, client_address)) => (
            AuthMessage::Authenticated { client_address, server_address },
            Ok((identity, client_address)),
        ),
        Err(e) => (AuthMessage::Failed, Err(e)),
    }
}

pub open spec fn spec_responder_outcome(
    result: Result<(String, IpNetwork)>,
    sent: SendOutcome,
) -> Result<(String, IpNetwork)> {
    match result {
        Ok(pair) => match spec_send_result(sent) {
            Ok(_) => Ok(pair),
            Err(e) => Err(e),
        },
        Err(e) => Err(e),
    }
}

/// The responder's final result once its reply was sent: an accepted
/// attempt fails only where the acceptance could not be sent; a rejected one
/// keeps its error whatever became of the `Failed` reply.
pub fn responder_outcome(result: Result<(String, IpNetwork)>, sent: SendOutcome) -> (r: Result<
    (String, IpNetwork),
>)
    ensures
        r == spec_responder_outcome(result, sent),
{
    match result {
        Ok(pair) => match send_result(sent) {
            Ok(_) => Ok(pair),
            Err(e) => Err(e),
        },
        Err(e) => Err(e),
    }
}

/// A payload that the credential check accepts ends both sides in success:
/// the responder reports the identity and the client address the check
/// assigned, and the initiator that receives the reply gets exactly the
/// client and server addresses the responder sent.
pub proof fn lemma_accepted_handshake(identity: String, client_address: IpNetwork, server_address: IpNetwork)
    ensures
        ({
            let (reply, result) = spec_validation_reply(Ok((identity, client_address)), server_address);
            &&& spec_responder_outcome(result, SendOutcome::Sent) == Ok::<(String, IpNetwork), QuincyError>((identity, client_address))
            &&& reply == AuthMessage::Authenticated { client_address, server_address }
            &&& spec_reply_outcome(Received::Message(reply)) == Ok::<(IpNetwork, IpNetwork), QuincyError>((client_address, server_address))
        }),
{
}

/// A payload that the credential check rejects ends both sides in failure:
/// the responder reports the check's error and sends `Failed`, and the
/// initiator fails with invalid credentials, never with invalid payload.
pub proof fn lemma_rejected_handshake(error: QuincyError, server_address: IpNetwork, sent: SendOutcome)
    ensures
        ({
            let (reply, result) = spec_validation_reply(Err(error), server_address);
            &&& spec_responder_outcome(result, sent) == Err::<(String, IpNetwork), QuincyError>(error)
            &&& reply == AuthMessage::Failed
            &&& spec_reply_outcome(Received::Message(reply)) == Err::<(IpNetwork, IpNetwork), QuincyError>(auth_error(AuthError::InvalidCredentials))
            &&& spec_reply_outcome(Received::Message(reply)) != Err::<(IpNetwork, IpNetwork), QuincyError>(auth_error(AuthError::InvalidPayload))
        }),
{
}

/// Where the responder never replies, the initiator fails with a timeout
/// error, not with a stream error, once its bounded wait expires. The same
/// holds of the waits to open or accept the stream.
pub proof fn lemma_silent_responder_times_out<T>()
    ensures
        spec_reply_outcome(Received::TimedOut) == Err::<(IpNetwork, IpNetwork), QuincyError>(auth_error(AuthError::Timeout)),
        spec_reply_outcome(Received::TimedOut) != Err::<(IpNetwork, IpNetwork), QuincyError>(auth_error(AuthError::StreamError)),
        spec_connect(WaitOutcome::<T>::TimedOut) == Err::<T, QuincyError>(auth_error(AuthError::Timeout)),
{
}

/// Two handshakes on independent connections do not observe each other:
/// whatever the other attempt's check decided, each initiator ends with the
/// client address its own check assigned (or with invalid credentials where
/// its own check refused), and each responder reports its own check's
/// result and the fate of its own reply.
pub proof fn lemma_handshakes_independent(
    server_address: IpNetwork,
    validation_a: Result<(String, IpNetwork)>,
    validation_b: Result<(String, IpNetwork)>,
    sent_a: SendOutcome,
    sent_b: SendOutcome,
)
    ensures
        ({
            let (reply_a, result_a) = spec_validation_reply(validation_a, server_address);
            let (reply_b, result_b) = spec_validation_reply(validation_b, server_address);
            &&& validation_a matches Ok((_, c)) ==> spec_reply_outcome(Received::Message(reply_a))
                == Ok::<(IpNetwork, IpNetwork), QuincyError>((c, server_address))
            &&& validation_b matches Ok((_, c)) ==> spec_reply_outcome(Received::Message(reply_b))
                == Ok::<(IpNetwork, IpNetwork), QuincyError>((c, server_address))
            &&& validation_a is Err ==> spec_reply_outcome(Received::Message(reply_a))
                == Err::<(IpNetwork, IpNetwork), QuincyError>(auth_error(AuthError::InvalidCredentials))
            &&& validation_b is Err ==> spec_reply_outcome(Received::Message(reply_b))
                == Err::<(IpNetwork, IpNetwork), QuincyError>(auth_error(AuthError::InvalidCredentials))
            &&& spec_responder_outcome(result_a, sent_a) == (match validation_a {
                Ok(p) => match spec_send_result(sent_a) { Ok(_) => Ok(p), Err(e) => Err(e) },
                Err(e) => Err(e),
            })
            &&& spec_responder_outcome(result_b, sent_b) == (match validation_b {
                Ok(p) => match spec_send_result(sent_b) { Ok(_) => Ok(p), Err(e) => Err(e) },
                Err(e) => Err(e),
            })
        }),
{
}

} // verus!
