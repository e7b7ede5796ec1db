//! Envelopes of the control protocol spoken between `sttctl` and the daemon.
//! The JSON encoding lives with the program around the library; this module
//! fixes what every envelope holds.
use vstd::prelude::*;

verus! {

/// Version of the protocol spoken over the control socket.
pub const PROTOCOL_VERSION: u16 = 1;

/// Error code of a request whose protocol version the daemon does not speak.
pub const ERR_PROTOCOL_VERSION: &'static str = "ERR_PROTOCOL_VERSION";

/// Error code of an output backend that is not installed.
pub const ERR_OUTPUT_BACKEND_UNAVAILABLE: &'static str = "ERR_OUTPUT_BACKEND_UNAVAILABLE";

/// Error code of an output backend that ran and failed.
pub const ERR_OUTPUT_BACKEND_FAILED: &'static str = "ERR_OUTPUT_BACKEND_FAILED";

/// Error code of an audio input device that cannot be opened.
pub const ERR_AUDIO_INPUT_UNAVAILABLE: &'static str = "ERR_AUDIO_INPUT_UNAVAILABLE";

/// A request sent to the daemon.
#[derive(Debug, Clone, PartialEq, Eq)]
pub struct RequestEnvelope {
    pub protocol_version: u16,
    pub command: Command,
}

impl RequestEnvelope {
    /// A request for `command` at the current protocol version.
    pub fn new(command: Command) -> (r: Self)
        ensures
            r.protocol_version == PROTOCOL_VERSION,
            r.command == command,
    {
        RequestEnvelope { protocol_version: PROTOCOL_VERSION, command }
    }
}

/// The commands that the daemon accepts.
#[derive(Debug, Clone, Copy, PartialEq, Eq)]
pub enum Command {
    PttPress,
    PttRelease,
    ToggleContinuous,
    ReplayLastTranscript,
    Status,
    Shutdown,
}

/// A reply of the daemon.
#[derive(Debug, Clone, PartialEq)]
pub struct ResponseEnvelope {
    pub protocol_version: u16,
    pub result: ResponseKind,
}

impl ResponseEnvelope {
    /// A successful reply carrying `response`.
    pub fn ok(response: Response) -> (r: Self)
        ensures
            r.protocol_version == PROTOCOL_VERSION,
            r.result == ResponseKind::Success(response),
    {
        ResponseEnvelope { protocol_version: PROTOCOL_VERSION, result: ResponseKind::Success(response) }
    }

    /// A failed reply with the given error code, message and retry hint.
    pub fn err(code: &str, message: &str, retryable: bool) -> (r: Self)
        ensures
            r.protocol_version == PROTOCOL_VERSION,
            r.result is Failure,
            r.result->Failure_0.code@ == code@,
            r.result->Failure_0.message@ == message@,
            r.result->Failure_0.retryable == retryable,
    {
        ResponseEnvelope {
            protocol_version: PROTOCOL_VERSION,
            result: ResponseKind::Failure(
                ErrorPayload { code: code.to_string(), message: message.to_string(), retryable },
            ),
        }
    }

    /// An acknowledgement carrying `message`.
    pub fn ack(message: &str) -> (r: Self)
        ensures
            r.protocol_version == PROTOCOL_VERSION,
            r.result is Success,
            r.result->Success_0 is Ack,
            r.result->Success_0->Ack_message@ == message@,
    {
        Self::ok(Response::Ack { message: message.to_string() })
    }
}

/// Outcome carried by a reply: `Success` is the wire's `ok`, `Failure` its `err`.
#[derive(Debug, Clone, PartialEq)]
pub enum ResponseKind {
    Success(Response),
    Failure(ErrorPayload),
}

/// Payload of a successful reply.
#[derive(Debug, Clone, PartialEq)]
pub enum Response {
    Ack { message: String },
    Status(StatusPayload),
}

/// Payload of a failed reply.
#[derive(Debug, Clone, PartialEq)]
pub struct ErrorPayload {
    pub code: String,
    pub message: String,
    pub retryable: bool,
}

/// What the daemon is doing.
#[derive(Debug, Clone, Copy, PartialEq, Eq, Structural)]
pub enum DictationState {
    Idle,
    PushToTalkActive,
    ContinuousActive,
    Processing,
}

/// The daemon's answer to a status request.
#[derive(Debug, Clone, PartialEq)]
pub struct StatusPayload {
    pub state: DictationState,
    pub protocol_version: u16,
    pub cooldown_remaining_seconds: u32,
    pub requests_in_last_minute: usize,
    pub has_retained_transcript: bool,
    pub last_output_error_code: Option<String>,
    pub last_audio_error_code: Option<String>,
}

/// Whether a client speaking `version` can talk to this daemon.
pub fn is_compatible_version(version: u16) -> (b: bool)
    ensures
        b == (version == PROTOCOL_VERSION),
{
    version == PROTOCOL_VERSION
}

} // verus!
