//! The control client's side of the protocol: what it prints for a reply,
//! and which replies make it fail.
use vstd::prelude::*;

use crate::ipc::{bool_str, bool_text};
use crate::protocol::{DictationState, Response, ResponseEnvelope, ResponseKind, StatusPayload};
use crate::text::{decimal, has_prefix, u64_to_decimal};

verus! {

/// The name of a state, as the client prints it.
pub open spec fn state_name(s: DictationState) -> Seq<char> {
    match s {
        DictationState::Idle => "Idle"@,
        DictationState::PushToTalkActive => "PushToTalkActive"@,
        DictationState::ContinuousActive => "ContinuousActive"@,
        DictationState::Processing => "Processing"@,
    }
}

/// The name of a state, as the client prints it.
pub fn state_label(s: DictationState) -> (r: &'static str)
    ensures
        r@ == state_name(s),
{
    match s {
        DictationState::Idle => "Idle",
        DictationState::PushToTalkActive => "PushToTalkActive",
        DictationState::ContinuousActive => "ContinuousActive",
        DictationState::Processing => "Processing",
    }
}

/// The line that the client prints for a status reply.
pub open spec fn status_text(s: StatusPayload) -> Seq<char> {
    "state="@ + state_name(s.state) + " protocol_version="@ + decimal(s.protocol_version as nat)
        + " cooldown_remaining_seconds="@ + decimal(s.cooldown_remaining_seconds as nat)
        + " requests_in_last_minute="@ + decimal(s.requests_in_last_minute as nat)
        + " has_retained_transcript="@ + bool_text(s.has_retained_transcript)
        + " last_output_error_code="@ + match s.last_output_error_code {
        Some(c) => c@,
        None => "none"@,
    }
}

/// The line that the client prints for a status reply.
pub fn status_line(s: &StatusPayload) -> (line: String)
    ensures
        line@ == status_text(*s),
{
    let mut line = "state=".to_string();
    line.append(state_label(s.state));
    line.append(" protocol_version=");
    line.append(u64_to_decimal(s.protocol_version as u64).as_str());
    line.append(" cooldown_remaining_seconds=");
    line.append(u64_to_decimal(s.cooldown_remaining_seconds as u64).as_str());
    line.append(" requests_in_last_minute=");
    line.append(u64_to_decimal(s.requests_in_last_minute as u64).as_str());
    line.append(" has_retained_transcript=");
    line.append(bool_str(s.has_retained_transcript));
    line.append(" last_output_error_code=");
    match &s.last_output_error_code {
        Some(c) => line.append(c.as_str()),
        None => line.append("none"),
    }
    line
}

/// What the client makes of a reply: the line to print, or the text of the
/// failure it exits with.
pub open spec fn reply_outcome(r: ResponseEnvelope) -> Result<Seq<char>, Seq<char>> {
    match r.result {
        ResponseKind::Success(Response::Ack { message }) => Ok(message@),
        ResponseKind::Success(Response::Status(s)) => Ok(status_text(s)),
        ResponseKind::Failure(e) => Err(
            e.code@ + ": "@ + e.message@ + " (retryable="@ + bool_text(e.retryable) + ")"@,
        ),
    }
}

/// What the client makes of a reply.
pub fn render_response(r: &ResponseEnvelope) -> (out: Result<String, String>)
    ensures
        match (out, reply_outcome(*r)) {
            (Ok(a), Ok(b)) => a@ == b,
            (Err(a), Err(b)) => a@ == b,
            _ => false,
        },
{
    match &r.result {
        ResponseKind::Success(Response::Ack { message }) => Ok(message.clone()),
        ResponseKind::Success(Response::Status(s)) => Ok(status_line(s)),
        ResponseKind::Failure(e) => {
            let mut m = e.code.clone();
            m.append(": ");
            m.append(e.message.as_str());
            m.append(" (retryable=");
            m.append(bool_str(e.retryable));
            m.append(")");
            Err(m)
        },
    }
}

/// The client fails exactly on a failure reply, and then names the failure's
/// code first and its message after; an acknowledgement prints its message
/// as it is, and a status reply prints a line that starts with the state.
pub proof fn law_client_fails_exactly_on_failures(r: ResponseEnvelope)
    ensures
        reply_outcome(r) is Err <==> r.result is Failure,
        r.result matches ResponseKind::Success(Response::Ack { message }) ==> reply_outcome(r)
            == Ok::<Seq<char>, Seq<char>>(message@),
        r.result matches ResponseKind::Failure(e) ==> has_prefix(reply_outcome(r)->Err_0, e.code@ + ": "@ + e.message@),
        r.result matches ResponseKind::Success(Response::Status(s)) ==> has_prefix(
            reply_outcome(r)->Ok_0,
            "state="@ + state_name(s.state),
        ),
{
    match r.result {
        ResponseKind::Failure(e) => {
            let t = reply_outcome(r)->Err_0;
            let p = e.code@ + ": "@ + e.message@;
            assert(t.subrange(0, p.len() as int) =~= p);
        },
        ResponseKind::Success(Response::Status(s)) => {
            let t = reply_outcome(r)->Ok_0;
            let p = "state="@ + state_name(s.state);
            assert(t.subrange(0, p.len() as int) =~= p);
        },
        _ => {},
    }
}

} // verus!
