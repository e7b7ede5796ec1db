//! What the daemon answers on its control socket. Reading the socket and
//! encoding JSON is the work of the program around the library; admitting a
//! request, running a command against the state machine, and the two halves
//! of a transcript replay are decided here.
use vstd::prelude::*;

use crate::config::{expand_template, IpcConfig, PathEnv};
use crate::injection::{injection_error_text, InjectionError, InjectionResult, Injector};
use crate::protocol::{
    Command, DictationState, Response, ResponseEnvelope, ResponseKind, ERR_OUTPUT_BACKEND_FAILED,
    ERR_OUTPUT_BACKEND_UNAVAILABLE, ERR_PROTOCOL_VERSION, PROTOCOL_VERSION, is_compatible_version,
};
use crate::state::{
    ptt_press_post, ptt_release_post, started_session, status_post,
    stopped_by, state_error_text, toggle_continuous_post, RecordingSession, RecordingTransition,
    StateError, StateMachine, StateMachineView, StoppedRecording,
};
use crate::text::{concat_str, decimal, u64_to_decimal};

verus! {

/// Why a request could not reach the daemon.
#[derive(Debug, Clone)]
pub enum IpcError {
    Transport(String),
    InvalidPayload(String),
}

/// Why the control socket could not be served.
#[derive(Debug, Clone)]
pub enum ServerError {
    CreateDir(String),
    Bind(String),
    Permissions(String),
    Io(String),
}

/// What the runtime worker must do after a command.
#[derive(Debug, Clone, Copy)]
pub enum RuntimeCommand {
    StartRequested(RecordingSession),
    StopRequested(StoppedRecording),
}

/// Replays retained transcripts through an injector.
#[derive(Debug, Clone)]
pub struct InjectorReplayHandler {
    pub injector: Injector,
}

impl InjectorReplayHandler {
    /// A handler that replays through `injector`.
    pub fn new(injector: Injector) -> (h: Self)
        ensures
            h.injector == injector,
    {
        InjectorReplayHandler { injector }
    }
}

/// The socket path that `ipc_cfg` names, with its placeholders filled in.
pub fn socket_path_from_config(ipc_cfg: &IpcConfig, env: &PathEnv) -> (r: String)
    ensures
        r@ == expand_template(ipc_cfg.socket_path@, *env),
{
    crate::config::expand_path_template(ipc_cfg.socket_path.as_str(), env)
}

/// `r` is a failed reply with the given code, message and retry hint.
pub open spec fn is_error_reply(r: ResponseEnvelope, code: Seq<char>, message: Seq<char>, retryable: bool) -> bool {
    &&& r.protocol_version == PROTOCOL_VERSION
    &&& r.result matches ResponseKind::Failure(e) && e.code@ == code && e.message@ == message
        && e.retryable == retryable
}

/// `r` is an acknowledgement with `message`.
pub open spec fn is_ack(r: ResponseEnvelope, message: Seq<char>) -> bool {
    &&& r.protocol_version == PROTOCOL_VERSION
    &&& r.result matches ResponseKind::Success(Response::Ack { message: m }) && m@ == message
}

/// The error code that a refused state command is answered with.
pub open spec fn state_error_code(e: StateError) -> Seq<char> {
    match e {
        StateError::InvalidTransition(_) => "ERR_INVALID_TRANSITION"@,
        StateError::RateLimitExceeded => "ERR_RATE_LIMIT"@,
        StateError::CooldownActive => "ERR_PROVIDER_COOLDOWN"@,
        StateError::ContinuousLimitExceeded => "ERR_CONTINUOUS_LIMIT"@,
        StateError::SoftSpendLimitReached => "ERR_SOFT_SPEND_LIMIT"@,
    }
}

/// The message that a refused state command is answered with.
pub open spec fn state_error_reply_text(e: StateError) -> Seq<char> {
    match e {
        StateError::InvalidTransition(m) => m@,
        _ => state_error_text(e),
    }
}

/// The reply to a refused state command: an invalid transition is final,
/// every guardrail refusal may be retried.
pub fn map_state_error(err: StateError) -> (r: ResponseEnvelope)
    ensures
        is_error_reply(
            r,
            state_error_code(err),
            state_error_reply_text(err),
            !(err is InvalidTransition),
        ),
{
    match err {
        StateError::InvalidTransition(msg) => ResponseEnvelope::err(
            "ERR_INVALID_TRANSITION",
            msg,
            false,
        ),
        StateError::RateLimitExceeded => ResponseEnvelope::err(
            "ERR_RATE_LIMIT",
            err.message().as_str(),
            true,
        ),
        StateError::CooldownActive => ResponseEnvelope::err(
            "ERR_PROVIDER_COOLDOWN",
            err.message().as_str(),
            true,
        ),
        StateError::ContinuousLimitExceeded => ResponseEnvelope::err(
            "ERR_CONTINUOUS_LIMIT",
            err.message().as_str(),
            true,
        ),
        StateError::SoftSpendLimitReached => ResponseEnvelope::err(
            "ERR_SOFT_SPEND_LIMIT",
            err.message().as_str(),
            true,
        ),
    }
}

/// The reply to a request that is not valid JSON of a request.
pub fn bad_request(parse_error: &str) -> (r: ResponseEnvelope)
    ensures
        is_error_reply(r, "ERR_BAD_REQUEST"@, parse_error@, false),
{
    ResponseEnvelope::err("ERR_BAD_REQUEST", parse_error, false)
}

/// The message that refuses a client speaking `client_version`.
pub open spec fn version_mismatch_text(client_version: u16) -> Seq<char> {
    "protocol mismatch: daemon="@ + decimal(PROTOCOL_VERSION as nat) + ", client="@ + decimal(
        client_version as nat,
    )
}

/// Admit a request: its command when the client speaks this protocol
/// version, else the reply that refuses it.
pub fn admit_request(request: &crate::protocol::RequestEnvelope) -> (r: Result<Command, ResponseEnvelope>)
    ensures
        request.protocol_version == PROTOCOL_VERSION ==> r == Ok::<Command, ResponseEnvelope>(
            request.command,
        ),
        request.protocol_version != PROTOCOL_VERSION ==> (r matches Err(reply) && is_error_reply(
            reply,
            ERR_PROTOCOL_VERSION@,
            version_mismatch_text(request.protocol_version),
            false,
        )),
{
    if is_compatible_version(request.protocol_version) {
        return Ok(request.command);
    }
    let mut message = String::from_str("protocol mismatch: daemon=");
    let daemon = u64_to_decimal(PROTOCOL_VERSION as u64);
    message.append(daemon.as_str());
    message.append(", client=");
    let client = u64_to_decimal(request.protocol_version as u64);
    message.append(client.as_str());
    Err(ResponseEnvelope::err(ERR_PROTOCOL_VERSION, message.as_str(), false))
}

/// The runtime commands that `t` calls for: a start when it starts a
/// recording, then a stop when it stops one.
pub open spec fn runtime_commands_of(t: RecordingTransition) -> Seq<RuntimeCommand> {
    let starts = match started_session(t) {
        Some(s) => seq![RuntimeCommand::StartRequested(s)],
        None => Seq::empty(),
    };
    let stops = match stopped_by(t) {
        Some(st) => seq![RuntimeCommand::StopRequested(st)],
        None => Seq::empty(),
    };
    starts + stops
}

/// The runtime commands that a transition calls for.
pub fn runtime_commands(t: RecordingTransition) -> (v: Vec<RuntimeCommand>)
    ensures
        v@ == runtime_commands_of(t),
{
    let mut v: Vec<RuntimeCommand> = Vec::new();
    if let Some(session) = t.start_requested() {
        v.push(RuntimeCommand::StartRequested(session));
    }
    if let Some(stopped) = t.stopped_recording() {
        v.push(RuntimeCommand::StopRequested(stopped));
    }
    assert(v@ =~= runtime_commands_of(t));
    v
}

/// What a command comes to once it has run against the state machine.
#[derive(Debug)]
pub enum CommandOutcome {
    /// Replay the retained transcript: see `begin_replay`.
    Replay,
    /// Send `response`, hand `runtime` to the runtime worker, and stop
    /// serving when `should_stop`.
    Reply { response: ResponseEnvelope, should_stop: bool, runtime: Vec<RuntimeCommand> },
}

/// The reply to a state command and the runtime commands that it calls for.
pub open spec fn state_command_reply(
    r: Result<crate::state::StateCommandResult, StateError>,
    o: CommandOutcome,
) -> bool {
    match r {
        Ok(res) => o matches CommandOutcome::Reply { response, should_stop, runtime }
            && is_ack(response, res.message@) && !should_stop && runtime@
            == runtime_commands_of(res.transition),
        Err(e) => o matches CommandOutcome::Reply { response, should_stop, runtime }
            && is_error_reply(
            response,
            state_error_code(e),
            state_error_reply_text(e),
            !(e is InvalidTransition),
        ) && !should_stop && runtime@.len() == 0,
    }
}

fn reply_for(r: Result<crate::state::StateCommandResult, StateError>) -> (o: CommandOutcome)
    ensures
        state_command_reply(r, o),
{
    match r {
        Ok(res) => CommandOutcome::Reply {
            response: ResponseEnvelope::ack(res.message),
            should_stop: false,
            runtime: runtime_commands(res.transition),
        },
        Err(e) => {
            let runtime: Vec<RuntimeCommand> = Vec::new();
            CommandOutcome::Reply { response: map_state_error(e), should_stop: false, runtime }
        },
    }
}

/// What running `command` at `now` does to the machine and answers.
pub open spec fn execute_post(
    pre: StateMachineView,
    post: StateMachineView,
    command: Command,
    o: CommandOutcome,
    now: u64,
) -> bool {
    match command {
        Command::ReplayLastTranscript => post == pre && o is Replay,
        Command::PttPress => exists|r| ptt_press_post(pre, post, r, now) && state_command_reply(
            r,
            o,
        ),
        Command::PttRelease => exists|r| ptt_release_post(pre, post, r, now)
            && state_command_reply(r, o),
        Command::ToggleContinuous => exists|r| toggle_continuous_post(pre, post, r, now)
            && state_command_reply(r, o),
        Command::Status => exists|r: Result<crate::protocol::StatusPayload, StateError>|
            status_post(pre, post, r, now) && match r {
                Ok(s) => o matches CommandOutcome::Reply { response, should_stop, runtime }
                    && response.protocol_version == PROTOCOL_VERSION && response.result
                    == ResponseKind::Success(Response::Status(s)) && !should_stop
                    && runtime@.len() == 0,
                Err(e) => o matches CommandOutcome::Reply { response, should_stop, runtime }
                    && is_error_reply(
                    response,
                    state_error_code(e),
                    state_error_reply_text(e),
                    true,
                ) && !should_stop && runtime@.len() == 0,
            },
        Command::Shutdown => post == pre && (o matches CommandOutcome::Reply {
            response,
            should_stop,
            runtime,
        } && is_ack(response, "daemon shutdown initiated"@) && should_stop && runtime@.len()
            == 0),
    }
}

/// Run `command` against the state machine at `now`.
pub fn execute_command_at(state: &mut StateMachine, command: Command, now: u64) -> (o:
    CommandOutcome)
    requires
        old(state)@.wf(),
    ensures
        final(state)@.wf(),
        execute_post(old(state)@, final(state)@, command, o, now),
{
    match command {
        Command::ReplayLastTranscript => CommandOutcome::Replay,
        Command::PttPress => {
            let r = state.ptt_press_at(now);
            reply_for(r)
        },
        Command::PttRelease => {
            let r = state.ptt_release_at(now);
            reply_for(r)
        },
        Command::ToggleContinuous => {
            let r = state.toggle_continuous_at(now);
            reply_for(r)
        },
        Command::Status => {
            let r = state.status_at(now);
            match r {
                Ok(s) => {
                    let runtime: Vec<RuntimeCommand> = Vec::new();
                    CommandOutcome::Reply {
                        response: ResponseEnvelope::ok(Response::Status(s)),
                        should_stop: false,
                        runtime,
                    }
                },
                Err(e) => {
                    let runtime: Vec<RuntimeCommand> = Vec::new();
                    CommandOutcome::Reply {
                        response: map_state_error(e),
                        should_stop: false,
                        runtime,
                    }
                },
            }
        },
        Command::Shutdown => {
            let runtime: Vec<RuntimeCommand> = Vec::new();
            CommandOutcome::Reply {
                response: ResponseEnvelope::ack("daemon shutdown initiated"),
                should_stop: true,
                runtime,
            }
        },
    }
}

/// Run `command` against the state machine now.
pub fn execute_command(state: &mut StateMachine, command: Command) -> (o: CommandOutcome)
    requires
        old(state)@.wf(),
    ensures
        final(state)@.wf(),
        exists|now: u64| #[trigger] execute_post(old(state)@, final(state)@, command, o, now),
{
    let now = state.now_ns();
    execute_command_at(state, command, now)
}

/// The first half of a replay: the reply when there is nothing to replay,
/// or the retained transcript to hand to the replay handler.
#[derive(Debug)]
pub enum ReplayStart {
    Reply(ResponseEnvelope),
    Replay(String),
}

/// What starting a replay does.
pub open spec fn begin_replay_post(
    pre: StateMachineView,
    post: StateMachineView,
    has_handler: bool,
    r: ReplayStart,
) -> bool {
    if pre.state != DictationState::Idle {
        post == pre && (r matches ReplayStart::Reply(reply) && is_error_reply(
            reply,
            "ERR_INVALID_TRANSITION"@,
            "cannot replay transcript while dictation is active"@,
            false,
        ))
    } else if !has_handler {
        post == pre && (r matches ReplayStart::Reply(reply) && is_error_reply(
            reply,
            "ERR_REPLAY_HANDLER_UNAVAILABLE"@,
            "replay handler is not configured"@,
            false,
        ))
    } else {
        match pre.last_transcript {
            None => post == pre && (r matches ReplayStart::Reply(reply) && is_ack(
                reply,
                "no retained transcript available for replay"@,
            )),
            Some(t) => post == (StateMachineView { last_transcript: None, ..pre }) && (
            r matches ReplayStart::Replay(s) && s@ == t),
        }
    }
}

/// Start replaying the retained transcript.
pub fn begin_replay(state: &mut StateMachine, has_handler: bool) -> (r: ReplayStart)
    requires
        old(state)@.wf(),
    ensures
        final(state)@.wf(),
        begin_replay_post(old(state)@, final(state)@, has_handler, r),
{
    if state.current_state() != DictationState::Idle {
        return ReplayStart::Reply(
            ResponseEnvelope::err(
                "ERR_INVALID_TRANSITION",
                "cannot replay transcript while dictation is active",
                false,
            ),
        );
    }
    if !has_handler {
        return ReplayStart::Reply(
            ResponseEnvelope::err(
                "ERR_REPLAY_HANDLER_UNAVAILABLE",
                "replay handler is not configured",
                false,
            ),
        );
    }
    match state.take_last_transcript() {
        None => ReplayStart::Reply(
            ResponseEnvelope::ack("no retained transcript available for replay"),
        ),
        Some(t) => ReplayStart::Replay(t),
    }
}

/// The text of a bool as `Display` prints it.
pub open spec fn bool_text(b: bool) -> Seq<char> {
    if b {
        "true"@
    } else {
        "false"@
    }
}

/// The text of a bool as `Display` prints it.
pub fn bool_str(b: bool) -> (s: &'static str)
    ensures
        s@ == bool_text(b),
{
    if b {
        "true"
    } else {
        "false"
    }
}

/// The acknowledgement of a successful replay.
pub open spec fn replay_success_text(r: InjectionResult) -> Seq<char> {
    "retained transcript replayed via "@ + r.backend@ + " (inserted="@ + bool_text(r.inserted)
        + ", requires_manual_paste="@ + bool_text(r.requires_manual_paste) + ")"@
}

/// The code with which a failed output is reported.
pub open spec fn output_error_code(e: InjectionError) -> Seq<char> {
    match e {
        InjectionError::BackendUnavailable => ERR_OUTPUT_BACKEND_UNAVAILABLE@,
        InjectionError::BackendFailed { .. } => ERR_OUTPUT_BACKEND_FAILED@,
    }
}

/// The message with which a failed replay is reported.
pub open spec fn replay_failure_text(e: InjectionError) -> Seq<char> {
    match e {
        InjectionError::BackendUnavailable => "replay failed: no output backend is available"@,
        InjectionError::BackendFailed { .. } => "replay failed: "@ + injection_error_text(e),
    }
}

/// What finishing a replay of `transcript` with `outcome` does.
pub open spec fn finish_replay_post(
    pre: StateMachineView,
    post: StateMachineView,
    transcript: Seq<char>,
    outcome: Result<InjectionResult, InjectionError>,
    r: ResponseEnvelope,
) -> bool {
    match outcome {
        Ok(res) => post == (StateMachineView { last_output_error_code: None, ..pre }) && is_ack(
            r,
            replay_success_text(res),
        ),
        Err(e) => post == (StateMachineView {
            last_transcript: if pre.last_transcript is Some {
                pre.last_transcript
            } else {
                Some(transcript)
            },
            last_output_error_code: Some(output_error_code(e)),
            ..pre
        }) && is_error_reply(r, output_error_code(e), replay_failure_text(e), true),
    }
}

/// Finish a replay of `transcript` whose output came to `outcome`: success
/// clears the output error; failure keeps the transcript for another replay
/// unless a newer one was retained meanwhile, and records the error.
pub fn finish_replay(
    state: &mut StateMachine,
    transcript: String,
    outcome: Result<InjectionResult, InjectionError>,
) -> (r: ResponseEnvelope)
    requires
        old(state)@.wf(),
    ensures
        final(state)@.wf(),
        finish_replay_post(old(state)@, final(state)@, transcript@, outcome, r),
{
    match outcome {
        Ok(res) => {
            state.set_last_output_error_code(None);
            let mut message = String::from_str("retained transcript replayed via ");
            message.append(res.backend);
            message.append(" (inserted=");
            message.append(bool_str(res.inserted));
            message.append(", requires_manual_paste=");
            message.append(bool_str(res.requires_manual_paste));
            message.append(")");
            ResponseEnvelope::ack(message.as_str())
        },
        Err(e) => {
            let code: &'static str = match e {
                InjectionError::BackendUnavailable => ERR_OUTPUT_BACKEND_UNAVAILABLE,
                InjectionError::BackendFailed { .. } => ERR_OUTPUT_BACKEND_FAILED,
            };
            let message = match e {
                InjectionError::BackendUnavailable => String::from_str(
                    "replay failed: no output backend is available",
                ),
                InjectionError::BackendFailed { .. } => {
                    let text = e.message();
                    concat_str("replay failed: ", text.as_str())
                },
            };
            let _restored = state.restore_last_transcript_if_absent(transcript);
            state.set_last_output_error_code(Some(code.to_string()));
            ResponseEnvelope::err(code, message.as_str(), true)
        },
    }
}

/// A replay whose output fails never loses a transcript: the replayed one is
/// retained again, unless a newer one was retained while it ran, which
/// stays; either way the failure is recorded and may be retried.
pub proof fn law_failed_replay_keeps_a_transcript(
    s0: StateMachineView,
    s1: StateMachineView,
    s2: StateMachineView,
    start: ReplayStart,
    e: InjectionError,
    r: ResponseEnvelope,
)
    requires
        s0.wf(),
        begin_replay_post(s0, s1, true, start),
        start matches ReplayStart::Replay(t) && finish_replay_post(
            s1,
            s2,
            t@,
            Err::<InjectionResult, InjectionError>(e),
            r,
        ),
    ensures
        s2.last_transcript == s0.last_transcript,
        s2.last_output_error_code == Some(output_error_code(e)),
        r.result matches ResponseKind::Failure(p) && p.retryable,
{
}

/// A refused command is answered with the code of its refusal: an invalid
/// transition (final, with its own message), the request rate, the provider
/// cooldown, the continuous limit or the spend limit, the last four being
/// worth a retry.
pub proof fn law_refusals_carry_their_code(e: StateError)
    ensures
        e is InvalidTransition <==> state_error_code(e) == "ERR_INVALID_TRANSITION"@,
        e is RateLimitExceeded ==> state_error_code(e) == "ERR_RATE_LIMIT"@,
        e is CooldownActive ==> state_error_code(e) == "ERR_PROVIDER_COOLDOWN"@,
        e is ContinuousLimitExceeded ==> state_error_code(e) == "ERR_CONTINUOUS_LIMIT"@,
        e is SoftSpendLimitReached ==> state_error_code(e) == "ERR_SOFT_SPEND_LIMIT"@,
        e matches StateError::InvalidTransition(m) ==> state_error_reply_text(e) == m@,
{
    reveal_strlit("ERR_INVALID_TRANSITION");
    reveal_strlit("ERR_RATE_LIMIT");
    reveal_strlit("ERR_PROVIDER_COOLDOWN");
    reveal_strlit("ERR_CONTINUOUS_LIMIT");
    reveal_strlit("ERR_SOFT_SPEND_LIMIT");
    if !(e is InvalidTransition) {
        assert(state_error_code(e).len() != "ERR_INVALID_TRANSITION"@.len());
    }
}

/// A transition asks the runtime to start the recording it starts and to
/// stop the recording it stops, the start first, and for nothing else.
pub proof fn law_runtime_commands_follow_the_transition(t: RecordingTransition)
    ensures
        runtime_commands_of(t).len() == (if started_session(t) is Some { 1int } else { 0 }) + (
        if stopped_by(t) is Some {
            1int
        } else {
            0
        }),
        started_session(t) matches Some(s) ==> runtime_commands_of(t)[0]
            == RuntimeCommand::StartRequested(s),
        stopped_by(t) matches Some(st) ==> runtime_commands_of(t).last()
            == RuntimeCommand::StopRequested(st),
        t.previous == t.current && t.stop_reason is None ==> runtime_commands_of(t).len() == 0,
{
}

/// Only a shutdown request stops the daemon, and it changes nothing else;
/// a replay request leaves the state machine to the replay that follows.
pub proof fn law_only_shutdown_stops_serving(
    pre: StateMachineView,
    post: StateMachineView,
    command: Command,
    o: CommandOutcome,
    now: u64,
)
    requires
        execute_post(pre, post, command, o, now),
    ensures
        command == Command::Shutdown ==> post == pre && (o matches CommandOutcome::Reply {
            should_stop,
            ..
        } && should_stop),
        command != Command::Shutdown && command != Command::ReplayLastTranscript ==> (o matches CommandOutcome::Reply {
            should_stop,
            ..
        } && !should_stop),
        command == Command::ReplayLastTranscript ==> post == pre && o is Replay,
{
}

} // verus!
