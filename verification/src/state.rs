//! The dictation state machine: push-to-talk and continuous recording, the
//! capture gate that opens a recording, the provider cooldown, the request
//! rate window, the soft spend limit and the transcript retained for replay.
//!
//! Every operation that reads the clock also exists with an `_at` suffix that
//! takes the time, in nanoseconds of the machine's own clock, as an argument;
//! the contracts are stated on those and hold for every time.
use std::collections::VecDeque;

use vstd::prelude::*;

use crate::clock::Clock;
use crate::config::GuardrailsConfig;
use crate::protocol::{DictationState, StatusPayload, PROTOCOL_VERSION};

verus! {

/// Nanoseconds in a second.
pub const NANOS_PER_SECOND: u64 = 1_000_000_000;

/// Nanoseconds in a millisecond.
pub const NANOS_PER_MILLI: u64 = 1_000_000;

/// Length of the request rate window, in nanoseconds.
pub const RATE_WINDOW_NS: u64 = 60_000_000_000;

/// Why a command was refused.
#[derive(Debug, Clone, Copy)]
pub enum StateError {
    InvalidTransition(&'static str),
    RateLimitExceeded,
    CooldownActive,
    ContinuousLimitExceeded,
    SoftSpendLimitReached,
}

/// The text that describes `e`.
pub open spec fn state_error_text(e: StateError) -> Seq<char> {
    match e {
        StateError::InvalidTransition(m) => "invalid mode transition: "@ + m@,
        StateError::RateLimitExceeded => "request limit reached"@,
        StateError::CooldownActive => "provider cooldown active"@,
        StateError::ContinuousLimitExceeded => "continuous mode time limit reached"@,
        StateError::SoftSpendLimitReached => "monthly soft spend limit reached"@,
    }
}

impl StateError {
    /// The text that describes the error.
    pub fn message(&self) -> (s: String)
        ensures
            s@ == state_error_text(*self),
    {
        match self {
            StateError::InvalidTransition(m) => {
                let mut s = String::from_str("invalid mode transition: ");
                s.append(m);
                s
            },
            StateError::RateLimitExceeded => String::from_str("request limit reached"),
            StateError::CooldownActive => String::from_str("provider cooldown active"),
            StateError::ContinuousLimitExceeded => String::from_str(
                "continuous mode time limit reached",
            ),
            StateError::SoftSpendLimitReached => String::from_str(
                "monthly soft spend limit reached",
            ),
        }
    }
}

/// The two ways of recording.
#[derive(Debug, Clone, Copy, PartialEq, Eq, Structural)]
pub enum RecordingMode {
    PushToTalk,
    Continuous,
}

/// Whether the capture gate of a recording has opened.
#[derive(Debug, Clone, Copy, PartialEq, Eq, Structural)]
pub enum RecordingPhase {
    StartPending,
    Active,
}

/// Why a recording ended.
#[derive(Debug, Clone, Copy, PartialEq, Eq, Structural)]
pub enum RecordingStopReason {
    UserStop,
    CancelledBeforeCapture,
    ProviderCooldown,
    ContinuousLimitExceeded,
}

/// One recording.
#[derive(Debug, Clone, Copy, PartialEq, Eq, Structural)]
pub struct RecordingSession {
    pub id: u64,
    pub mode: RecordingMode,
    pub phase: RecordingPhase,
}

/// The recording before and after a command, and why it stopped if it did.
#[derive(Debug, Clone, Copy, PartialEq, Eq)]
pub struct RecordingTransition {
    pub previous: Option<RecordingSession>,
    pub current: Option<RecordingSession>,
    pub stop_reason: Option<RecordingStopReason>,
}

fn session_opt_eq(a: Option<RecordingSession>, b: Option<RecordingSession>) -> (r: bool)
    ensures
        r == (a == b),
{
    match (a, b) {
        (None, None) => true,
        (Some(x), Some(y)) => x == y,
        _ => false,
    }
}

/// The session that a transition starts, if it starts one.
pub open spec fn started_session(t: RecordingTransition) -> Option<RecordingSession> {
    if t.previous is None && t.current is Some && t.current->0.phase == RecordingPhase::StartPending {
        t.current
    } else {
        None
    }
}

/// The session whose capture gate a transition opens, if it opens one.
pub open spec fn permitted_session(t: RecordingTransition) -> Option<RecordingSession> {
    match (t.previous, t.current) {
        (Some(p), Some(c)) => if p.phase == RecordingPhase::StartPending && c.phase
            == RecordingPhase::Active && p.id == c.id && p.mode == c.mode {
            Some(c)
        } else {
            None
        },
        _ => None,
    }
}

/// The recording that a transition stops, if it stops one.
pub open spec fn stopped_by(t: RecordingTransition) -> Option<StoppedRecording> {
    match (t.previous, t.stop_reason) {
        (Some(s), Some(r)) => Some(StoppedRecording { session: s, reason: r }),
        _ => None,
    }
}

impl RecordingTransition {
    /// The transition that leaves `session` as it is.
    pub fn unchanged(session: Option<RecordingSession>) -> (t: Self)
        ensures
            t == (RecordingTransition { previous: session, current: session, stop_reason: None }),
    {
        RecordingTransition { previous: session, current: session, stop_reason: None }
    }

    /// Whether the recording changed or stopped.
    pub fn has_changed(self) -> (b: bool)
        ensures
            b == (self.previous != self.current || self.stop_reason is Some),
    {
        !session_opt_eq(self.previous, self.current) || self.stop_reason.is_some()
    }

    /// The session that this transition starts, if any.
    pub fn start_requested(self) -> (r: Option<RecordingSession>)
        ensures
            r == started_session(self),
    {
        match (self.previous, self.current) {
            (None, Some(session)) => {
                if session.phase == RecordingPhase::StartPending {
                    Some(session)
                } else {
                    None
                }
            },
            _ => None,
        }
    }

    /// The session whose capture gate this transition opens, if any.
    pub fn capture_permitted(self) -> (r: Option<RecordingSession>)
        ensures
            r == permitted_session(self),
    {
        match (self.previous, self.current) {
            (Some(p), Some(c)) => {
                if p.phase == RecordingPhase::StartPending && c.phase == RecordingPhase::Active
                    && p.id == c.id && p.mode == c.mode {
                    Some(c)
                } else {
                    None
                }
            },
            _ => None,
        }
    }

    /// The recording that this transition stops, if any.
    pub fn stopped_recording(self) -> (r: Option<StoppedRecording>)
        ensures
            r == stopped_by(self),
    {
        match (self.previous, self.stop_reason) {
            (Some(session), Some(reason)) => Some(StoppedRecording { session, reason }),
            _ => None,
        }
    }
}

/// A recording that stopped, and why.
#[derive(Debug, Clone, Copy, PartialEq, Eq, Structural)]
pub struct StoppedRecording {
    pub session: RecordingSession,
    pub reason: RecordingStopReason,
}

/// What the runtime must do for a released push-to-talk recording.
#[derive(Debug, Clone, Copy, PartialEq, Eq, Structural)]
pub enum PendingPushToTalkCapture {
    Capture { session_id: u64, duration_ms: u32 },
    Cancelled { session_id: u64 },
}

/// The session that a pending capture belongs to.
pub open spec fn pending_session_id(p: PendingPushToTalkCapture) -> u64 {
    match p {
        PendingPushToTalkCapture::Capture { session_id, .. } => session_id,
        PendingPushToTalkCapture::Cancelled { session_id } => session_id,
    }
}

/// The reply to a state command: a message and the recording transition.
#[derive(Debug, Clone, Copy)]
pub struct StateCommandResult {
    pub message: &'static str,
    pub transition: RecordingTransition,
}

/// The state machine as a value.
pub struct StateMachineView {
    pub state: DictationState,
    pub recording_session: Option<RecordingSession>,
    pub next_recording_session_id: u64,
    pub requests: Seq<u64>,
    pub cooldown_until: Option<u64>,
    pub continuous_started_at: Option<u64>,
    pub ptt_started_at: Option<u64>,
    pub pending_ptt_capture: Option<PendingPushToTalkCapture>,
    pub guardrails: GuardrailsConfig,
    pub monthly_spend_micro_usd: i64,
    pub last_transcript: Option<Seq<char>>,
    pub last_output_error_code: Option<Seq<char>>,
    pub last_audio_error_code: Option<Seq<char>>,
}

/// `id` is below every id that the machine will hand out next.
pub open spec fn id_is_spent(id: u64, next: u64) -> bool {
    id < next || next == u64::MAX
}

impl StateMachineView {
    /// The invariant that every operation keeps.
    pub open spec fn wf(self) -> bool {
        &&& (self.recording_session is Some <==> (self.state == DictationState::PushToTalkActive
            || self.state == DictationState::ContinuousActive))
        &&& (self.state == DictationState::PushToTalkActive
            ==> self.recording_session->0.mode == RecordingMode::PushToTalk)
        &&& (self.state == DictationState::ContinuousActive
            ==> self.recording_session->0.mode == RecordingMode::Continuous)
        &&& (self.pending_ptt_capture is Some ==> self.state == DictationState::Processing)
        &&& (self.recording_session matches Some(s) ==> id_is_spent(
            s.id,
            self.next_recording_session_id,
        ))
        &&& (self.pending_ptt_capture matches Some(p) ==> id_is_spent(
            pending_session_id(p),
            self.next_recording_session_id,
        ))
        &&& self.requests.len() <= self.guardrails.max_requests_per_minute
        &&& self.monthly_spend_micro_usd >= 0
    }
}

/// The provider cooldown is in force at `now`.
pub open spec fn cooldown_active(v: StateMachineView, now: u64) -> bool {
    v.cooldown_until matches Some(until) && now < until
}

/// A request made at `t` is older than the rate window at `now`.
pub open spec fn is_stale(t: u64, now: u64) -> bool {
    t + RATE_WINDOW_NS < now
}

/// The request times left after dropping stale ones from the front.
pub open spec fn prune(reqs: Seq<u64>, now: u64) -> Seq<u64>
    decreases reqs.len(),
{
    if reqs.len() > 0 && is_stale(reqs[0], now) {
        prune(reqs.drop_first(), now)
    } else {
        reqs
    }
}

/// The machine with its rate window pruned at `now`.
pub open spec fn pruned(v: StateMachineView, now: u64) -> StateMachineView {
    StateMachineView { requests: prune(v.requests, now), ..v }
}

/// Continuous recording has run past its limit at `now`.
pub open spec fn continuous_limit_exceeded(v: StateMachineView, now: u64) -> bool {
    &&& v.state == DictationState::ContinuousActive
    &&& v.recording_session matches Some(s) && s.phase == RecordingPhase::Active
    &&& v.continuous_started_at matches Some(t) && now - t > v.guardrails.max_continuous_minutes
        * 60 * NANOS_PER_SECOND
}

/// Whole seconds of cooldown left at `now`.
pub open spec fn cooldown_remaining(v: StateMachineView, now: u64) -> u32 {
    match v.cooldown_until {
        Some(until) => if now < until {
            ((until - now) / (NANOS_PER_SECOND as int)) as u32
        } else {
            0
        },
        None => 0,
    }
}

/// How long a released push-to-talk recording is captured for, in milliseconds.
pub open spec fn held_duration_ms(started: Option<u64>, now: u64) -> u32 {
    let raw: u32 = match started {
        Some(t) => (if now >= t {
            (now - t) / (NANOS_PER_MILLI as int)
        } else {
            0
        }) as u32,
        None => 300,
    };
    if raw < 100 {
        100
    } else if raw > 30_000 {
        30_000
    } else {
        raw
    }
}

/// The next session id, saturating at `u64::MAX`.
pub open spec fn next_id(id: u64) -> u64 {
    if id == u64::MAX {
        id
    } else {
        (id + 1) as u64
    }
}

/// The machine after it starts a recording of `mode` in state `state`.
pub open spec fn begin_view(v: StateMachineView, state: DictationState, mode: RecordingMode) -> StateMachineView {
    StateMachineView {
        state,
        recording_session: Some(
            RecordingSession {
                id: v.next_recording_session_id,
                mode,
                phase: RecordingPhase::StartPending,
            },
        ),
        next_recording_session_id: next_id(v.next_recording_session_id),
        pending_ptt_capture: None,
        ptt_started_at: None,
        continuous_started_at: None,
        ..v
    }
}

/// The transition of starting a recording of `mode`.
pub open spec fn begin_transition(v: StateMachineView, mode: RecordingMode) -> RecordingTransition {
    RecordingTransition {
        previous: v.recording_session,
        current: Some(
            RecordingSession {
                id: v.next_recording_session_id,
                mode,
                phase: RecordingPhase::StartPending,
            },
        ),
        stop_reason: None,
    }
}

/// Why a user stop ends `s`: a user stop once capture began, a cancel before.
pub open spec fn user_stop_reason(s: RecordingSession) -> RecordingStopReason {
    if s.phase == RecordingPhase::Active {
        RecordingStopReason::UserStop
    } else {
        RecordingStopReason::CancelledBeforeCapture
    }
}

/// The transition of a user stopping the recording of `v`.
pub open spec fn user_stop_transition(v: StateMachineView) -> RecordingTransition {
    RecordingTransition {
        previous: v.recording_session,
        current: None,
        stop_reason: match v.recording_session {
            Some(s) => Some(user_stop_reason(s)),
            None => None,
        },
    }
}

/// `r` is a success with message `m` and transition `t`.
pub open spec fn ok_with(
    r: Result<StateCommandResult, StateError>,
    m: Seq<char>,
    t: RecordingTransition,
) -> bool {
    r matches Ok(res) && res.message@ == m && res.transition == t
}

/// `r` is an invalid-transition error with message `m`.
pub open spec fn invalid_with(r: Result<StateCommandResult, StateError>, m: Seq<char>) -> bool {
    r matches Err(StateError::InvalidTransition(msg)) && msg@ == m
}

/// What a push-to-talk press does at `now`.
pub open spec fn ptt_press_post(
    pre: StateMachineView,
    post: StateMachineView,
    r: Result<StateCommandResult, StateError>,
    now: u64,
) -> bool {
    if cooldown_active(pre, now) {
        post == pre && r matches Err(StateError::CooldownActive)
    } else {
        match pre.state {
            DictationState::Idle => post == begin_view(
                pre,
                DictationState::PushToTalkActive,
                RecordingMode::PushToTalk,
            ) && ok_with(
                r,
                "push-to-talk recording started"@,
                begin_transition(pre, RecordingMode::PushToTalk),
            ),
            DictationState::PushToTalkActive => post == pre && ok_with(
                r,
                "push-to-talk already active"@,
                RecordingTransition {
                    previous: pre.recording_session,
                    current: pre.recording_session,
                    stop_reason: None,
                },
            ),
            DictationState::ContinuousActive => post == pre && invalid_with(
                r,
                "cannot press push-to-talk while continuous mode is active"@,
            ),
            DictationState::Processing => post == pre && ok_with(
                r,
                "currently processing previous utterance"@,
                RecordingTransition {
                    previous: pre.recording_session,
                    current: pre.recording_session,
                    stop_reason: None,
                },
            ),
        }
    }
}

/// What the runtime must do for the push-to-talk recording `s` released at `now`.
pub open spec fn pending_for(s: RecordingSession, started: Option<u64>, now: u64) -> PendingPushToTalkCapture {
    if s.phase == RecordingPhase::Active {
        PendingPushToTalkCapture::Capture {
            session_id: s.id,
            duration_ms: held_duration_ms(started, now),
        }
    } else {
        PendingPushToTalkCapture::Cancelled { session_id: s.id }
    }
}

/// What a push-to-talk release does at `now`.
pub open spec fn ptt_release_post(
    pre: StateMachineView,
    post: StateMachineView,
    r: Result<StateCommandResult, StateError>,
    now: u64,
) -> bool {
    if cooldown_active(pre, now) {
        post == pre && r matches Err(StateError::CooldownActive)
    } else {
        match pre.state {
            DictationState::PushToTalkActive => post == (StateMachineView {
                state: DictationState::Processing,
                recording_session: None,
                pending_ptt_capture: Some(
                    pending_for(pre.recording_session->0, pre.ptt_started_at, now),
                ),
                continuous_started_at: None,
                ptt_started_at: None,
                ..pre
            }) && ok_with(
                r,
                "push-to-talk recording stopped; utterance queued"@,
                user_stop_transition(pre),
            ),
            DictationState::Idle => post == pre && ok_with(
                r,
                "push-to-talk release ignored; idle"@,
                RecordingTransition {
                    previous: pre.recording_session,
                    current: pre.recording_session,
                    stop_reason: None,
                },
            ),
            DictationState::ContinuousActive => post == pre && invalid_with(
                r,
                "cannot release push-to-talk while continuous mode is active"@,
            ),
            DictationState::Processing => post == pre && ok_with(
                r,
                "utterance already processing"@,
                RecordingTransition {
                    previous: pre.recording_session,
                    current: pre.recording_session,
                    stop_reason: None,
                },
            ),
        }
    }
}

/// What toggling continuous mode does at `now`.
pub open spec fn toggle_continuous_post(
    pre: StateMachineView,
    post: StateMachineView,
    r: Result<StateCommandResult, StateError>,
    now: u64,
) -> bool {
    if cooldown_active(pre, now) {
        post == pre && r matches Err(StateError::CooldownActive)
    } else {
        match pre.state {
            DictationState::Idle => post == begin_view(
                pre,
                DictationState::ContinuousActive,
                RecordingMode::Continuous,
            ) && ok_with(
                r,
                "continuous mode enabled"@,
                begin_transition(pre, RecordingMode::Continuous),
            ),
            DictationState::ContinuousActive => post == (StateMachineView {
                state: DictationState::Idle,
                recording_session: None,
                continuous_started_at: None,
                ptt_started_at: None,
                ..pre
            }) && ok_with(r, "continuous mode disabled"@, user_stop_transition(pre)),
            DictationState::PushToTalkActive => post == pre && invalid_with(
                r,
                "cannot toggle continuous mode while push-to-talk is active"@,
            ),
            DictationState::Processing => post == pre && invalid_with(
                r,
                "cannot toggle continuous mode while processing"@,
            ),
        }
    }
}

/// The status report of `v` at `now`.
pub open spec fn status_of(v: StateMachineView, now: u64, s: StatusPayload) -> bool {
    &&& s.state == v.state
    &&& s.protocol_version == PROTOCOL_VERSION
    &&& s.cooldown_remaining_seconds == cooldown_remaining(v, now)
    &&& s.requests_in_last_minute == v.requests.len()
    &&& s.has_retained_transcript == v.last_transcript is Some
    &&& opt_string_view(s.last_output_error_code) == v.last_output_error_code
    &&& opt_string_view(s.last_audio_error_code) == v.last_audio_error_code
}

/// What a status request does at `now`.
pub open spec fn status_post(
    pre: StateMachineView,
    post: StateMachineView,
    r: Result<StatusPayload, StateError>,
    now: u64,
) -> bool {
    &&& post == pruned(pre, now)
    &&& if continuous_limit_exceeded(pre, now) {
        r matches Err(StateError::ContinuousLimitExceeded)
    } else {
        r matches Ok(s) && status_of(post, now, s)
    }
}

/// The soft spend limit blocks new requests.
pub open spec fn spend_blocked(v: StateMachineView) -> bool {
    v.guardrails.monthly_soft_spend_limit_micro_usd matches Some(limit)
        && v.monthly_spend_micro_usd >= limit && !v.guardrails.allow_over_limit
}

/// What marking a transcription request does at `now`.
pub open spec fn mark_request_post(
    pre: StateMachineView,
    post: StateMachineView,
    r: Result<(), StateError>,
    now: u64,
) -> bool {
    if cooldown_active(pre, now) {
        post == pre && r matches Err(StateError::CooldownActive)
    } else if prune(pre.requests, now).len() >= pre.guardrails.max_requests_per_minute {
        post == pruned(pre, now) && r matches Err(StateError::RateLimitExceeded)
    } else if spend_blocked(pre) {
        post == pruned(pre, now) && r matches Err(StateError::SoftSpendLimitReached)
    } else {
        post == (StateMachineView { requests: prune(pre.requests, now).push(now), ..pre })
            && r is Ok
    }
}

/// The machine after the current recording is stopped for `reason`, and the
/// stopped recording.
pub open spec fn stop_current(v: StateMachineView, reason: RecordingStopReason) -> (
    StateMachineView,
    Option<StoppedRecording>,
) {
    match v.recording_session {
        Some(s) => (
            StateMachineView {
                recording_session: None,
                continuous_started_at: None,
                ptt_started_at: None,
                ..v
            },
            Some(StoppedRecording { session: s, reason }),
        ),
        None => (v, None),
    }
}

/// What a provider failure cooldown does at `now`.
pub open spec fn cooldown_post(
    pre: StateMachineView,
    post: StateMachineView,
    r: Option<StoppedRecording>,
    now: u64,
) -> bool {
    let (stopped, rec) = stop_current(pre, RecordingStopReason::ProviderCooldown);
    let delay = pre.guardrails.provider_error_cooldown_seconds * NANOS_PER_SECOND;
    let until = if now + delay > u64::MAX {
        u64::MAX
    } else {
        (now + delay) as u64
    };
    &&& r == rec
    &&& post == (StateMachineView {
        cooldown_until: Some(until),
        state: DictationState::Idle,
        pending_ptt_capture: None,
        ..stopped
    })
}

/// What opening the capture gate of `session_id` does at `now`.
pub open spec fn capture_permitted_post(
    pre: StateMachineView,
    post: StateMachineView,
    t: RecordingTransition,
    session_id: u64,
    now: u64,
) -> bool {
    match pre.recording_session {
        Some(s) => if s.id == session_id && s.phase == RecordingPhase::StartPending {
            let opened = RecordingSession { phase: RecordingPhase::Active, ..s };
            &&& t == (RecordingTransition {
                previous: Some(s),
                current: Some(opened),
                stop_reason: None,
            })
            &&& post == if s.mode == RecordingMode::PushToTalk {
                StateMachineView {
                    recording_session: Some(opened),
                    ptt_started_at: Some(now),
                    ..pre
                }
            } else {
                StateMachineView {
                    recording_session: Some(opened),
                    continuous_started_at: Some(now),
                    ..pre
                }
            }
        } else {
            post == pre && t == (RecordingTransition {
                previous: Some(s),
                current: Some(s),
                stop_reason: None,
            })
        },
        None => post == pre && t == (RecordingTransition {
            previous: None,
            current: None,
            stop_reason: None,
        }),
    }
}

/// What taking the pending capture of `session_id` does.
pub open spec fn take_pending_post(
    pre: StateMachineView,
    post: StateMachineView,
    r: Option<PendingPushToTalkCapture>,
    session_id: u64,
) -> bool {
    match pre.pending_ptt_capture {
        Some(p) => if pending_session_id(p) == session_id {
            r == Some(p) && post == (StateMachineView { pending_ptt_capture: None, ..pre })
        } else {
            r is None && post == pre
        },
        None => r is None && post == pre,
    }
}

/// What enforcing the continuous limit does at `now`.
pub open spec fn continuous_limit_post(
    pre: StateMachineView,
    post: StateMachineView,
    r: Option<StoppedRecording>,
    now: u64,
) -> bool {
    if continuous_limit_exceeded(pre, now) {
        let (stopped, rec) = stop_current(pre, RecordingStopReason::ContinuousLimitExceeded);
        r == rec && r is Some && post == (StateMachineView {
            state: DictationState::Idle,
            ..stopped
        })
    } else {
        post == pre && r is None
    }
}

/// The view of an optional string.
pub open spec fn opt_string_view(o: Option<String>) -> Option<Seq<char>> {
    match o {
        Some(s) => Some(s@),
        None => None,
    }
}

fn clone_opt_string(o: &Option<String>) -> (r: Option<String>)
    ensures
        opt_string_view(r) == opt_string_view(*o),
{
    match o {
        Some(s) => Some(s.clone()),
        None => None,
    }
}

/// The recording state machine of the daemon.
#[derive(Debug)]
pub struct StateMachine {
    state: DictationState,
    recording_session: Option<RecordingSession>,
    next_recording_session_id: u64,
    requests_last_minute: VecDeque<u64>,
    cooldown_until: Option<u64>,
    continuous_started_at: Option<u64>,
    ptt_started_at: Option<u64>,
    pending_ptt_capture: Option<PendingPushToTalkCapture>,
    guardrails: GuardrailsConfig,
    monthly_spend_micro_usd: i64,
    last_transcript: Option<String>,
    last_output_error_code: Option<String>,
    last_audio_error_code: Option<String>,
    clock: Clock,
}

impl View for StateMachine {
    type V = StateMachineView;

    closed spec fn view(&self) -> StateMachineView {
        StateMachineView {
            state: self.state,
            recording_session: self.recording_session,
            next_recording_session_id: self.next_recording_session_id,
            requests: self.requests_last_minute@,
            cooldown_until: self.cooldown_until,
            continuous_started_at: self.continuous_started_at,
            ptt_started_at: self.ptt_started_at,
            pending_ptt_capture: self.pending_ptt_capture,
            guardrails: self.guardrails,
            monthly_spend_micro_usd: self.monthly_spend_micro_usd,
            last_transcript: opt_string_view(self.last_transcript),
            last_output_error_code: opt_string_view(self.last_output_error_code),
            last_audio_error_code: opt_string_view(self.last_audio_error_code),
        }
    }
}

/// The machine that `StateMachine::new` builds.
pub open spec fn initial_view(guardrails: GuardrailsConfig) -> StateMachineView {
    StateMachineView {
        state: DictationState::Idle,
        recording_session: None,
        next_recording_session_id: 1,
        requests: Seq::empty(),
        cooldown_until: None,
        continuous_started_at: None,
        ptt_started_at: None,
        pending_ptt_capture: None,
        guardrails,
        monthly_spend_micro_usd: 0,
        last_transcript: None,
        last_output_error_code: None,
        last_audio_error_code: None,
    }
}

/// The month's spend after adding `delta`: saturating, and never below zero.
pub open spec fn spend_after(spend: i64, delta: i64) -> i64 {
    let sum = spend + delta;
    if sum > i64::MAX {
        i64::MAX
    } else if sum < 0 {
        0
    } else {
        sum as i64
    }
}

fn held_duration(started: Option<u64>, now: u64) -> (d: u32)
    ensures
        d == held_duration_ms(started, now),
{
    let raw: u32 = match started {
        Some(t) => (if now >= t {
            (now - t) / NANOS_PER_MILLI
        } else {
            0
        }) as u32,
        None => 300,
    };
    if raw < 100 {
        100
    } else if raw > 30_000 {
        30_000
    } else {
        raw
    }
}

proof fn lemma_prune_len(reqs: Seq<u64>, now: u64)
    ensures
        prune(reqs, now).len() <= reqs.len(),
    decreases reqs.len(),
{
    if reqs.len() > 0 && is_stale(reqs[0], now) {
        lemma_prune_len(reqs.drop_first(), now);
    }
}

impl StateMachine {
    /// An idle machine under `guardrails`.
    pub fn new(guardrails: GuardrailsConfig) -> (m: Self)
        ensures
            m@ == initial_view(guardrails),
            m@.wf(),
    {
        StateMachine {
            state: DictationState::Idle,
            recording_session: None,
            next_recording_session_id: 1,
            requests_last_minute: VecDeque::new(),
            cooldown_until: None,
            continuous_started_at: None,
            ptt_started_at: None,
            pending_ptt_capture: None,
            guardrails,
            monthly_spend_micro_usd: 0,
            last_transcript: None,
            last_output_error_code: None,
            last_audio_error_code: None,
            clock: Clock::start(),
        }
    }

    /// The machine's clock, in nanoseconds since the machine was built.
    pub fn now_ns(&self) -> u64 {
        self.clock.now_ns()
    }

    fn enforce_cooldown(&self, now: u64) -> (r: Result<(), StateError>)
        ensures
            cooldown_active(self@, now) <==> r is Err,
            r matches Err(e) ==> e matches StateError::CooldownActive,
    {
        match self.cooldown_until {
            Some(until) => if now < until {
                Err(StateError::CooldownActive)
            } else {
                Ok(())
            },
            None => Ok(()),
        }
    }

    fn begin_recording(&mut self, mode: RecordingMode) -> (t: RecordingTransition)
        ensures
            final(self)@ == begin_view(old(self)@, old(self)@.state, mode),
            t == begin_transition(old(self)@, mode),
            final(self).clock == old(self).clock,
    {
        let previous = self.recording_session;
        let session = RecordingSession {
            id: self.next_recording_session_id,
            mode,
            phase: RecordingPhase::StartPending,
        };
        self.next_recording_session_id = self.next_recording_session_id.saturating_add(1);
        self.recording_session = Some(session);
        self.pending_ptt_capture = None;
        self.ptt_started_at = None;
        self.continuous_started_at = None;
        RecordingTransition { previous, current: self.recording_session, stop_reason: None }
    }

    /// Press push-to-talk at `now`.
    pub fn ptt_press_at(&mut self, now: u64) -> (r: Result<StateCommandResult, StateError>)
        requires
            old(self)@.wf(),
        ensures
            final(self)@.wf(),
            ptt_press_post(old(self)@, final(self)@, r, now),
    {
        self.enforce_cooldown(now)?;
        match self.state {
            DictationState::Idle => {
                self.state = DictationState::PushToTalkActive;
                let transition = self.begin_recording(RecordingMode::PushToTalk);
                Ok(StateCommandResult { message: "push-to-talk recording started", transition })
            },
            DictationState::PushToTalkActive => Ok(
                StateCommandResult {
                    message: "push-to-talk already active",
                    transition: RecordingTransition::unchanged(self.recording_session),
                },
            ),
            DictationState::ContinuousActive => Err(
                StateError::InvalidTransition(
                    "cannot press push-to-talk while continuous mode is active",
                ),
            ),
            DictationState::Processing => Ok(
                StateCommandResult {
                    message: "currently processing previous utterance",
                    transition: RecordingTransition::unchanged(self.recording_session),
                },
            ),
        }
    }

    /// Press push-to-talk now.
    pub fn ptt_press(&mut self) -> (r: Result<StateCommandResult, StateError>)
        requires
            old(self)@.wf(),
        ensures
            final(self)@.wf(),
            exists|now: u64| #[trigger] ptt_press_post(old(self)@, final(self)@, r, now),
    {
        let now = self.now_ns();
        self.ptt_press_at(now)
    }

    /// Release push-to-talk at `now`.
    pub fn ptt_release_at(&mut self, now: u64) -> (r: Result<StateCommandResult, StateError>)
        requires
            old(self)@.wf(),
        ensures
            final(self)@.wf(),
            ptt_release_post(old(self)@, final(self)@, r, now),
    {
        self.enforce_cooldown(now)?;
        match self.state {
            DictationState::PushToTalkActive => {
                let previous = self.recording_session;
                let session = match previous {
                    Some(s) => s,
                    None => {
                        assert(false);
                        return Err(StateError::RateLimitExceeded);
                    },
                };
                let stop_reason = if session.phase == RecordingPhase::Active {
                    RecordingStopReason::UserStop
                } else {
                    RecordingStopReason::CancelledBeforeCapture
                };
                let pending = if session.phase == RecordingPhase::Active {
                    let duration_ms = held_duration(self.ptt_started_at, now);
                    PendingPushToTalkCapture::Capture { session_id: session.id, duration_ms }
                } else {
                    PendingPushToTalkCapture::Cancelled { session_id: session.id }
                };
                self.pending_ptt_capture = Some(pending);
                self.recording_session = None;
                self.continuous_started_at = None;
                self.ptt_started_at = None;
                self.state = DictationState::Processing;
                Ok(
                    StateCommandResult {
                        message: "push-to-talk recording stopped; utterance queued",
                        transition: RecordingTransition {
                            previous,
                            current: None,
                            stop_reason: Some(stop_reason),
                        },
                    },
                )
            },
            DictationState::Idle => Ok(
                StateCommandResult {
                    message: "push-to-talk release ignored; idle",
                    transition: RecordingTransition::unchanged(self.recording_session),
                },
            ),
            DictationState::ContinuousActive => Err(
                StateError::InvalidTransition(
                    "cannot release push-to-talk while continuous mode is active",
                ),
            ),
            DictationState::Processing => Ok(
                StateCommandResult {
                    message: "utterance already processing",
                    transition: RecordingTransition::unchanged(self.recording_session),
                },
            ),
        }
    }

    /// Release push-to-talk now.
    pub fn ptt_release(&mut self) -> (r: Result<StateCommandResult, StateError>)
        requires
            old(self)@.wf(),
        ensures
            final(self)@.wf(),
            exists|now: u64| #[trigger] ptt_release_post(old(self)@, final(self)@, r, now),
    {
        let now = self.now_ns();
        self.ptt_release_at(now)
    }

    /// End the processing of a released utterance.
    pub fn finish_processing(&mut self)
        requires
            old(self)@.wf(),
        ensures
            final(self)@.wf(),
            final(self)@ == (StateMachineView {
                state: if old(self)@.state == DictationState::Processing {
                    DictationState::Idle
                } else {
                    old(self)@.state
                },
                pending_ptt_capture: None,
                ptt_started_at: None,
                ..old(self)@
            }),
    {
        if self.state == DictationState::Processing {
            self.state = DictationState::Idle;
        }
        self.pending_ptt_capture = None;
        self.ptt_started_at = None;
    }

    /// Toggle continuous mode at `now`.
    pub fn toggle_continuous_at(&mut self, now: u64) -> (r: Result<StateCommandResult, StateError>)
        requires
            old(self)@.wf(),
        ensures
            final(self)@.wf(),
            toggle_continuous_post(old(self)@, final(self)@, r, now),
    {
        self.enforce_cooldown(now)?;
        match self.state {
            DictationState::Idle => {
                self.state = DictationState::ContinuousActive;
                let transition = self.begin_recording(RecordingMode::Continuous);
                Ok(StateCommandResult { message: "continuous mode enabled", transition })
            },
            DictationState::ContinuousActive => {
                let previous = self.recording_session;
                let stop_reason = match previous {
                    Some(session) => Some(
                        if session.phase == RecordingPhase::Active {
                            RecordingStopReason::UserStop
                        } else {
                            RecordingStopReason::CancelledBeforeCapture
                        },
                    ),
                    None => None,
                };
                self.recording_session = None;
                self.continuous_started_at = None;
                self.ptt_started_at = None;
                self.state = DictationState::Idle;
                Ok(
                    StateCommandResult {
                        message: "continuous mode disabled",
                        transition: RecordingTransition { previous, current: None, stop_reason },
                    },
                )
            },
            DictationState::PushToTalkActive => Err(
                StateError::InvalidTransition(
                    "cannot toggle continuous mode while push-to-talk is active",
                ),
            ),
            DictationState::Processing => Err(
                StateError::InvalidTransition("cannot toggle continuous mode while processing"),
            ),
        }
    }

    /// Toggle continuous mode now.
    pub fn toggle_continuous(&mut self) -> (r: Result<StateCommandResult, StateError>)
        requires
            old(self)@.wf(),
        ensures
            final(self)@.wf(),
            exists|now: u64| #[trigger] toggle_continuous_post(old(self)@, final(self)@, r, now),
    {
        let now = self.now_ns();
        self.toggle_continuous_at(now)
    }

    fn prune_rate_window(&mut self, now: u64)
        ensures
            final(self)@ == pruned(old(self)@, now),
            final(self).clock == old(self).clock,
    {
        let ghost orig = self.requests_last_minute@;
        loop
            invariant
                prune(self.requests_last_minute@, now) == prune(orig, now),
                orig == old(self)@.requests,
                self@ == (StateMachineView { requests: self.requests_last_minute@, ..old(self)@ }),
                self.clock == old(self).clock,
            ensures
                self@ == pruned(old(self)@, now),
                self.clock == old(self).clock,
            decreases self.requests_last_minute@.len(),
        {
            if self.requests_last_minute.len() == 0 {
                assert(prune(self.requests_last_minute@, now) == self.requests_last_minute@);
                return;
            }
            let front = self.requests_last_minute[0];
            if !(front < now && now - front > RATE_WINDOW_NS) {
                assert(!is_stale(self.requests_last_minute@[0], now));
                assert(prune(self.requests_last_minute@, now) == self.requests_last_minute@);
                return;
            }
            let ghost before = self.requests_last_minute@;
            let _ = self.requests_last_minute.pop_front();
            assert(self.requests_last_minute@ =~= before.drop_first());
        }
    }

    fn continuous_limit_exceeded(&self, now: u64) -> (b: bool)
        ensures
            b == continuous_limit_exceeded(self@, now),
    {
        if self.state != DictationState::ContinuousActive {
            return false;
        }
        match self.recording_session {
            Some(s) => if s.phase != RecordingPhase::Active {
                return false;
            },
            None => {
                return false;
            },
        }
        match self.continuous_started_at {
            Some(started) => {
                if now <= started {
                    return false;
                }
                let elapsed = now - started;
                let minutes: u128 = self.guardrails.max_continuous_minutes as u128;
                let max: u128 = minutes * 60_000_000_000u128;
                (elapsed as u128) > max
            },
            None => false,
        }
    }

    fn cooldown_remaining_seconds(&self, now: u64) -> (s: u32)
        ensures
            s == cooldown_remaining(self@, now),
    {
        match self.cooldown_until {
            Some(until) => if now < until {
                ((until - now) / NANOS_PER_SECOND) as u32
            } else {
                0
            },
            None => 0,
        }
    }

    /// Report the status at `now`.
    pub fn status_at(&mut self, now: u64) -> (r: Result<StatusPayload, StateError>)
        requires
            old(self)@.wf(),
        ensures
            final(self)@.wf(),
            status_post(old(self)@, final(self)@, r, now),
    {
        let exceeded = self.continuous_limit_exceeded(now);
        self.prune_rate_window(now);
        proof {
            lemma_prune_len(old(self)@.requests, now);
        }
        if exceeded {
            return Err(StateError::ContinuousLimitExceeded);
        }
        Ok(
            StatusPayload {
                state: self.state,
                protocol_version: PROTOCOL_VERSION,
                cooldown_remaining_seconds: self.cooldown_remaining_seconds(now),
                requests_in_last_minute: self.requests_last_minute.len(),
                has_retained_transcript: self.last_transcript.is_some(),
                last_output_error_code: clone_opt_string(&self.last_output_error_code),
                last_audio_error_code: clone_opt_string(&self.last_audio_error_code),
            },
        )
    }

    /// Report the status now.
    pub fn status(&mut self) -> (r: Result<StatusPayload, StateError>)
        requires
            old(self)@.wf(),
        ensures
            final(self)@.wf(),
            exists|now: u64| #[trigger] status_post(old(self)@, final(self)@, r, now),
    {
        let now = self.now_ns();
        self.status_at(now)
    }

    /// Count a transcription request made at `now` against the guardrails.
    pub fn mark_transcription_request_at(&mut self, now: u64) -> (r: Result<(), StateError>)
        requires
            old(self)@.wf(),
        ensures
            final(self)@.wf(),
            mark_request_post(old(self)@, final(self)@, r, now),
    {
        self.enforce_cooldown(now)?;
        self.prune_rate_window(now);
        proof {
            lemma_prune_len(old(self)@.requests, now);
        }
        if self.requests_last_minute.len() >= self.guardrails.max_requests_per_minute as usize {
            return Err(StateError::RateLimitExceeded);
        }
        match self.guardrails.monthly_soft_spend_limit_micro_usd {
            Some(limit) => {
                if self.monthly_spend_micro_usd >= limit && !self.guardrails.allow_over_limit {
                    return Err(StateError::SoftSpendLimitReached);
                }
            },
            None => {},
        }
        self.requests_last_minute.push_back(now);
        Ok(())
    }

    /// Count a transcription request made now against the guardrails.
    pub fn mark_transcription_request(&mut self) -> (r: Result<(), StateError>)
        requires
            old(self)@.wf(),
        ensures
            final(self)@.wf(),
            exists|now: u64| #[trigger] mark_request_post(old(self)@, final(self)@, r, now),
    {
        let now = self.now_ns();
        self.mark_transcription_request_at(now)
    }

    /// Add `micro_usd` to the month's spend, which never goes below zero.
    pub fn add_soft_spend(&mut self, micro_usd: i64)
        requires
            old(self)@.wf(),
        ensures
            final(self)@.wf(),
            final(self)@ == (StateMachineView {
                monthly_spend_micro_usd: spend_after(old(self)@.monthly_spend_micro_usd, micro_usd),
                ..old(self)@
            }),
    {
        let sum: i128 = self.monthly_spend_micro_usd as i128 + micro_usd as i128;
        self.monthly_spend_micro_usd = if sum > i64::MAX as i128 {
            i64::MAX
        } else if sum < 0 {
            0
        } else {
            sum as i64
        };
    }

    fn stop_current_recording(&mut self, reason: RecordingStopReason) -> (r: Option<StoppedRecording>)
        ensures
            (final(self)@, r) == stop_current(old(self)@, reason),
            final(self).clock == old(self).clock,
    {
        match self.recording_session {
            Some(previous) => {
                self.recording_session = None;
                self.continuous_started_at = None;
                self.ptt_started_at = None;
                Some(StoppedRecording { session: previous, reason })
            },
            None => None,
        }
    }

    /// Start the provider cooldown at `now`, stopping any recording.
    pub fn set_provider_error_cooldown_at(&mut self, now: u64) -> (r: Option<StoppedRecording>)
        requires
            old(self)@.wf(),
        ensures
            final(self)@.wf(),
            cooldown_post(old(self)@, final(self)@, r, now),
    {
        let stopped = self.stop_current_recording(RecordingStopReason::ProviderCooldown);
        let delay = (self.guardrails.provider_error_cooldown_seconds as u64) * NANOS_PER_SECOND;
        self.cooldown_until = Some(now.saturating_add(delay));
        self.state = DictationState::Idle;
        self.pending_ptt_capture = None;
        stopped
    }

    /// Start the provider cooldown now, stopping any recording.
    pub fn set_provider_error_cooldown(&mut self) -> (r: Option<StoppedRecording>)
        requires
            old(self)@.wf(),
        ensures
            final(self)@.wf(),
            exists|now: u64| #[trigger] cooldown_post(old(self)@, final(self)@, r, now),
    {
        let now = self.now_ns();
        self.set_provider_error_cooldown_at(now)
    }

    /// Retain `transcript` for replay and clear the output error.
    pub fn set_last_transcript(&mut self, transcript: String)
        requires
            old(self)@.wf(),
        ensures
            final(self)@.wf(),
            final(self)@ == (StateMachineView {
                last_transcript: Some(transcript@),
                last_output_error_code: None,
                ..old(self)@
            }),
    {
        self.last_transcript = Some(transcript);
        self.last_output_error_code = None;
    }

    /// Retain `transcript` for replay with the output error `error_code`.
    pub fn set_last_transcript_with_error(&mut self, transcript: String, error_code: &str)
        requires
            old(self)@.wf(),
        ensures
            final(self)@.wf(),
            final(self)@ == (StateMachineView {
                last_transcript: Some(transcript@),
                last_output_error_code: Some(error_code@),
                ..old(self)@
            }),
    {
        self.last_transcript = Some(transcript);
        self.last_output_error_code = Some(error_code.to_string());
    }

    /// Take the retained transcript, leaving none.
    pub fn take_last_transcript(&mut self) -> (r: Option<String>)
        requires
            old(self)@.wf(),
        ensures
            final(self)@.wf(),
            opt_string_view(r) == old(self)@.last_transcript,
            final(self)@ == (StateMachineView { last_transcript: None, ..old(self)@ }),
    {
        self.last_transcript.take()
    }

    /// Retain `transcript` unless a transcript is already retained; whether it was.
    pub fn restore_last_transcript_if_absent(&mut self, transcript: String) -> (b: bool)
        requires
            old(self)@.wf(),
        ensures
            final(self)@.wf(),
            b == (old(self)@.last_transcript is None),
            b ==> final(self)@ == (StateMachineView {
                last_transcript: Some(transcript@),
                ..old(self)@
            }),
            !b ==> final(self)@ == old(self)@,
    {
        if self.last_transcript.is_some() {
            return false;
        }
        self.last_transcript = Some(transcript);
        true
    }

    /// Set the code of the last output error.
    pub fn set_last_output_error_code(&mut self, code: Option<String>)
        requires
            old(self)@.wf(),
        ensures
            final(self)@.wf(),
            final(self)@ == (StateMachineView {
                last_output_error_code: opt_string_view(code),
                ..old(self)@
            }),
    {
        self.last_output_error_code = code;
    }

    /// Set the code of the last audio input error.
    pub fn set_last_audio_error_code(&mut self, code: Option<String>)
        requires
            old(self)@.wf(),
        ensures
            final(self)@.wf(),
            final(self)@ == (StateMachineView {
                last_audio_error_code: opt_string_view(code),
                ..old(self)@
            }),
    {
        self.last_audio_error_code = code;
    }

    /// Whether an audio input error is recorded.
    pub fn has_last_audio_error_code(&self) -> (b: bool)
        ensures
            b == (self@.last_audio_error_code is Some),
    {
        self.last_audio_error_code.is_some()
    }

    /// Whether a transcript is retained.
    pub fn has_last_transcript(&self) -> (b: bool)
        ensures
            b == (self@.last_transcript is Some),
    {
        self.last_transcript.is_some()
    }

    /// The current dictation state.
    pub fn current_state(&self) -> (s: DictationState)
        ensures
            s == self@.state,
    {
        self.state
    }

    /// The current recording, if any.
    pub fn recording_session(&self) -> (s: Option<RecordingSession>)
        ensures
            s == self@.recording_session,
    {
        self.recording_session
    }

    /// Whether a recording has passed its capture gate.
    pub fn is_recording_active(&self) -> (b: bool)
        ensures
            b == (self@.recording_session matches Some(s) && s.phase == RecordingPhase::Active),
    {
        match self.recording_session {
            Some(session) => session.phase == RecordingPhase::Active,
            None => false,
        }
    }

    /// Open the capture gate of recording `session_id` at `now`.
    pub fn mark_capture_permitted_at(&mut self, session_id: u64, now: u64) -> (t: RecordingTransition)
        requires
            old(self)@.wf(),
        ensures
            final(self)@.wf(),
            capture_permitted_post(old(self)@, final(self)@, t, session_id, now),
    {
        let previous = self.recording_session;
        let mut session = match self.recording_session {
            Some(s) => s,
            None => {
                return RecordingTransition::unchanged(None);
            },
        };
        if session.id != session_id || session.phase != RecordingPhase::StartPending {
            return RecordingTransition::unchanged(self.recording_session);
        }
        session.phase = RecordingPhase::Active;
        self.recording_session = Some(session);
        match session.mode {
            RecordingMode::PushToTalk => {
                self.ptt_started_at = Some(now);
            },
            RecordingMode::Continuous => {
                self.continuous_started_at = Some(now);
            },
        }
        RecordingTransition { previous, current: self.recording_session, stop_reason: None }
    }

    /// Open the capture gate of recording `session_id` now.
    pub fn mark_capture_permitted(&mut self, session_id: u64) -> (t: RecordingTransition)
        requires
            old(self)@.wf(),
        ensures
            final(self)@.wf(),
            exists|now: u64| #[trigger] capture_permitted_post(old(self)@, final(self)@, t, session_id, now),
    {
        let now = self.now_ns();
        self.mark_capture_permitted_at(session_id, now)
    }

    /// Take the pending capture of recording `session_id`, if it is the pending one.
    pub fn take_pending_ptt_capture(&mut self, session_id: u64) -> (r: Option<PendingPushToTalkCapture>)
        requires
            old(self)@.wf(),
        ensures
            final(self)@.wf(),
            take_pending_post(old(self)@, final(self)@, r, session_id),
    {
        let matches_id = match self.pending_ptt_capture {
            Some(PendingPushToTalkCapture::Capture { session_id: pending_id, .. }) => pending_id
                == session_id,
            Some(PendingPushToTalkCapture::Cancelled { session_id: pending_id }) => pending_id
                == session_id,
            None => false,
        };
        if matches_id {
            self.pending_ptt_capture.take()
        } else {
            None
        }
    }

    /// Stop continuous recording if it has run past its limit at `now`.
    pub fn enforce_continuous_limit_at(&mut self, now: u64) -> (r: Option<StoppedRecording>)
        requires
            old(self)@.wf(),
        ensures
            final(self)@.wf(),
            continuous_limit_post(old(self)@, final(self)@, r, now),
    {
        if !self.continuous_limit_exceeded(now) {
            return None;
        }
        let stopped = self.stop_current_recording(RecordingStopReason::ContinuousLimitExceeded);
        self.state = DictationState::Idle;
        stopped
    }

    /// Stop continuous recording if it has run past its limit now.
    pub fn enforce_continuous_limit(&mut self) -> (r: Option<StoppedRecording>)
        requires
            old(self)@.wf(),
        ensures
            final(self)@.wf(),
            exists|now: u64| #[trigger] continuous_limit_post(old(self)@, final(self)@, r, now),
    {
        let now = self.now_ns();
        self.enforce_continuous_limit_at(now)
    }
}

} // verus!
