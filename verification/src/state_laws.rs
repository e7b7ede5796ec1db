//! Properties of the dictation state machine that span several operations.
//! Each is stated over the postconditions that the operations of
//! `state::StateMachine` guarantee.
use vstd::prelude::*;

use crate::protocol::{DictationState, StatusPayload, PROTOCOL_VERSION};
use crate::state::{
    continuous_limit_exceeded, continuous_limit_post, cooldown_active, cooldown_post,
    held_duration_ms, is_stale, mark_request_post, permitted_session, prune,
    ptt_press_post, ptt_release_post, started_session, status_post, stopped_by,
    pending_session_id, take_pending_post, toggle_continuous_post, capture_permitted_post, PendingPushToTalkCapture,
    opt_string_view, RecordingMode, RecordingPhase, RecordingSession, RecordingStopReason, RecordingTransition,
    StateCommandResult, StateError, StateMachineView, StoppedRecording, NANOS_PER_SECOND,
};

verus! {

/// Push-to-talk and continuous mode exclude each other: while push-to-talk
/// records, toggling continuous mode is refused, and while continuous mode
/// records, pressing or releasing push-to-talk is refused; a refused command
/// leaves the machine as it was.
pub proof fn law_modes_are_exclusive(
    pre: StateMachineView,
    post: StateMachineView,
    r: Result<StateCommandResult, StateError>,
    now: u64,
)
    requires
        pre.wf(),
    ensures
        pre.state == DictationState::PushToTalkActive && toggle_continuous_post(pre, post, r, now)
            ==> r is Err && post == pre,
        pre.state == DictationState::ContinuousActive && ptt_press_post(pre, post, r, now)
            ==> r is Err && post == pre,
        pre.state == DictationState::ContinuousActive && ptt_release_post(pre, post, r, now)
            ==> r is Err && post == pre,
{
}

/// A press from idle starts exactly one new push-to-talk recording whose
/// capture gate is still closed, with the next unused session id.
pub proof fn law_press_starts_pending_recording(
    pre: StateMachineView,
    post: StateMachineView,
    r: Result<StateCommandResult, StateError>,
    now: u64,
)
    requires
        pre.wf(),
        pre.state == DictationState::Idle,
        !cooldown_active(pre, now),
        ptt_press_post(pre, post, r, now),
    ensures
        r is Ok,
        started_session(r->Ok_0.transition) == post.recording_session,
        post.recording_session == Some(
            RecordingSession {
                id: pre.next_recording_session_id,
                mode: RecordingMode::PushToTalk,
                phase: RecordingPhase::StartPending,
            },
        ),
        post.state == DictationState::PushToTalkActive,
{
}

/// The capture gate of a recording opens once: the first opening reports
/// the opened session, and opening it again changes nothing.
pub proof fn law_capture_gate_opens_once(
    pre: StateMachineView,
    mid: StateMachineView,
    post: StateMachineView,
    t1: RecordingTransition,
    t2: RecordingTransition,
    id: u64,
    now1: u64,
    now2: u64,
)
    requires
        pre.wf(),
        pre.recording_session matches Some(s) && s.id == id && s.phase
            == RecordingPhase::StartPending,
        capture_permitted_post(pre, mid, t1, id, now1),
        capture_permitted_post(mid, post, t2, id, now2),
    ensures
        permitted_session(t1) == mid.recording_session,
        mid.recording_session->0.phase == RecordingPhase::Active,
        permitted_session(t2) is None,
        post == mid,
{
}

/// A press, an opened capture gate and a release queue exactly one pending
/// capture for the session: the first take returns it and a second take
/// returns nothing.
pub proof fn law_press_release_queues_one_capture(
    s0: StateMachineView,
    s1: StateMachineView,
    s2: StateMachineView,
    s3: StateMachineView,
    s4: StateMachineView,
    s5: StateMachineView,
    r1: Result<StateCommandResult, StateError>,
    t2: RecordingTransition,
    r3: Result<StateCommandResult, StateError>,
    p4: Option<PendingPushToTalkCapture>,
    p5: Option<PendingPushToTalkCapture>,
    now1: u64,
    now2: u64,
    now3: u64,
)
    requires
        s0.wf(),
        s0.state == DictationState::Idle,
        !cooldown_active(s0, now1),
        !cooldown_active(s0, now3),
        ptt_press_post(s0, s1, r1, now1),
        capture_permitted_post(s1, s2, t2, s0.next_recording_session_id, now2),
        ptt_release_post(s2, s3, r3, now3),
        take_pending_post(s3, s4, p4, s0.next_recording_session_id),
        take_pending_post(s4, s5, p5, s0.next_recording_session_id),
    ensures
        p4 == Some(
            PendingPushToTalkCapture::Capture {
                session_id: s0.next_recording_session_id,
                duration_ms: held_duration_ms(Some(now2), now3),
            },
        ),
        p5 is None,
        s3.state == DictationState::Processing,
        stopped_by(r3->Ok_0.transition) matches Some(st) && st.reason
            == RecordingStopReason::UserStop,
{
}

/// A release before the capture gate opens cancels the recording: the stop
/// is reported as cancelled before capture and the pending capture is a
/// cancel for the session.
pub proof fn law_release_before_gate_cancels(
    s0: StateMachineView,
    s1: StateMachineView,
    s2: StateMachineView,
    s3: StateMachineView,
    r1: Result<StateCommandResult, StateError>,
    r2: Result<StateCommandResult, StateError>,
    p3: Option<PendingPushToTalkCapture>,
    now1: u64,
    now2: u64,
)
    requires
        s0.wf(),
        s0.state == DictationState::Idle,
        !cooldown_active(s0, now1),
        !cooldown_active(s0, now2),
        ptt_press_post(s0, s1, r1, now1),
        ptt_release_post(s1, s2, r2, now2),
        take_pending_post(s2, s3, p3, s0.next_recording_session_id),
    ensures
        stopped_by(r2->Ok_0.transition) matches Some(st) && st.reason
            == RecordingStopReason::CancelledBeforeCapture && st.session.id
            == s0.next_recording_session_id,
        p3 == Some(
            PendingPushToTalkCapture::Cancelled { session_id: s0.next_recording_session_id },
        ),
{
}

/// After a provider failure at `now`, every command is refused with a
/// cooldown error and changes nothing until the configured cooldown has
/// elapsed; from then on the cooldown no longer refuses commands.
pub proof fn law_cooldown_blocks_until_elapsed(
    pre: StateMachineView,
    mid: StateMachineView,
    post: StateMachineView,
    stopped: Option<StoppedRecording>,
    r: Result<StateCommandResult, StateError>,
    m: Result<(), StateError>,
    now: u64,
    later: u64,
)
    requires
        pre.wf(),
        cooldown_post(pre, mid, stopped, now),
        now + pre.guardrails.provider_error_cooldown_seconds * NANOS_PER_SECOND <= u64::MAX,
    ensures
        mid.state == DictationState::Idle,
        mid.recording_session is None,
        later < now + pre.guardrails.provider_error_cooldown_seconds * NANOS_PER_SECOND ==> {
            &&& ptt_press_post(mid, post, r, later) ==> post == mid && (r matches Err(StateError::CooldownActive))
            &&& toggle_continuous_post(mid, post, r, later) ==> post == mid && (r matches Err(StateError::CooldownActive))
            &&& ptt_release_post(mid, post, r, later) ==> post == mid && (r matches Err(StateError::CooldownActive))
            &&& mark_request_post(mid, post, m, later) ==> post == mid && (m matches Err(StateError::CooldownActive))
        },
        later >= now + pre.guardrails.provider_error_cooldown_seconds * NANOS_PER_SECOND ==> {
            &&& !cooldown_active(mid, later)
            &&& ptt_press_post(mid, post, r, later) ==> r is Ok && post.state
                == DictationState::PushToTalkActive
        },
{
}

/// A request is admitted only while fewer than the configured maximum were
/// admitted in the last minute, and the window never holds more than that
/// maximum.
pub proof fn law_rate_window_is_bounded(
    pre: StateMachineView,
    post: StateMachineView,
    r: Result<(), StateError>,
    now: u64,
)
    requires
        pre.wf(),
        mark_request_post(pre, post, r, now),
    ensures
        post.requests.len() <= pre.guardrails.max_requests_per_minute,
        r is Ok ==> prune(pre.requests, now).len() < pre.guardrails.max_requests_per_minute
            && post.requests.last() == now && post.requests.len() == prune(pre.requests, now).len()
            + 1,
        !cooldown_active(pre, now) && prune(pre.requests, now).len()
            >= pre.guardrails.max_requests_per_minute ==> (r matches Err(StateError::RateLimitExceeded)),
{
    lemma_prune_len_le(pre.requests, now);
}

proof fn lemma_prune_len_le(reqs: Seq<u64>, now: u64)
    ensures
        prune(reqs, now).len() <= reqs.len(),
    decreases reqs.len(),
{
    if reqs.len() > 0 && is_stale(reqs[0], now) {
        lemma_prune_len_le(reqs.drop_first(), now);
    }
}

/// A status request reports without changing the recording: the state,
/// the recording and the pending capture stay, so a continuous-limit stop
/// that status reports is still there for the runtime to enforce.
pub proof fn law_status_does_not_consume_limit(
    pre: StateMachineView,
    post: StateMachineView,
    r: Result<crate::protocol::StatusPayload, StateError>,
    now: u64,
)
    requires
        pre.wf(),
        status_post(pre, post, r, now),
    ensures
        post.state == pre.state,
        post.recording_session == pre.recording_session,
        post.pending_ptt_capture == pre.pending_ptt_capture,
        continuous_limit_exceeded(pre, now) ==> r is Err && continuous_limit_exceeded(post, now),
{
}

/// Continuous recording that has been capturing for longer than the
/// configured number of minutes is stopped with that reason, and the
/// machine returns to idle; before that the limit changes nothing.
pub proof fn law_continuous_limit_stops_recording(
    pre: StateMachineView,
    post: StateMachineView,
    r: Option<StoppedRecording>,
    started: u64,
    now: u64,
)
    requires
        pre.wf(),
        pre.state == DictationState::ContinuousActive,
        pre.recording_session->0.phase == RecordingPhase::Active,
        pre.continuous_started_at == Some(started),
        continuous_limit_post(pre, post, r, now),
    ensures
        now - started > pre.guardrails.max_continuous_minutes * 60 * NANOS_PER_SECOND ==> {
            &&& r == Some(
                StoppedRecording {
                    session: pre.recording_session->0,
                    reason: RecordingStopReason::ContinuousLimitExceeded,
                },
            )
            &&& post.state == DictationState::Idle
            &&& post.recording_session is None
        },
        now - started <= pre.guardrails.max_continuous_minutes * 60 * NANOS_PER_SECOND ==> r is None
            && post == pre,
{
}

/// A press while the previous utterance is being processed changes
/// nothing: the machine keeps its state, its recording and the capture
/// that waits to be taken; outside a cooldown the press succeeds with the
/// message "currently processing previous utterance", and its transition
/// starts no recording.
pub proof fn law_press_while_processing_changes_nothing(
    pre: StateMachineView,
    post: StateMachineView,
    r: Result<StateCommandResult, StateError>,
    now: u64,
)
    requires
        pre.wf(),
        pre.state == DictationState::Processing,
        ptt_press_post(pre, post, r, now),
    ensures
        post == pre,
        post.state == DictationState::Processing,
        post.pending_ptt_capture == pre.pending_ptt_capture,
        !cooldown_active(pre, now) ==> r is Ok,
        r matches Ok(res) ==> res.message@ == "currently processing previous utterance"@
            && res.transition.previous == pre.recording_session && res.transition.current
            == pre.recording_session && res.transition.stop_reason is None && started_session(
            res.transition,
        ) is None,
        r is Err ==> r == Err::<StateCommandResult, StateError>(StateError::CooldownActive),
{
}

/// While a provider cooldown runs (until its deadline, exclusive), every
/// push-to-talk press or release and every continuous-mode toggle is refused
/// with the cooldown error and leaves the machine exactly as it was.
pub proof fn law_cooldown_refuses_recording_commands(
    pre: StateMachineView,
    post: StateMachineView,
    r: Result<StateCommandResult, StateError>,
    now: u64,
)
    requires
        pre.wf(),
        pre.cooldown_until matches Some(until) && now < until,
    ensures
        ptt_press_post(pre, post, r, now) ==> post == pre && r == Err::<
            StateCommandResult,
            StateError,
        >(StateError::CooldownActive),
        ptt_release_post(pre, post, r, now) ==> post == pre && r == Err::<
            StateCommandResult,
            StateError,
        >(StateError::CooldownActive),
        toggle_continuous_post(pre, post, r, now) ==> post == pre && r == Err::<
            StateCommandResult,
            StateError,
        >(StateError::CooldownActive),
{
}

/// Outside a cooldown, a command that does not apply in the current state
/// changes nothing and starts or stops no recording: a second press while
/// push-to-talk records is acknowledged ("push-to-talk already active"), a
/// release while idle is ignored ("push-to-talk release ignored; idle"), a
/// release while the utterance is processed is acknowledged ("utterance
/// already processing"), and toggling continuous mode while push-to-talk
/// records or while processing is refused as an invalid transition.
pub proof fn law_inapplicable_commands_change_nothing(
    pre: StateMachineView,
    post: StateMachineView,
    r: Result<StateCommandResult, StateError>,
    now: u64,
)
    requires
        pre.wf(),
        !(pre.cooldown_until matches Some(until) && now < until),
    ensures
        pre.state == DictationState::PushToTalkActive && ptt_press_post(pre, post, r, now) ==> (
        post == pre && (r matches Ok(res) && res.message@ == "push-to-talk already active"@
            && res.transition.previous == pre.recording_session && res.transition.current
            == pre.recording_session && res.transition.stop_reason is None)),
        pre.state == DictationState::Idle && ptt_release_post(pre, post, r, now) ==> (post == pre
            && (r matches Ok(res) && res.message@ == "push-to-talk release ignored; idle"@
            && res.transition.previous is None && res.transition.current is None
            && res.transition.stop_reason is None)),
        pre.state == DictationState::Processing && ptt_release_post(pre, post, r, now) ==> (post
            == pre && (r matches Ok(res) && res.message@ == "utterance already processing"@
            && res.transition.previous is None && res.transition.current is None
            && res.transition.stop_reason is None)),
        pre.state == DictationState::PushToTalkActive && toggle_continuous_post(pre, post, r, now)
            ==> (post == pre && (r matches Err(StateError::InvalidTransition(m)) && m@
            == "cannot toggle continuous mode while push-to-talk is active"@)),
        pre.state == DictationState::Processing && toggle_continuous_post(pre, post, r, now) ==> (
        post == pre && (r matches Err(StateError::InvalidTransition(m)) && m@
            == "cannot toggle continuous mode while processing"@)),
        pre.state == DictationState::ContinuousActive && ptt_press_post(pre, post, r, now) ==> (
        post == pre && (r matches Err(StateError::InvalidTransition(m)) && m@
            == "cannot press push-to-talk while continuous mode is active"@)),
        pre.state == DictationState::ContinuousActive && ptt_release_post(pre, post, r, now) ==> (
        post == pre && (r matches Err(StateError::InvalidTransition(m)) && m@
            == "cannot release push-to-talk while continuous mode is active"@)),
{
}

/// Outside a cooldown, releasing push-to-talk ends the recording and hands
/// the utterance on: the machine is processing, holds no recording, and
/// queues exactly one capture for the released session, a capture of the
/// time held where its gate had opened and a cancel where it had not; the
/// transition reports the stop of that session.
pub proof fn law_release_queues_the_released_session(
    pre: StateMachineView,
    post: StateMachineView,
    r: Result<StateCommandResult, StateError>,
    now: u64,
)
    requires
        pre.wf(),
        pre.state == DictationState::PushToTalkActive,
        !(pre.cooldown_until matches Some(until) && now < until),
        ptt_release_post(pre, post, r, now),
    ensures
        post.state == DictationState::Processing,
        post.recording_session is None,
        post.ptt_started_at is None,
        post.next_recording_session_id == pre.next_recording_session_id,
        post.requests == pre.requests,
        post.cooldown_until == pre.cooldown_until,
        ({
            let s = pre.recording_session->0;
            &&& s.phase == RecordingPhase::Active ==> post.pending_ptt_capture == Some(
                PendingPushToTalkCapture::Capture {
                    session_id: s.id,
                    duration_ms: held_duration_ms(pre.ptt_started_at, now),
                },
            )
            &&& s.phase != RecordingPhase::Active ==> post.pending_ptt_capture == Some(
                PendingPushToTalkCapture::Cancelled { session_id: s.id },
            )
            &&& (r matches Ok(res) && res.message@
                == "push-to-talk recording stopped; utterance queued"@
                && res.transition.previous == Some(s) && res.transition.current is None
                && res.transition.stop_reason == Some(
                if s.phase == RecordingPhase::Active {
                    RecordingStopReason::UserStop
                } else {
                    RecordingStopReason::CancelledBeforeCapture
                },
            ))
        }),
{
}

/// Outside a cooldown, toggling continuous mode from idle starts a
/// continuous recording with the next unused session id whose capture gate
/// is still closed, and toggling it again stops that recording and returns
/// to idle, leaving nothing queued.
pub proof fn law_toggle_starts_and_stops_continuous(
    pre: StateMachineView,
    post: StateMachineView,
    r: Result<StateCommandResult, StateError>,
    now: u64,
)
    requires
        pre.wf(),
        !(pre.cooldown_until matches Some(until) && now < until),
        toggle_continuous_post(pre, post, r, now),
    ensures
        pre.state == DictationState::Idle ==> (post.state == DictationState::ContinuousActive
            && post.recording_session == Some(
            RecordingSession {
                id: pre.next_recording_session_id,
                mode: RecordingMode::Continuous,
                phase: RecordingPhase::StartPending,
            },
        ) && post.pending_ptt_capture is None && (r matches Ok(res) && res.message@
            == "continuous mode enabled"@ && started_session(res.transition)
            == post.recording_session)),
        pre.state == DictationState::ContinuousActive ==> (post.state == DictationState::Idle
            && post.recording_session is None && post.continuous_started_at is None
            && post.pending_ptt_capture == pre.pending_ptt_capture && (r matches Ok(res)
            && res.message@ == "continuous mode disabled"@ && res.transition.previous
            == pre.recording_session && res.transition.current is None
            && res.transition.stop_reason is Some)),
{
}

/// The capture gate only opens for the recording it names while that
/// recording waits for it; naming another session, or a recording whose
/// gate is already open, changes nothing.
pub proof fn law_capture_gate_needs_its_own_pending_session(
    pre: StateMachineView,
    post: StateMachineView,
    t: RecordingTransition,
    id: u64,
    now: u64,
)
    requires
        pre.wf(),
        capture_permitted_post(pre, post, t, id, now),
    ensures
        !(pre.recording_session matches Some(s) && s.id == id && s.phase
            == RecordingPhase::StartPending) ==> post == pre && permitted_session(t) is None,
        (pre.recording_session matches Some(s) && s.id == id && s.phase
            == RecordingPhase::StartPending) ==> post.state == pre.state
            && post.recording_session == Some(RecordingSession { phase: RecordingPhase::Active, ..pre.recording_session->0 })
            && permitted_session(t) == post.recording_session,
{
}

/// A queued capture is only handed to the session it belongs to: asking
/// for another session returns nothing and keeps it queued.
pub proof fn law_pending_capture_goes_to_its_session(
    pre: StateMachineView,
    post: StateMachineView,
    r: Option<PendingPushToTalkCapture>,
    id: u64,
)
    requires
        pre.wf(),
        take_pending_post(pre, post, r, id),
    ensures
        (pre.pending_ptt_capture matches Some(p) && pending_session_id(p) == id) ==> r
            == pre.pending_ptt_capture && post.pending_ptt_capture is None && post.state
            == pre.state,
        !(pre.pending_ptt_capture matches Some(p) && pending_session_id(p) == id) ==> r is None
            && post == pre,
        r matches Some(p) ==> pending_session_id(p) == id,
{
}

/// Outside a cooldown and below the request rate, a transcription request
/// is refused for spend exactly when a monthly soft limit is set, the
/// month's spend has reached it, and going over the limit is not allowed;
/// an admitted request is recorded at `now` and changes nothing else.
pub proof fn law_soft_spend_limit_blocks_requests(
    pre: StateMachineView,
    post: StateMachineView,
    r: Result<(), StateError>,
    now: u64,
)
    requires
        pre.wf(),
        !(pre.cooldown_until matches Some(until) && now < until),
        prune(pre.requests, now).len() < pre.guardrails.max_requests_per_minute,
        mark_request_post(pre, post, r, now),
    ensures
        r == Err::<(), StateError>(StateError::SoftSpendLimitReached) <==> (
        pre.guardrails.monthly_soft_spend_limit_micro_usd matches Some(limit)
            && pre.monthly_spend_micro_usd >= limit && !pre.guardrails.allow_over_limit),
        r is Ok ==> post.requests == prune(pre.requests, now).push(now) && post.state == pre.state
            && post.recording_session == pre.recording_session && post.monthly_spend_micro_usd
            == pre.monthly_spend_micro_usd,
        r is Err ==> r == Err::<(), StateError>(StateError::SoftSpendLimitReached),
{
}

/// A provider failure starts a cooldown of the configured number of seconds
/// from `now` (saturating at the end of time) and drops the machine to
/// idle: any recording is stopped with the cooldown as its reason and
/// reported, and no capture stays queued.
pub proof fn law_provider_cooldown_stops_everything(
    pre: StateMachineView,
    post: StateMachineView,
    r: Option<StoppedRecording>,
    now: u64,
)
    requires
        pre.wf(),
        cooldown_post(pre, post, r, now),
    ensures
        post.state == DictationState::Idle,
        post.recording_session is None,
        post.pending_ptt_capture is None,
        now + pre.guardrails.provider_error_cooldown_seconds * 1_000_000_000 <= u64::MAX
            ==> post.cooldown_until == Some(
            (now + pre.guardrails.provider_error_cooldown_seconds * 1_000_000_000) as u64,
        ),
        now + pre.guardrails.provider_error_cooldown_seconds * 1_000_000_000 > u64::MAX
            ==> post.cooldown_until == Some(u64::MAX),
        pre.recording_session matches Some(s) ==> r == Some(
            StoppedRecording { session: s, reason: RecordingStopReason::ProviderCooldown },
        ),
        pre.recording_session is None ==> r is None,
        post.requests == pre.requests,
        post.next_recording_session_id == pre.next_recording_session_id,
{
}

/// A status report gives the machine's state, the protocol version, the
/// requests admitted in the last minute, whether a transcript is retained,
/// the last error codes, and the whole seconds of cooldown left (none once
/// it is over); where continuous recording ran past its limit, the report
/// is refused with that error instead.
pub proof fn law_status_reports_the_machine(
    pre: StateMachineView,
    post: StateMachineView,
    r: Result<StatusPayload, StateError>,
    now: u64,
)
    requires
        pre.wf(),
        status_post(pre, post, r, now),
    ensures
        continuous_limit_exceeded(pre, now) <==> r == Err::<StatusPayload, StateError>(
            StateError::ContinuousLimitExceeded,
        ),
        r matches Ok(s) ==> s.state == pre.state && s.protocol_version == PROTOCOL_VERSION
            && s.requests_in_last_minute == prune(pre.requests, now).len()
            && s.has_retained_transcript == (pre.last_transcript is Some)
            && opt_string_view(s.last_output_error_code) == pre.last_output_error_code
            && opt_string_view(s.last_audio_error_code) == pre.last_audio_error_code,
        r matches Ok(s) ==> ((pre.cooldown_until is Some && now < pre.cooldown_until->0)
            ==> s.cooldown_remaining_seconds == ((pre.cooldown_until->0 - now) / 1_000_000_000) as u32),
        r matches Ok(s) ==> (!(pre.cooldown_until matches Some(u) && now < u) ==> s.cooldown_remaining_seconds == 0),
{
}

} // verus!
