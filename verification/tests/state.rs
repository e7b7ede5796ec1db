use sttd::config::GuardrailsConfig;
use sttd::protocol::DictationState;
use sttd::state::{
    PendingPushToTalkCapture, RecordingMode, RecordingPhase, RecordingStopReason, StateError,
    StateMachine,
};

const MS: u64 = 1_000_000;

fn guardrails() -> GuardrailsConfig {
    GuardrailsConfig {
        max_requests_per_minute: 2,
        max_continuous_minutes: 30,
        provider_error_cooldown_seconds: 1,
        monthly_soft_spend_limit_micro_usd: Some(1_000_000),
        estimated_request_cost_micro_usd: 0,
        allow_over_limit: false,
    }
}

fn no_continuous_minutes() -> GuardrailsConfig {
    GuardrailsConfig {
        max_requests_per_minute: 30,
        max_continuous_minutes: 0,
        provider_error_cooldown_seconds: 1,
        monthly_soft_spend_limit_micro_usd: None,
        estimated_request_cost_micro_usd: 0,
        allow_over_limit: false,
    }
}

#[test]
fn transitions_idle_ptt_processing_idle() {
    let mut sm = StateMachine::new(guardrails());
    assert_eq!(sm.current_state(), DictationState::Idle);
    let press = sm.ptt_press().expect("press works");
    let session = press.transition.start_requested().expect("session started");
    assert_eq!(session.mode, RecordingMode::PushToTalk);
    assert_eq!(session.phase, RecordingPhase::StartPending);
    let gate = sm.mark_capture_permitted(session.id);
    assert!(gate.capture_permitted().is_some());
    assert!(sm.is_recording_active());
    sm.ptt_release().expect("release works");
    assert_eq!(sm.current_state(), DictationState::Processing);
    sm.finish_processing();
    assert_eq!(sm.current_state(), DictationState::Idle);
}

#[test]
fn toggle_continuous_is_idempotent() {
    let mut sm = StateMachine::new(guardrails());
    let enable = sm.toggle_continuous().expect("enable");
    let session = enable.transition.start_requested().expect("continuous start");
    assert_eq!(session.mode, RecordingMode::Continuous);
    let gate = sm.mark_capture_permitted(session.id);
    assert!(gate.capture_permitted().is_some());
    assert_eq!(sm.current_state(), DictationState::ContinuousActive);
    let disable = sm.toggle_continuous().expect("disable");
    let stopped = disable.transition.stopped_recording().expect("continuous stop");
    assert_eq!(stopped.reason, RecordingStopReason::UserStop);
    assert_eq!(sm.current_state(), DictationState::Idle);
}

#[test]
fn rate_limit_is_enforced() {
    let mut sm = StateMachine::new(guardrails());
    sm.mark_transcription_request().expect("first");
    sm.mark_transcription_request().expect("second");
    let err = sm.mark_transcription_request().expect_err("third should fail");
    assert!(matches!(err, StateError::RateLimitExceeded));
}

#[test]
fn retained_transcript_error_is_reported_and_can_be_cleared() {
    let mut sm = StateMachine::new(guardrails());
    sm.set_last_transcript_with_error("retry me".to_string(), "ERR_OUTPUT_BACKEND_UNAVAILABLE");

    let status = sm.status().expect("status should succeed");
    assert!(status.has_retained_transcript);
    assert_eq!(
        status.last_output_error_code.as_deref(),
        Some("ERR_OUTPUT_BACKEND_UNAVAILABLE")
    );
    assert!(status.last_audio_error_code.is_none());

    let retained = sm.take_last_transcript();
    assert_eq!(retained.as_deref(), Some("retry me"));
    sm.set_last_output_error_code(None);

    let status = sm.status().expect("status should succeed");
    assert!(!status.has_retained_transcript);
    assert!(status.last_output_error_code.is_none());
    assert!(status.last_audio_error_code.is_none());
}

#[test]
fn audio_capture_error_status_is_reported_and_can_be_cleared() {
    let mut sm = StateMachine::new(guardrails());
    sm.set_last_audio_error_code(Some("ERR_AUDIO_INPUT_UNAVAILABLE".to_string()));

    let status = sm.status().expect("status should succeed");
    assert_eq!(status.last_audio_error_code.as_deref(), Some("ERR_AUDIO_INPUT_UNAVAILABLE"));

    sm.set_last_audio_error_code(None);
    let status = sm.status().expect("status should succeed");
    assert!(status.last_audio_error_code.is_none());
}

#[test]
fn ptt_release_before_gate_open_becomes_cancelled_capture() {
    let mut sm = StateMachine::new(guardrails());
    let press = sm.ptt_press().expect("press works");
    let session = press.transition.start_requested().expect("session started");

    let release = sm.ptt_release().expect("release works");
    let stopped = release.transition.stopped_recording().expect("stop transition");
    assert_eq!(stopped.reason, RecordingStopReason::CancelledBeforeCapture);
    assert_eq!(
        sm.take_pending_ptt_capture(session.id),
        Some(PendingPushToTalkCapture::Cancelled { session_id: session.id })
    );
}

#[test]
fn provider_cooldown_returns_runtime_stop_when_continuous_is_active() {
    let mut sm = StateMachine::new(guardrails());
    let enable = sm.toggle_continuous().expect("enable");
    let session = enable.transition.start_requested().expect("continuous start");
    sm.mark_capture_permitted(session.id);

    let stopped = sm.set_provider_error_cooldown().expect("runtime stop should be returned");
    assert_eq!(stopped.session.id, session.id);
    assert_eq!(stopped.reason, RecordingStopReason::ProviderCooldown);
    assert_eq!(sm.current_state(), DictationState::Idle);
}

#[test]
fn state_continuous_limit_violation_reports_reason_and_resets_state() {
    let mut sm = StateMachine::new(no_continuous_minutes());

    let enable = sm.toggle_continuous_at(0).expect("continuous should enable from idle");
    let session = enable.transition.start_requested().expect("continuous start");
    sm.mark_capture_permitted_at(session.id, 0);

    let stopped = sm
        .enforce_continuous_limit_at(5 * MS)
        .expect("continuous limit should be enforced");
    assert_eq!(stopped.session.id, session.id);
    assert_eq!(stopped.reason, RecordingStopReason::ContinuousLimitExceeded);
    assert_eq!(
        sm.current_state(),
        DictationState::Idle,
        "state should reset to idle after continuous limit violation"
    );
}

#[test]
fn status_does_not_consume_continuous_limit_stop_transition() {
    let mut sm = StateMachine::new(no_continuous_minutes());

    let enable = sm.toggle_continuous_at(0).expect("continuous enable");
    let session = enable.transition.start_requested().expect("session");
    sm.mark_capture_permitted_at(session.id, 0);

    let err = sm.status_at(5 * MS).expect_err("status should report the limit");
    assert!(matches!(err, StateError::ContinuousLimitExceeded));
    assert_eq!(
        sm.current_state(),
        DictationState::ContinuousActive,
        "status should not consume the worker-owned stop transition"
    );

    let stopped = sm
        .enforce_continuous_limit_at(5 * MS)
        .expect("worker should still be able to consume the stop");
    assert_eq!(stopped.session.id, session.id);
}

#[test]
fn cooldown_lifts_after_the_configured_seconds() {
    let mut sm = StateMachine::new(guardrails());
    assert!(sm.set_provider_error_cooldown_at(0).is_none());
    let err = sm.ptt_press_at(999 * MS).expect_err("still cooling down");
    assert!(matches!(err, StateError::CooldownActive));
    let status = sm.status_at(0).expect("status works during cooldown");
    assert_eq!(status.cooldown_remaining_seconds, 1);
    let status = sm.status_at(500 * MS).expect("status works during cooldown");
    assert_eq!(status.cooldown_remaining_seconds, 0);
    sm.ptt_press_at(1_000 * MS).expect("cooldown over");
}

#[test]
fn rate_window_forgets_requests_older_than_a_minute() {
    let mut sm = StateMachine::new(guardrails());
    sm.mark_transcription_request_at(0).expect("first");
    sm.mark_transcription_request_at(1_000 * MS).expect("second");
    assert!(matches!(
        sm.mark_transcription_request_at(2_000 * MS),
        Err(StateError::RateLimitExceeded)
    ));
    sm.mark_transcription_request_at(60_001 * MS).expect("first request has aged out");
}

#[test]
fn soft_spend_never_goes_negative() {
    let mut sm = StateMachine::new(guardrails());
    sm.add_soft_spend(-5_000_000);
    sm.add_soft_spend(999_999);
    sm.mark_transcription_request().expect("below the limit");
    sm.add_soft_spend(1);
    assert!(matches!(
        sm.mark_transcription_request(),
        Err(StateError::SoftSpendLimitReached)
    ));
}

#[test]
fn transitions_report_whether_anything_changed() {
    let mut sm = StateMachine::new(guardrails());
    let press = sm.ptt_press_at(0).expect("press");
    assert!(press.transition.has_changed());
    let session = press.transition.start_requested().expect("session");
    let first = sm.mark_capture_permitted_at(session.id, 0);
    assert!(first.has_changed());
    let again = sm.mark_capture_permitted_at(session.id, 1);
    assert!(!again.has_changed());
    assert!(again.capture_permitted().is_none());
}
