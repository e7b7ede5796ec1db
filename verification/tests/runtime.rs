use sttd::config::{GuardrailsConfig, InjectionConfig};
use sttd::injection::{InjectionAction, InjectionError, InjectionEvent, InjectionStage, Injector};
use sttd::ipc::{
    admit_request, begin_replay, execute_command_at, finish_replay, map_state_error,
    CommandOutcome, ReplayStart, RuntimeCommand,
};
use sttd::pipeline::{
    begin_utterance_at, capture_chunk_ms, capture_failed, finish_utterance, note_audio_available,
    note_audio_unavailable, output_failure_code, push_to_talk_stop_plan, record_output_failure,
    record_transcription_cost, tick_action, transcription_failed_at, worker_frame_samples,
    CaptureFailure, PushToTalkStop, TickAction, UtteranceSkip, UtteranceSource,
};
use sttd::audio::AudioCaptureError;
use sttd::protocol::{
    Command, DictationState, RequestEnvelope, Response, ResponseKind, ERR_PROTOCOL_VERSION,
};
use sttd::provider::ProviderError;
use sttd::state::{PendingPushToTalkCapture, RecordingStopReason, StateError, StateMachine};
use sttd::wav::wav_from_pcm16;

fn guardrails(max_requests: u32) -> GuardrailsConfig {
    GuardrailsConfig {
        max_requests_per_minute: max_requests,
        max_continuous_minutes: 30,
        provider_error_cooldown_seconds: 10,
        monthly_soft_spend_limit_micro_usd: None,
        estimated_request_cost_micro_usd: 0,
        allow_over_limit: false,
    }
}

fn injector(mode: &str) -> Injector {
    Injector::new(InjectionConfig {
        output_mode: mode.to_string(),
        clipboard_autopaste: false,
        wtype_cmd: "wtype".to_string(),
        wl_copy_cmd: "wl-copy".to_string(),
    })
}

#[test]
fn type_mode_falls_back_to_clipboard_when_wtype_is_unavailable() {
    let inj = injector("type");
    let (stage, action) = inj.step(InjectionStage::Start, InjectionEvent::Begin);
    assert_eq!(stage, InjectionStage::CheckingWtype);
    assert!(matches!(action, InjectionAction::CheckWtype));
    let (stage, action) = inj.step(stage, InjectionEvent::WtypeAvailable(false));
    assert_eq!(stage, InjectionStage::CheckingClipboard);
    assert!(matches!(action, InjectionAction::CheckClipboard));
    let (stage, action) = inj.step(stage, InjectionEvent::ClipboardAvailable(true));
    assert!(matches!(action, InjectionAction::CopyToClipboard));
    let (stage, action) = inj.step(stage, InjectionEvent::Copied(Ok(())));
    assert_eq!(stage, InjectionStage::Done);
    match action {
        InjectionAction::Finish(Ok(r)) => {
            assert_eq!(r.backend, "clipboard");
            assert!(!r.inserted);
            assert!(r.requires_manual_paste);
        }
        other => panic!("unexpected: {other:?}"),
    }
}

#[test]
fn no_backend_at_all_is_reported() {
    let inj = injector("type");
    let (stage, _) = inj.step(InjectionStage::Start, InjectionEvent::Begin);
    let (stage, _) = inj.step(stage, InjectionEvent::WtypeAvailable(false));
    let (_, action) = inj.step(stage, InjectionEvent::ClipboardAvailable(false));
    assert!(matches!(action, InjectionAction::Finish(Err(InjectionError::BackendUnavailable))));
}

#[test]
fn version_mismatch_is_refused() {
    let mut req = RequestEnvelope::new(Command::Status);
    assert_eq!(admit_request(&req).ok(), Some(Command::Status));
    req.protocol_version = 2;
    match admit_request(&req) {
        Err(reply) => match reply.result {
            ResponseKind::Failure(p) => {
                assert_eq!(p.code, ERR_PROTOCOL_VERSION);
                assert_eq!(p.message, "protocol mismatch: daemon=1, client=2");
                assert!(!p.retryable);
            }
            other => panic!("unexpected: {other:?}"),
        },
        Ok(c) => panic!("unexpected: {c:?}"),
    }
}

#[test]
fn guardrail_refusals_are_retryable_replies() {
    match map_state_error(StateError::RateLimitExceeded).result {
        ResponseKind::Failure(p) => {
            assert_eq!(p.code, "ERR_RATE_LIMIT");
            assert!(p.retryable);
        }
        other => panic!("unexpected: {other:?}"),
    }
    match map_state_error(StateError::InvalidTransition("nope")).result {
        ResponseKind::Failure(p) => {
            assert_eq!(p.code, "ERR_INVALID_TRANSITION");
            assert_eq!(p.message, "nope");
            assert!(!p.retryable);
        }
        other => panic!("unexpected: {other:?}"),
    }
}

#[test]
fn ipc_commands_emit_runtime_events() {
    let mut sm = StateMachine::new(guardrails(30));
    match execute_command_at(&mut sm, Command::PttPress, 0) {
        CommandOutcome::Reply { runtime, should_stop, .. } => {
            assert!(!should_stop);
            assert_eq!(runtime.len(), 1);
            assert!(matches!(runtime[0], RuntimeCommand::StartRequested(_)));
        }
        other => panic!("unexpected: {other:?}"),
    }
    match execute_command_at(&mut sm, Command::Shutdown, 0) {
        CommandOutcome::Reply { should_stop, .. } => assert!(should_stop),
        other => panic!("unexpected: {other:?}"),
    }
    match execute_command_at(&mut sm, Command::Status, 0) {
        CommandOutcome::Reply { response, .. } => match response.result {
            ResponseKind::Success(Response::Status(s)) => {
                assert_eq!(s.state, DictationState::PushToTalkActive)
            }
            other => panic!("unexpected: {other:?}"),
        },
        other => panic!("unexpected: {other:?}"),
    }
}

#[test]
fn replay_without_handler_preserves_retained_transcript_when_idle() {
    let mut sm = StateMachine::new(guardrails(30));
    sm.set_last_transcript("keep me".to_string());
    match begin_replay(&mut sm, false) {
        ReplayStart::Reply(r) => match r.result {
            ResponseKind::Failure(p) => assert_eq!(p.code, "ERR_REPLAY_HANDLER_UNAVAILABLE"),
            other => panic!("unexpected: {other:?}"),
        },
        other => panic!("unexpected: {other:?}"),
    }
    assert!(sm.has_last_transcript());
}

#[test]
fn failed_replay_keeps_the_transcript_for_another_try() {
    let mut sm = StateMachine::new(guardrails(30));
    sm.set_last_transcript("again".to_string());
    let t = match begin_replay(&mut sm, true) {
        ReplayStart::Replay(t) => t,
        other => panic!("unexpected: {other:?}"),
    };
    assert_eq!(t, "again");
    assert!(!sm.has_last_transcript());
    let _ = finish_replay(&mut sm, t, Err(InjectionError::BackendUnavailable));
    assert!(sm.has_last_transcript());
    let status = sm.status_at(0).expect("status");
    assert_eq!(status.last_output_error_code.as_deref(), Some("ERR_OUTPUT_BACKEND_UNAVAILABLE"));
}

#[test]
fn empty_push_to_talk_utterance_ends_processing() {
    let mut sm = StateMachine::new(guardrails(30));
    let press = sm.ptt_press_at(0).expect("press");
    let session = press.transition.start_requested().expect("session");
    sm.mark_capture_permitted_at(session.id, 0);
    sm.ptt_release_at(200_000_000).expect("release");
    assert_eq!(sm.current_state(), DictationState::Processing);
    let r = begin_utterance_at(&mut sm, 0, UtteranceSource::PushToTalk, 300_000_000);
    assert!(matches!(r, Err(UtteranceSkip::Empty)));
    assert_eq!(sm.current_state(), DictationState::Idle);
}

#[test]
fn guardrail_refusal_skips_the_utterance() {
    let mut sm = StateMachine::new(guardrails(1));
    assert!(begin_utterance_at(&mut sm, 10, UtteranceSource::Continuous, 0).is_ok());
    let r = begin_utterance_at(&mut sm, 10, UtteranceSource::Continuous, 1);
    assert!(matches!(r, Err(UtteranceSkip::Blocked(StateError::RateLimitExceeded))));
}

#[test]
fn transient_provider_failure_starts_cooldown_and_stops_recording() {
    let mut sm = StateMachine::new(guardrails(30));
    let enable = sm.toggle_continuous_at(0).expect("enable");
    let session = enable.transition.start_requested().expect("session");
    sm.mark_capture_permitted_at(session.id, 0);
    assert!(transcription_failed_at(&mut sm, &ProviderError::Auth, 1).is_none());
    assert_eq!(sm.current_state(), DictationState::ContinuousActive);
    let stopped = transcription_failed_at(&mut sm, &ProviderError::RateLimited, 2).expect("stops");
    assert_eq!(stopped.session.id, session.id);
    assert_eq!(stopped.reason, RecordingStopReason::ProviderCooldown);
    assert!(matches!(sm.ptt_press_at(3), Err(StateError::CooldownActive)));
}

#[test]
fn output_failure_retains_transcript_with_its_code() {
    let mut sm = StateMachine::new(guardrails(30));
    let err = InjectionError::BackendFailed { backend: "wtype", message: "x".to_string() };
    assert_eq!(output_failure_code(&err), "ERR_OUTPUT_BACKEND_FAILED");
    record_output_failure(&mut sm, "hello", &err);
    let status = sm.status_at(0).expect("status");
    assert!(status.has_retained_transcript);
    assert_eq!(status.last_output_error_code.as_deref(), Some("ERR_OUTPUT_BACKEND_FAILED"));
    assert_eq!(sm.take_last_transcript().as_deref(), Some("hello"));
}

#[test]
fn spend_is_recorded_only_for_positive_costs() {
    let mut sm = StateMachine::new(GuardrailsConfig {
        monthly_soft_spend_limit_micro_usd: Some(2),
        ..guardrails(30)
    });
    record_transcription_cost(&mut sm, 0);
    record_transcription_cost(&mut sm, -5);
    assert!(begin_utterance_at(&mut sm, 1, UtteranceSource::Continuous, 0).is_ok());
    record_transcription_cost(&mut sm, 2);
    let r = begin_utterance_at(&mut sm, 1, UtteranceSource::Continuous, 1);
    assert!(matches!(r, Err(UtteranceSkip::Blocked(StateError::SoftSpendLimitReached))));
}

#[test]
fn audio_unavailability_is_noted_once_until_recovered() {
    let mut sm = StateMachine::new(guardrails(30));
    assert!(note_audio_unavailable(&mut sm));
    assert!(!note_audio_unavailable(&mut sm));
    note_audio_available(&mut sm);
    assert!(note_audio_unavailable(&mut sm));
}

#[test]
fn device_failures_drop_the_cached_device_and_other_failures_keep_it() {
    let mut sm = StateMachine::new(guardrails(30));
    assert_eq!(
        capture_failed(&mut sm, &AudioCaptureError::BuildStream("busy".to_string())),
        CaptureFailure::Other
    );
    assert!(!sm.has_last_audio_error_code());
    assert_eq!(
        capture_failed(&mut sm, &AudioCaptureError::InputDeviceNotFound("usb".to_string())),
        CaptureFailure::InputUnavailable { first: true }
    );
    assert_eq!(
        capture_failed(&mut sm, &AudioCaptureError::NoInputDevice),
        CaptureFailure::InputUnavailable { first: false }
    );
    assert_eq!(
        capture_failed(&mut sm, &AudioCaptureError::NoSamples),
        CaptureFailure::Other
    );
    note_audio_available(&mut sm);
    assert_eq!(
        capture_failed(&mut sm, &AudioCaptureError::Enumerate("x".to_string())),
        CaptureFailure::InputUnavailable { first: true }
    );
}

#[test]
fn tick_follows_the_recording_mode() {
    let mut sm = StateMachine::new(guardrails(30));
    assert_eq!(tick_action(&sm), TickAction::Idle);
    let press = sm.ptt_press_at(0).expect("press");
    let session = press.transition.start_requested().expect("session");
    assert_eq!(tick_action(&sm), TickAction::Idle, "gate not yet open");
    sm.mark_capture_permitted_at(session.id, 0);
    assert_eq!(tick_action(&sm), TickAction::CapturePushToTalkChunk);
    sm.ptt_release_at(1).expect("release");
    finish_utterance(&mut sm, UtteranceSource::PushToTalk);
    let enable = sm.toggle_continuous_at(2).expect("enable");
    let session = enable.transition.start_requested().expect("session");
    sm.mark_capture_permitted_at(session.id, 2);
    assert_eq!(tick_action(&sm), TickAction::ContinuousCycle);
}

#[test]
fn push_to_talk_stop_uses_buffer_or_captures() {
    assert_eq!(push_to_talk_stop_plan(None, 5), PushToTalkStop::Nothing);
    assert_eq!(
        push_to_talk_stop_plan(Some(PendingPushToTalkCapture::Cancelled { session_id: 1 }), 0),
        PushToTalkStop::Cancelled
    );
    let capture = Some(PendingPushToTalkCapture::Capture { session_id: 1, duration_ms: 480 });
    assert_eq!(push_to_talk_stop_plan(capture, 0), PushToTalkStop::Capture { duration_ms: 480 });
    assert_eq!(push_to_talk_stop_plan(capture, 3), PushToTalkStop::UseBuffer);
}

#[test]
fn worker_frame_sizes() {
    assert_eq!(worker_frame_samples(20), 320);
    assert_eq!(worker_frame_samples(0), 1);
    assert_eq!(capture_chunk_ms(20), 200);
}

#[test]
fn wav_header_and_samples() {
    let wav = wav_from_pcm16(&[1, -2], 16_000);
    assert_eq!(wav.len(), 48);
    assert_eq!(&wav[0..4], b"RIFF");
    assert_eq!(&wav[4..8], &40u32.to_le_bytes());
    assert_eq!(&wav[8..16], b"WAVEfmt ");
    assert_eq!(&wav[24..28], &16_000u32.to_le_bytes());
    assert_eq!(&wav[28..32], &32_000u32.to_le_bytes());
    assert_eq!(&wav[36..40], b"data");
    assert_eq!(&wav[40..44], &4u32.to_le_bytes());
    assert_eq!(&wav[44..48], &[1, 0, 0xfe, 0xff]);
}
