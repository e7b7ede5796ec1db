//! The decisions of the runtime worker: what a tick does, what a released
//! push-to-talk recording needs, and the bookkeeping around one utterance
//! (the guardrail gate, a failed transcription, the spend, a failed
//! output). Capturing audio, calling the provider and typing the transcript
//! are the work of the program around the library, which hands each
//! outcome back to these functions.
use vstd::prelude::*;

use crate::audio::{AudioCaptureError, TARGET_SAMPLE_RATE};
use crate::injection::InjectionError;
use crate::protocol::{
    DictationState, ERR_AUDIO_INPUT_UNAVAILABLE, ERR_OUTPUT_BACKEND_FAILED,
    ERR_OUTPUT_BACKEND_UNAVAILABLE,
};
use crate::provider::{retryable, ProviderError};
use crate::state::{
    cooldown_post, mark_request_post, PendingPushToTalkCapture, RecordingPhase, StateError,
    StateMachine, StateMachineView, StoppedRecording,
};

verus! {

/// Where an utterance came from.
#[derive(Debug, Clone, Copy, PartialEq, Eq, Structural)]
pub enum UtteranceSource {
    PushToTalk,
    Continuous,
}

/// Why an utterance is not transcribed.
#[derive(Debug, Clone)]
pub enum UtteranceSkip {
    /// No samples were captured.
    Empty,
    /// The guardrails refused the request.
    Blocked(StateError),
}

/// The state after a push-to-talk utterance ends; other utterances leave it.
pub open spec fn finished(v: StateMachineView, source: UtteranceSource) -> StateMachineView {
    if source == UtteranceSource::PushToTalk {
        StateMachineView {
            state: if v.state == DictationState::Processing {
                DictationState::Idle
            } else {
                v.state
            },
            pending_ptt_capture: None,
            ptt_started_at: None,
            ..v
        }
    } else {
        v
    }
}

/// However a push-to-talk utterance ends (empty, refused, failed or
/// output), its end leaves the machine out of processing with no capture
/// pending, and changes nothing else.
pub proof fn law_push_to_talk_processing_always_ends(v: StateMachineView)
    requires
        v.wf(),
    ensures
        finished(v, UtteranceSource::PushToTalk).state != DictationState::Processing,
        finished(v, UtteranceSource::PushToTalk).pending_ptt_capture is None,
        finished(v, UtteranceSource::PushToTalk).recording_session == v.recording_session,
        finished(v, UtteranceSource::PushToTalk).last_transcript == v.last_transcript,
        finished(v, UtteranceSource::Continuous) == v,
{
}

/// End the processing of an utterance from `source`: a push-to-talk
/// utterance returns the machine from processing to idle.
pub fn finish_utterance(state: &mut StateMachine, source: UtteranceSource)
    requires
        old(state)@.wf(),
    ensures
        final(state)@.wf(),
        final(state)@ == finished(old(state)@, source),
{
    if source == UtteranceSource::PushToTalk {
        state.finish_processing();
    }
}

/// Start an utterance of `sample_count` samples from `source` at `now`:
/// an empty one is skipped, and so is one that the guardrails refuse; a
/// skipped push-to-talk utterance ends its processing.
pub fn begin_utterance_at(
    state: &mut StateMachine,
    sample_count: usize,
    source: UtteranceSource,
    now: u64,
) -> (r: Result<(), UtteranceSkip>)
    requires
        old(state)@.wf(),
    ensures
        final(state)@.wf(),
        sample_count == 0 ==> (r matches Err(UtteranceSkip::Empty)) && final(state)@ == finished(
            old(state)@,
            source,
        ),
        sample_count > 0 ==> exists|mid: StateMachineView, gate: Result<(), StateError>|
            #[trigger] mark_request_post(old(state)@, mid, gate, now) && match gate {
                Ok(()) => r is Ok && final(state)@ == mid,
                Err(e) => (r matches Err(UtteranceSkip::Blocked(x)) && x == e) && final(state)@
                    == finished(mid, source),
            },
{
    if sample_count == 0 {
        finish_utterance(state, source);
        return Err(UtteranceSkip::Empty);
    }
    let ghost pre = state@;
    let gate = state.mark_transcription_request_at(now);
    let ghost mid = state@;
    match gate {
        Ok(()) => {
            assert(mark_request_post(pre, mid, gate, now));
            Ok(())
        },
        Err(e) => {
            finish_utterance(state, source);
            assert(mark_request_post(pre, mid, gate, now));
            Err(UtteranceSkip::Blocked(e))
        },
    }
}

/// Start an utterance of `sample_count` samples from `source` now.
pub fn begin_utterance(state: &mut StateMachine, sample_count: usize, source: UtteranceSource) -> (r:
    Result<(), UtteranceSkip>)
    requires
        old(state)@.wf(),
    ensures
        final(state)@.wf(),
        sample_count == 0 ==> (r matches Err(UtteranceSkip::Empty)) && final(state)@ == finished(
            old(state)@,
            source,
        ),
        sample_count > 0 ==> exists|now: u64, mid: StateMachineView, gate: Result<(), StateError>|
            #[trigger] mark_request_post(old(state)@, mid, gate, now) && match gate {
                Ok(()) => r is Ok && final(state)@ == mid,
                Err(e) => (r matches Err(UtteranceSkip::Blocked(x)) && x == e) && final(state)@
                    == finished(mid, source),
            },
{
    let now = state.now_ns();
    begin_utterance_at(state, sample_count, source, now)
}

/// A transcription failed with `err` at `now`: an error worth a retry
/// starts the provider cooldown, which stops any recording; the stopped
/// recording is returned so that its players can be resumed.
pub fn transcription_failed_at(state: &mut StateMachine, err: &ProviderError, now: u64) -> (r: Option<
    StoppedRecording,
>)
    requires
        old(state)@.wf(),
    ensures
        final(state)@.wf(),
        retryable(*err) ==> cooldown_post(old(state)@, final(state)@, r, now),
        !retryable(*err) ==> r is None && final(state)@ == old(state)@,
{
    if err.is_retryable() {
        state.set_provider_error_cooldown_at(now)
    } else {
        None
    }
}

/// A transcription failed with `err` now.
pub fn transcription_failed(state: &mut StateMachine, err: &ProviderError) -> (r: Option<
    StoppedRecording,
>)
    requires
        old(state)@.wf(),
    ensures
        final(state)@.wf(),
        !retryable(*err) ==> r is None && final(state)@ == old(state)@,
        retryable(*err) ==> exists|now: u64| #[trigger]
            cooldown_post(old(state)@, final(state)@, r, now),
{
    let now = state.now_ns();
    transcription_failed_at(state, err, now)
}

/// A transcription succeeded: its estimated cost, where positive, is added
/// to the month's spend.
pub fn record_transcription_cost(state: &mut StateMachine, estimated_micro_usd: i64)
    requires
        old(state)@.wf(),
    ensures
        final(state)@.wf(),
        estimated_micro_usd > 0 ==> final(state)@ == (StateMachineView {
            monthly_spend_micro_usd: crate::state::spend_after(
                old(state)@.monthly_spend_micro_usd,
                estimated_micro_usd,
            ),
            ..old(state)@
        }),
        estimated_micro_usd <= 0 ==> final(state)@ == old(state)@,
{
    if estimated_micro_usd > 0 {
        state.add_soft_spend(estimated_micro_usd);
    }
}

/// The error code of an output failure.
pub open spec fn output_error_code(err: InjectionError) -> Seq<char> {
    match err {
        InjectionError::BackendUnavailable => ERR_OUTPUT_BACKEND_UNAVAILABLE@,
        InjectionError::BackendFailed { .. } => ERR_OUTPUT_BACKEND_FAILED@,
    }
}

/// The error code of an output failure.
pub fn output_failure_code(err: &InjectionError) -> (code: &'static str)
    ensures
        code@ == output_error_code(*err),
{
    match err {
        InjectionError::BackendUnavailable => ERR_OUTPUT_BACKEND_UNAVAILABLE,
        InjectionError::BackendFailed { .. } => ERR_OUTPUT_BACKEND_FAILED,
    }
}

/// The transcript could not be output: it is retained for replay with the
/// failure's error code.
pub fn record_output_failure(state: &mut StateMachine, transcript: &str, err: &InjectionError)
    requires
        old(state)@.wf(),
    ensures
        final(state)@.wf(),
        final(state)@ == (StateMachineView {
            last_transcript: Some(transcript@),
            last_output_error_code: Some(output_error_code(*err)),
            ..old(state)@
        }),
{
    let code = output_failure_code(err);
    state.set_last_transcript_with_error(transcript.to_string(), code);
}

/// The audio input could not be opened or read: the audio error is
/// recorded; whether it is the first in a row.
pub fn note_audio_unavailable(state: &mut StateMachine) -> (first: bool)
    requires
        old(state)@.wf(),
    ensures
        final(state)@.wf(),
        first == (old(state)@.last_audio_error_code is None),
        final(state)@ == (StateMachineView {
            last_audio_error_code: Some(ERR_AUDIO_INPUT_UNAVAILABLE@),
            ..old(state)@
        }),
{
    let first = !state.has_last_audio_error_code();
    state.set_last_audio_error_code(Some(ERR_AUDIO_INPUT_UNAVAILABLE.to_string()));
    first
}

/// The audio input works again: the audio error is cleared.
pub fn note_audio_available(state: &mut StateMachine)
    requires
        old(state)@.wf(),
    ensures
        final(state)@.wf(),
        final(state)@ == (StateMachineView { last_audio_error_code: None, ..old(state)@ }),
{
    state.set_last_audio_error_code(None);
}

/// What follows a failed capture.
#[derive(Debug, Clone, Copy, PartialEq, Eq, Structural)]
pub enum CaptureFailure {
    /// The input device is gone: the cached device is dropped and reopened
    /// on the next capture; `first` where this is the first such failure
    /// since audio was last available.
    InputUnavailable { first: bool },
    /// Another failure: the device stays cached.
    Other,
}

/// Capturing with the cached device failed with `err`: a failure of the
/// input device drops the device and records the daemon's audio error
/// code; any other failure changes nothing.
pub fn capture_failed(state: &mut StateMachine, err: &AudioCaptureError) -> (f: CaptureFailure)
    requires
        old(state)@.wf(),
    ensures
        final(state)@.wf(),
        (err is NoInputDevice || err is InputDeviceNotFound || err is Enumerate || err is QueryConfig)
            ==> f == (CaptureFailure::InputUnavailable {
            first: old(state)@.last_audio_error_code is None,
        }) && final(state)@ == (StateMachineView {
            last_audio_error_code: Some(ERR_AUDIO_INPUT_UNAVAILABLE@),
            ..old(state)@
        }),
        !(err is NoInputDevice || err is InputDeviceNotFound || err is Enumerate
            || err is QueryConfig) ==> (f == CaptureFailure::Other && final(state)@ == old(state)@),
{
    if err.is_recoverable_input_failure() {
        let first = note_audio_unavailable(state);
        CaptureFailure::InputUnavailable { first }
    } else {
        CaptureFailure::Other
    }
}

/// What one tick of the runtime worker does.
#[derive(Debug, Clone, Copy, PartialEq, Eq, Structural)]
pub enum TickAction {
    /// Capture a chunk into the push-to-talk buffer.
    CapturePushToTalkChunk,
    /// Run a continuous capture cycle.
    ContinuousCycle,
    /// Nothing is recording: drop the push-to-talk buffer and flush the
    /// segmenter.
    Idle,
}

/// Whether the machine records with `state` and an active session.
pub open spec fn recording_in(v: StateMachineView, state: DictationState) -> bool {
    &&& v.state == state
    &&& v.recording_session matches Some(s) && s.phase == RecordingPhase::Active
}

/// What the tick does for the machine's state.
pub fn tick_action(state: &StateMachine) -> (a: TickAction)
    ensures
        recording_in(state@, DictationState::PushToTalkActive) ==> a
            == TickAction::CapturePushToTalkChunk,
        recording_in(state@, DictationState::ContinuousActive) ==> a == TickAction::ContinuousCycle,
        !recording_in(state@, DictationState::PushToTalkActive) && !recording_in(
            state@,
            DictationState::ContinuousActive,
        ) ==> a == TickAction::Idle,
{
    let now = state.current_state();
    let active = state.is_recording_active();
    if now == DictationState::PushToTalkActive && active {
        TickAction::CapturePushToTalkChunk
    } else if now == DictationState::ContinuousActive && active {
        TickAction::ContinuousCycle
    } else {
        TickAction::Idle
    }
}

/// Whether the machine still records in continuous mode.
pub fn continuous_still_active(state: &StateMachine) -> (b: bool)
    ensures
        b == recording_in(state@, DictationState::ContinuousActive),
{
    state.current_state() == DictationState::ContinuousActive && state.is_recording_active()
}

/// Whether the machine still records in push-to-talk mode.
pub fn push_to_talk_still_active(state: &StateMachine) -> (b: bool)
    ensures
        b == recording_in(state@, DictationState::PushToTalkActive),
{
    state.current_state() == DictationState::PushToTalkActive && state.is_recording_active()
}

/// What a released push-to-talk recording needs.
#[derive(Debug, Clone, Copy, PartialEq, Eq, Structural)]
pub enum PushToTalkStop {
    /// No capture is pending for the session.
    Nothing,
    /// Released before the capture gate opened: resume players and end
    /// processing.
    Cancelled,
    /// Transcribe the chunks already buffered.
    UseBuffer,
    /// Nothing was buffered: capture this many milliseconds now.
    Capture { duration_ms: u32 },
}

/// What a released push-to-talk recording needs, given the capture that
/// was pending for it and the number of samples already buffered.
pub fn push_to_talk_stop_plan(pending: Option<PendingPushToTalkCapture>, buffered: usize) -> (p:
    PushToTalkStop)
    ensures
        pending is None ==> p == PushToTalkStop::Nothing,
        pending matches Some(PendingPushToTalkCapture::Cancelled { .. }) ==> p
            == PushToTalkStop::Cancelled,
        pending matches Some(PendingPushToTalkCapture::Capture { duration_ms, .. }) ==> p == (
        if buffered == 0 {
            PushToTalkStop::Capture { duration_ms }
        } else {
            PushToTalkStop::UseBuffer
        }),
{
    match pending {
        None => PushToTalkStop::Nothing,
        Some(PendingPushToTalkCapture::Cancelled { .. }) => PushToTalkStop::Cancelled,
        Some(PendingPushToTalkCapture::Capture { duration_ms, .. }) => {
            if buffered == 0 {
                PushToTalkStop::Capture { duration_ms }
            } else {
                PushToTalkStop::UseBuffer
            }
        },
    }
}

/// Samples in one segmenter frame of `frame_ms` at the target rate, at
/// least one.
pub open spec fn worker_frame_len(frame_ms: u16) -> int {
    let n = (TARGET_SAMPLE_RATE * frame_ms) / 1000;
    if n < 1 {
        1
    } else {
        n
    }
}

/// Samples in one segmenter frame of `frame_ms` at the target rate, at
/// least one.
pub fn worker_frame_samples(frame_ms: u16) -> (n: usize)
    ensures
        n == worker_frame_len(frame_ms),
{
    let n: u32 = TARGET_SAMPLE_RATE * (frame_ms as u32) / 1000;
    if n < 1 {
        1
    } else {
        n as usize
    }
}

/// Milliseconds captured per tick: ten frames.
pub fn capture_chunk_ms(frame_ms: u16) -> (ms: u32)
    ensures
        ms == frame_ms * 10,
{
    frame_ms as u32 * 10
}

/// A segmenter frame at the 16 kHz target rate holds 16 samples for every
/// millisecond of the frame, and one sample where the frame length is zero.
pub proof fn law_worker_frame_is_sixteen_samples_per_ms(frame_ms: u16)
    ensures
        frame_ms > 0 ==> worker_frame_len(frame_ms) == 16 * frame_ms,
        frame_ms == 0 ==> worker_frame_len(frame_ms) == 1,
{
}

} // verus!
