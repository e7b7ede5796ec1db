use sttd::audio::{frame_size_samples, AudioCaptureError, VadSegmenter};
use sttd::config::VadConfig;

/// Loudness of a frame in dBFS, as the capture side measures it.
fn frame_dbfs(frame: &[i16]) -> f32 {
    if frame.is_empty() {
        return -120.0;
    }
    let rms = (frame
        .iter()
        .map(|s| {
            let n = *s as f64 / i16::MAX as f64;
            n * n
        })
        .sum::<f64>()
        / frame.len() as f64)
        .sqrt();
    let rms = rms.max(1e-9);
    (20.0 * rms.log10()) as f32
}

fn is_speech(frame: &[i16], threshold_dbfs: f32) -> bool {
    frame_dbfs(frame) >= threshold_dbfs
}

#[test]
fn frame_size_matches_expected() {
    assert_eq!(frame_size_samples(16_000, 20, 1), 320);
    assert_eq!(frame_size_samples(48_000, 20, 2), 1_920);
}

#[test]
fn emits_utterance_after_silence() {
    let mut vad = VadSegmenter::new(
        VadConfig {
            start_threshold_millidbfs: -38_000,
            end_silence_ms: 60,
            min_speech_ms: 40,
            max_utterance_ms: 10_000,
        },
        20,
        16_000,
        1_500_000,
    );

    let speech_frame = vec![9_000_i16; 320];
    let silence_frame = vec![0_i16; 320];
    let threshold = -38.0_f32;

    assert!(vad.push_frame(&speech_frame, is_speech(&speech_frame, threshold)).is_none());
    assert!(vad.push_frame(&speech_frame, is_speech(&speech_frame, threshold)).is_none());
    assert!(vad.push_frame(&silence_frame, is_speech(&silence_frame, threshold)).is_none());
    assert!(vad.push_frame(&silence_frame, is_speech(&silence_frame, threshold)).is_none());
    let utterance = vad
        .push_frame(&silence_frame, is_speech(&silence_frame, threshold))
        .expect("must flush");
    assert!(!utterance.is_empty());
}

#[test]
fn silence_alone_never_starts_an_utterance() {
    let cfg = VadConfig {
        start_threshold_millidbfs: -38_000,
        end_silence_ms: 60,
        min_speech_ms: 40,
        max_utterance_ms: 10_000,
    };
    let mut vad = VadSegmenter::new(cfg, 20, 16_000, 1_500_000);
    let silence = vec![0_i16; 320];
    for _ in 0..10 {
        assert!(vad.push_frame(&silence, false).is_none());
    }
    assert!(vad.flush().is_none());
}

#[test]
fn utterance_holds_exactly_the_frames_since_speech_began() {
    let cfg = VadConfig {
        start_threshold_millidbfs: -38_000,
        end_silence_ms: 40,
        min_speech_ms: 20,
        max_utterance_ms: 10_000,
    };
    let mut vad = VadSegmenter::new(cfg, 20, 16_000, 1_500_000);
    let quiet = vec![0_i16; 320];
    let loud = vec![5_000_i16; 320];
    assert!(vad.push_frame(&quiet, false).is_none());
    assert!(vad.push_frame(&loud, true).is_none());
    assert!(vad.push_frame(&quiet, false).is_none());
    let utterance = vad.push_frame(&quiet, false).expect("ends after silence");
    assert_eq!(utterance.len(), 3 * 320);
    assert_eq!(&utterance[..320], &loud[..]);
}

#[test]
fn payload_limit_ends_an_utterance() {
    let cfg = VadConfig {
        start_threshold_millidbfs: -38_000,
        end_silence_ms: 10_000,
        min_speech_ms: 10_000,
        max_utterance_ms: 100_000,
    };
    let mut vad = VadSegmenter::new(cfg, 20, 16_000, 1_280);
    let loud = vec![5_000_i16; 320];
    assert!(vad.push_frame(&loud, true).is_none());
    let utterance = vad.push_frame(&loud, true).expect("payload limit reached");
    assert_eq!(utterance.len(), 640);
}

#[test]
fn flush_returns_buffered_samples_once() {
    let cfg = VadConfig {
        start_threshold_millidbfs: -38_000,
        end_silence_ms: 700,
        min_speech_ms: 250,
        max_utterance_ms: 30_000,
    };
    let mut vad = VadSegmenter::new(cfg, 20, 16_000, 1_500_000);
    let loud = vec![5_000_i16; 320];
    assert!(vad.push_frame(&loud, true).is_none());
    assert_eq!(vad.flush().map(|u| u.len()), Some(320));
    assert!(vad.flush().is_none());
}

#[test]
fn recoverable_input_failures_are_the_device_ones() {
    assert!(AudioCaptureError::NoInputDevice.is_recoverable_input_failure());
    assert!(AudioCaptureError::InputDeviceNotFound("mic".to_string()).is_recoverable_input_failure());
    assert!(!AudioCaptureError::NoSamples.is_recoverable_input_failure());
}
