//! Audio framing: the capture device description, its errors, frame sizes
//! and the voice activity segmenter of continuous mode. Deciding whether a
//! frame holds speech needs its loudness in dBFS, a floating-point quantity
//! that the program around the library measures; the segmenter takes that
//! decision as an argument and does the rest.
use vstd::prelude::*;

use crate::config::VadConfig;

verus! {

/// Sample rate that providers receive.
pub const TARGET_SAMPLE_RATE: u32 = 16_000;

/// Channels that providers receive.
pub const TARGET_CHANNELS: u16 = 1;

/// Length of one analysis frame.
pub const FRAME_DURATION_MS: u16 = 20;

/// Largest utterance payload sent to a provider.
pub const MAX_PAYLOAD_BYTES: usize = 1_500_000;

/// Samples in one frame of `frame_ms` milliseconds.
pub open spec fn frame_size(sample_rate_hz: u32, frame_ms: u16, channels: u16) -> int {
    ((sample_rate_hz * frame_ms) / 1000) * channels
}

/// Samples in one frame of `frame_ms` milliseconds at the given rate and
/// channel count.
pub fn frame_size_samples(sample_rate_hz: u32, frame_ms: u16, channels: u16) -> (n: usize)
    requires
        sample_rate_hz * frame_ms <= usize::MAX,
        frame_size(sample_rate_hz, frame_ms, channels) <= usize::MAX,
    ensures
        n == frame_size(sample_rate_hz, frame_ms, channels),
{
    let per_channel = (sample_rate_hz as usize * frame_ms as usize) / 1_000;
    assert(per_channel * channels == frame_size(sample_rate_hz, frame_ms, channels));
    per_channel * channels as usize
}

/// Why audio could not be captured.
#[derive(Debug, Clone)]
pub enum AudioCaptureError {
    NoInputDevice,
    InputDeviceNotFound(String),
    Enumerate(String),
    QueryConfig(String),
    BuildStream(String),
    PlayStream(String),
    NoSamples,
}

impl AudioCaptureError {
    /// Whether the failure is one of the input device, after which the daemon
    /// reopens the device on the next capture.
    pub fn is_recoverable_input_failure(&self) -> (b: bool)
        ensures
            b == (self is NoInputDevice || self is InputDeviceNotFound || self is Enumerate
                || self is QueryConfig),
    {
        match self {
            AudioCaptureError::NoInputDevice => true,
            AudioCaptureError::InputDeviceNotFound(_) => true,
            AudioCaptureError::Enumerate(_) => true,
            AudioCaptureError::QueryConfig(_) => true,
            _ => false,
        }
    }
}

/// An opened input device.
#[derive(Debug, Clone)]
pub struct AudioCapture {
    pub device_name: String,
    pub sample_rate_hz: u32,
    pub channels: u16,
}

/// The segmenter as a value.
pub struct VadSegmenterView {
    pub cfg: VadConfig,
    pub frame_ms: u32,
    pub sample_rate_hz: u32,
    pub active: bool,
    pub samples: Seq<i16>,
    pub speech_ms: u32,
    pub silence_ms: u32,
    pub payload_limit_bytes: usize,
}

/// Cuts a stream of frames into utterances: an utterance starts with a
/// speech frame and ends after enough silence following enough speech, at
/// the longest utterance, or at the payload limit.
#[derive(Debug, Clone)]
pub struct VadSegmenter {
    cfg: VadConfig,
    frame_ms: u32,
    sample_rate_hz: u32,
    active: bool,
    current_samples: Vec<i16>,
    speech_ms: u32,
    silence_ms: u32,
    payload_limit_bytes: usize,
}

impl View for VadSegmenter {
    type V = VadSegmenterView;

    closed spec fn view(&self) -> VadSegmenterView {
        VadSegmenterView {
            cfg: self.cfg,
            frame_ms: self.frame_ms,
            sample_rate_hz: self.sample_rate_hz,
            active: self.active,
            samples: self.current_samples@,
            speech_ms: self.speech_ms,
            silence_ms: self.silence_ms,
            payload_limit_bytes: self.payload_limit_bytes,
        }
    }
}

/// `a + b`, saturating at `u32::MAX`.
pub open spec fn sat_add(a: u32, b: u32) -> u32 {
    if a + b > u32::MAX {
        u32::MAX
    } else {
        (a + b) as u32
    }
}

/// Whether an active utterance with these counters ends.
pub open spec fn utterance_ends(v: VadSegmenterView, samples: Seq<i16>, speech_ms: u32, silence_ms: u32) -> bool {
    let utterance_ms = (((samples.len() * 1000) as int) / (v.sample_rate_hz as int)) as u32;
    ||| silence_ms >= v.cfg.end_silence_ms && speech_ms >= v.cfg.min_speech_ms
    ||| utterance_ms >= v.cfg.max_utterance_ms
    ||| samples.len() * 2 >= v.payload_limit_bytes
}

/// What pushing `frame`, classified as speech or not, does.
pub open spec fn push_frame_post(
    pre: VadSegmenterView,
    post: VadSegmenterView,
    frame: Seq<i16>,
    is_speech: bool,
    r: Option<Vec<i16>>,
) -> bool {
    if frame.len() == 0 {
        post == pre && r is None
    } else if !pre.active {
        r is None && if is_speech {
            post == (VadSegmenterView {
                active: true,
                samples: pre.samples + frame,
                speech_ms: pre.frame_ms,
                silence_ms: 0,
                ..pre
            })
        } else {
            post == pre
        }
    } else {
        let samples = pre.samples + frame;
        let speech_ms = if is_speech {
            sat_add(pre.speech_ms, pre.frame_ms)
        } else {
            pre.speech_ms
        };
        let silence_ms = if is_speech {
            0
        } else {
            sat_add(pre.silence_ms, pre.frame_ms)
        };
        if utterance_ends(pre, samples, speech_ms, silence_ms) {
            r matches Some(u) && u@ == samples && post == (VadSegmenterView {
                active: false,
                samples: Seq::empty(),
                speech_ms: 0,
                silence_ms: 0,
                ..pre
            })
        } else {
            r is None && post == (VadSegmenterView { samples, speech_ms, silence_ms, ..pre })
        }
    }
}

fn append_samples(v: &mut Vec<i16>, frame: &[i16])
    ensures
        final(v)@ == old(v)@ + frame@,
{
    let mut i: usize = 0;
    while i < frame.len()
        invariant
            i <= frame@.len(),
            v@ == old(v)@ + frame@.subrange(0, i as int),
        decreases frame@.len() - i,
    {
        v.push(frame[i]);
        i = i + 1;
    }
    assert(frame@.subrange(0, frame@.len() as int) =~= frame@);
}

impl VadSegmenter {
    /// An idle segmenter for frames of `frame_ms` at `sample_rate_hz`.
    pub fn new(cfg: VadConfig, frame_ms: u16, sample_rate_hz: u32, payload_limit_bytes: usize) -> (s: Self)
        ensures
            s@ == (VadSegmenterView {
                cfg,
                frame_ms: frame_ms as u32,
                sample_rate_hz,
                active: false,
                samples: Seq::empty(),
                speech_ms: 0,
                silence_ms: 0,
                payload_limit_bytes,
            }),
    {
        VadSegmenter {
            cfg,
            frame_ms: frame_ms as u32,
            sample_rate_hz,
            active: false,
            current_samples: Vec::new(),
            speech_ms: 0,
            silence_ms: 0,
            payload_limit_bytes,
        }
    }

    /// Push one frame; `is_speech` says whether its loudness reached the
    /// start threshold. Returns the utterance that this frame ends, if any.
    pub fn push_frame(&mut self, frame: &[i16], is_speech: bool) -> (r: Option<Vec<i16>>)
        requires
            old(self)@.sample_rate_hz > 0,
            (old(self)@.samples.len() + frame@.len()) * 1000 <= u64::MAX,
        ensures
            push_frame_post(old(self)@, final(self)@, frame@, is_speech, r),
    {
        if frame.len() == 0 {
            return None;
        }
        if !self.active {
            if is_speech {
                self.active = true;
                append_samples(&mut self.current_samples, frame);
                self.speech_ms = self.frame_ms;
                self.silence_ms = 0;
            }
            return None;
        }
        append_samples(&mut self.current_samples, frame);
        if is_speech {
            self.speech_ms = self.speech_ms.saturating_add(self.frame_ms);
            self.silence_ms = 0;
        } else {
            self.silence_ms = self.silence_ms.saturating_add(self.frame_ms);
        }
        let len = self.current_samples.len();
        let utterance_ms = ((len as u64) * 1_000 / (self.sample_rate_hz as u64)) as u32;
        let end_by_silence = self.silence_ms >= self.cfg.end_silence_ms && self.speech_ms
            >= self.cfg.min_speech_ms;
        let end_by_max_utterance = utterance_ms >= self.cfg.max_utterance_ms;
        let end_by_payload = (len as u128) * 2 >= self.payload_limit_bytes as u128;
        if end_by_silence || end_by_max_utterance || end_by_payload {
            let mut out: Vec<i16> = Vec::new();
            std::mem::swap(&mut out, &mut self.current_samples);
            self.active = false;
            self.speech_ms = 0;
            self.silence_ms = 0;
            return Some(out);
        }
        None
    }

    /// Samples buffered for the current utterance.
    pub fn buffered_samples(&self) -> (n: usize)
        ensures
            n == self@.samples.len(),
    {
        self.current_samples.len()
    }

    /// The sample rate that durations are counted at.
    pub fn sample_rate_hz(&self) -> (r: u32)
        ensures
            r == self@.sample_rate_hz,
    {
        self.sample_rate_hz
    }

    /// End the current utterance, returning its samples if there are any.
    pub fn flush(&mut self) -> (r: Option<Vec<i16>>)
        ensures
            final(self)@ == (VadSegmenterView {
                active: false,
                samples: Seq::empty(),
                speech_ms: 0,
                silence_ms: 0,
                ..old(self)@
            }),
            old(self)@.samples.len() == 0 ==> r is None,
            old(self)@.samples.len() > 0 ==> (r matches Some(u) && u@ == old(self)@.samples),
    {
        self.active = false;
        self.speech_ms = 0;
        self.silence_ms = 0;
        if self.current_samples.len() == 0 {
            assert(self.current_samples@ =~= Seq::<i16>::empty());
            return None;
        }
        let mut out: Vec<i16> = Vec::new();
        std::mem::swap(&mut out, &mut self.current_samples);
        Some(out)
    }
}

/// An active utterance ends with the frame that brings it to its longest
/// allowed duration (counted in whole milliseconds at the sample rate), to
/// the payload limit in bytes of 16-bit samples, or to enough silence after
/// enough speech: that push hands back every buffered sample, the frame
/// included, and leaves the segmenter idle and empty. While none of these
/// holds, the frame is buffered and nothing is handed back.
pub proof fn law_active_utterance_ends_at_its_limits(
    pre: VadSegmenterView,
    post: VadSegmenterView,
    frame: Seq<i16>,
    is_speech: bool,
    r: Option<Vec<i16>>,
)
    requires
        pre.active,
        frame.len() > 0,
        pre.sample_rate_hz > 0,
        ((pre.samples.len() + frame.len()) * 1000) as int / (pre.sample_rate_hz as int) <= u32::MAX,
        push_frame_post(pre, post, frame, is_speech, r),
    ensures
        ({
            let n: int = (pre.samples.len() + frame.len()) as int;
            let duration_ms: int = (n * 1000) / (pre.sample_rate_hz as int);
            let silence = if is_speech { 0 } else { pre.silence_ms + pre.frame_ms };
            let speech = if is_speech { pre.speech_ms + pre.frame_ms } else { pre.speech_ms as int };
            let ends = duration_ms >= pre.cfg.max_utterance_ms || n * 2 >= pre.payload_limit_bytes
                || (silence >= pre.cfg.end_silence_ms && speech >= pre.cfg.min_speech_ms);
            &&& ends ==> (r matches Some(u) && u@ == pre.samples + frame && !post.active
                && post.samples.len() == 0)
            &&& !ends ==> (r is None && post.active && post.samples == pre.samples + frame)
        }),
{
    let samples = pre.samples + frame;
    assert(samples.len() == pre.samples.len() + frame.len());
}

/// An idle segmenter hands nothing back and waits for speech: a silent
/// frame is dropped, and a speech frame starts an utterance that holds just
/// that frame, counted as one frame of speech and no silence. An empty frame
/// never changes anything.
pub proof fn law_idle_segmenter_waits_for_speech(
    pre: VadSegmenterView,
    post: VadSegmenterView,
    frame: Seq<i16>,
    is_speech: bool,
    r: Option<Vec<i16>>,
)
    requires
        push_frame_post(pre, post, frame, is_speech, r),
    ensures
        frame.len() == 0 ==> post == pre && r is None,
        !pre.active ==> r is None,
        !pre.active && !is_speech ==> post == pre,
        !pre.active && is_speech && frame.len() > 0 ==> post.active && post.samples == pre.samples
            + frame && post.speech_ms == pre.frame_ms && post.silence_ms == 0 && post.cfg
            == pre.cfg,
{
}

} // verus!
