//! Daemon configuration: the sections of the TOML file, their defaults, the
//! environment overrides and the validation that the daemon runs at start.
//! Amounts of money are held in millionths of a US dollar and loudness in
//! thousandths of a dBFS, so that every field is an integer.
use vstd::prelude::*;

use crate::text::{
    chars_of, find_seq, first_occurrence, has_prefix, lower_seq, lower_str, parse_bool,
    parse_bool_spec, parse_u16, parse_u16_spec, replace_all, replace_str, split_chars, split_on,
    starts_with_str, str_eq, string_from_chars, trim, trim_bounds, trim_str, vec_views,
};

verus! {

/// The whole configuration.
#[derive(Debug, Clone)]
pub struct Config {
    pub provider: ProviderConfig,
    pub audio: AudioConfig,
    pub vad: VadConfig,
    pub guardrails: GuardrailsConfig,
    pub injection: InjectionConfig,
    pub debug_wav: DebugWavConfig,
    pub ipc: IpcConfig,
    pub privacy: PrivacyConfig,
    pub playback: PlaybackConfig,
}

/// The speech-to-text backend.
#[derive(Debug, Clone)]
pub struct ProviderConfig {
    pub kind: String,
    pub base_url: String,
    pub model: String,
    pub language: Option<String>,
    pub prompt: Option<String>,
    /// Sampling temperature in thousandths.
    pub temperature_milli: Option<i32>,
    pub timeout_ms: u64,
    pub max_retries: u32,
    pub capability_probe: bool,
    /// The key of the hosted provider.
    pub api_key: Option<String>,
    /// The key of the hosted provider, under its older name.
    pub openrouter_api_key: Option<String>,
    /// How the hosted provider is asked: `chat_completions`, or anything
    /// else for transcriptions first.
    pub request_mode: String,
    /// Languages that the speech may be in.
    pub language_hints: Vec<String>,
    pub whisper_cmd: String,
    pub whisper_model_path: Option<String>,
    pub whisper_threads: Option<u16>,
    pub whisper_beam_size: u16,
    pub whisper_best_of: u16,
    pub whisper_no_fallback: bool,
    pub whisper_no_timestamps: bool,
    pub env_file_path: String,
}

/// The audio input.
#[derive(Debug, Clone)]
pub struct AudioConfig {
    pub input_device: Option<String>,
    pub sample_rate_hz: u32,
    pub channels: u16,
    pub frame_ms: u16,
    pub max_utterance_ms: u32,
    pub max_payload_bytes: usize,
}

/// Voice activity detection of continuous mode.
#[derive(Debug, Clone, Copy, PartialEq, Eq)]
pub struct VadConfig {
    /// Loudness from which a frame counts as speech, in thousandths of a dBFS.
    pub start_threshold_millidbfs: i32,
    pub end_silence_ms: u32,
    pub min_speech_ms: u32,
    pub max_utterance_ms: u32,
}

/// Limits on how much the daemon records and sends.
#[derive(Debug, Clone, Copy, PartialEq, Eq)]
pub struct GuardrailsConfig {
    pub max_requests_per_minute: u32,
    pub max_continuous_minutes: u32,
    pub provider_error_cooldown_seconds: u32,
    /// Monthly soft spend limit, in millionths of a US dollar.
    pub monthly_soft_spend_limit_micro_usd: Option<i64>,
    /// Estimated cost of one request, in millionths of a US dollar.
    pub estimated_request_cost_micro_usd: i64,
    pub allow_over_limit: bool,
}

/// How transcripts reach the focused window.
#[derive(Debug, Clone)]
pub struct InjectionConfig {
    pub output_mode: String,
    pub clipboard_autopaste: bool,
    pub wtype_cmd: String,
    pub wl_copy_cmd: String,
}

/// Optional recording of utterances to WAV files for debugging.
#[derive(Debug, Clone)]
pub struct DebugWavConfig {
    pub enabled: bool,
    pub directory: String,
    pub ttl_hours: u64,
    pub size_cap_mb: u64,
}

/// The control socket.
#[derive(Debug, Clone)]
pub struct IpcConfig {
    pub socket_path: String,
    pub socket_dir_mode: u32,
    pub socket_file_mode: u32,
}

/// Handling of transcript text.
#[derive(Debug, Clone, Copy, PartialEq, Eq)]
pub struct PrivacyConfig {
    pub redact_transcript_in_logs: bool,
    pub persist_transcripts: bool,
}

/// Pausing of media players while recording.
#[derive(Debug, Clone)]
pub struct PlaybackConfig {
    pub enabled: bool,
    pub playerctl_cmd: String,
    pub command_timeout_ms: u64,
    pub aggregate_timeout_ms: u64,
}


/// The view of an optional string.
pub open spec fn opt_view(o: Option<String>) -> Option<Seq<char>> {
    match o {
        Some(s) => Some(s@),
        None => None,
    }
}

/// The provider section as a value.
pub struct ProviderConfigView {
    pub kind: Seq<char>,
    pub base_url: Seq<char>,
    pub model: Seq<char>,
    pub language: Option<Seq<char>>,
    pub prompt: Option<Seq<char>>,
    pub temperature_milli: Option<i32>,
    pub timeout_ms: u64,
    pub max_retries: u32,
    pub capability_probe: bool,
    pub api_key: Option<Seq<char>>,
    pub openrouter_api_key: Option<Seq<char>>,
    pub request_mode: Seq<char>,
    pub language_hints: Seq<Seq<char>>,
    pub whisper_cmd: Seq<char>,
    pub whisper_model_path: Option<Seq<char>>,
    pub whisper_threads: Option<u16>,
    pub whisper_beam_size: u16,
    pub whisper_best_of: u16,
    pub whisper_no_fallback: bool,
    pub whisper_no_timestamps: bool,
    pub env_file_path: Seq<char>,
}

impl View for ProviderConfig {
    type V = ProviderConfigView;

    open spec fn view(&self) -> ProviderConfigView {
        ProviderConfigView {
            kind: self.kind@,
            base_url: self.base_url@,
            model: self.model@,
            language: opt_view(self.language),
            prompt: opt_view(self.prompt),
            temperature_milli: self.temperature_milli,
            timeout_ms: self.timeout_ms,
            max_retries: self.max_retries,
            capability_probe: self.capability_probe,
            api_key: opt_view(self.api_key),
            openrouter_api_key: opt_view(self.openrouter_api_key),
            request_mode: self.request_mode@,
            language_hints: Seq::new(self.language_hints@.len(), |i: int| self.language_hints@[i]@),
            whisper_cmd: self.whisper_cmd@,
            whisper_model_path: opt_view(self.whisper_model_path),
            whisper_threads: self.whisper_threads,
            whisper_beam_size: self.whisper_beam_size,
            whisper_best_of: self.whisper_best_of,
            whisper_no_fallback: self.whisper_no_fallback,
            whisper_no_timestamps: self.whisper_no_timestamps,
            env_file_path: self.env_file_path@,
        }
    }
}

/// The audio section as a value.
pub struct AudioConfigView {
    pub input_device: Option<Seq<char>>,
    pub sample_rate_hz: u32,
    pub channels: u16,
    pub frame_ms: u16,
    pub max_utterance_ms: u32,
    pub max_payload_bytes: usize,
}

impl View for AudioConfig {
    type V = AudioConfigView;

    open spec fn view(&self) -> AudioConfigView {
        AudioConfigView {
            input_device: opt_view(self.input_device),
            sample_rate_hz: self.sample_rate_hz,
            channels: self.channels,
            frame_ms: self.frame_ms,
            max_utterance_ms: self.max_utterance_ms,
            max_payload_bytes: self.max_payload_bytes,
        }
    }
}

/// The injection section as a value.
pub struct InjectionConfigView {
    pub output_mode: Seq<char>,
    pub clipboard_autopaste: bool,
    pub wtype_cmd: Seq<char>,
    pub wl_copy_cmd: Seq<char>,
}

impl View for InjectionConfig {
    type V = InjectionConfigView;

    open spec fn view(&self) -> InjectionConfigView {
        InjectionConfigView {
            output_mode: self.output_mode@,
            clipboard_autopaste: self.clipboard_autopaste,
            wtype_cmd: self.wtype_cmd@,
            wl_copy_cmd: self.wl_copy_cmd@,
        }
    }
}

/// The debug WAV section as a value.
pub struct DebugWavConfigView {
    pub enabled: bool,
    pub directory: Seq<char>,
    pub ttl_hours: u64,
    pub size_cap_mb: u64,
}

impl View for DebugWavConfig {
    type V = DebugWavConfigView;

    open spec fn view(&self) -> DebugWavConfigView {
        DebugWavConfigView {
            enabled: self.enabled,
            directory: self.directory@,
            ttl_hours: self.ttl_hours,
            size_cap_mb: self.size_cap_mb,
        }
    }
}

/// The IPC section as a value.
pub struct IpcConfigView {
    pub socket_path: Seq<char>,
    pub socket_dir_mode: u32,
    pub socket_file_mode: u32,
}

impl View for IpcConfig {
    type V = IpcConfigView;

    open spec fn view(&self) -> IpcConfigView {
        IpcConfigView {
            socket_path: self.socket_path@,
            socket_dir_mode: self.socket_dir_mode,
            socket_file_mode: self.socket_file_mode,
        }
    }
}

/// The playback section as a value.
pub struct PlaybackConfigView {
    pub enabled: bool,
    pub playerctl_cmd: Seq<char>,
    pub command_timeout_ms: u64,
    pub aggregate_timeout_ms: u64,
}

impl View for PlaybackConfig {
    type V = PlaybackConfigView;

    open spec fn view(&self) -> PlaybackConfigView {
        PlaybackConfigView {
            enabled: self.enabled,
            playerctl_cmd: self.playerctl_cmd@,
            command_timeout_ms: self.command_timeout_ms,
            aggregate_timeout_ms: self.aggregate_timeout_ms,
        }
    }
}

/// The whole configuration as a value.
pub struct ConfigView {
    pub provider: ProviderConfigView,
    pub audio: AudioConfigView,
    pub vad: VadConfig,
    pub guardrails: GuardrailsConfig,
    pub injection: InjectionConfigView,
    pub debug_wav: DebugWavConfigView,
    pub ipc: IpcConfigView,
    pub privacy: PrivacyConfig,
    pub playback: PlaybackConfigView,
}

impl View for Config {
    type V = ConfigView;

    open spec fn view(&self) -> ConfigView {
        ConfigView {
            provider: self.provider@,
            audio: self.audio@,
            vad: self.vad,
            guardrails: self.guardrails,
            injection: self.injection@,
            debug_wav: self.debug_wav@,
            ipc: self.ipc@,
            privacy: self.privacy,
            playback: self.playback@,
        }
    }
}

/// The provider defaults: the local whisper.cpp command line with an English model.
pub open spec fn default_provider() -> ProviderConfigView {
    ProviderConfigView {
        kind: "whisper_local"@,
        base_url: "https://openrouter.ai/api/v1"@,
        model: "openai/whisper-1"@,
        language: None,
        prompt: None,
        temperature_milli: None,
        timeout_ms: 20_000,
        max_retries: 2,
        capability_probe: true,
        api_key: None,
        openrouter_api_key: None,
        request_mode: "auto"@,
        language_hints: Seq::empty(),
        whisper_cmd: "whisper-cli"@,
        whisper_model_path: Some("/usr/share/whisper.cpp/models/ggml-small.en-q5_1.bin"@),
        whisper_threads: None,
        whisper_beam_size: 1,
        whisper_best_of: 1,
        whisper_no_fallback: true,
        whisper_no_timestamps: true,
        env_file_path: "${XDG_CONFIG_HOME:-~/.config}/sttd/sttd.env"@,
    }
}

impl Default for ProviderConfig {
    fn default() -> (c: Self)
        ensures
            c@ == default_provider(),
    {
        let c = ProviderConfig {
            kind: "whisper_local".to_string(),
            base_url: "https://openrouter.ai/api/v1".to_string(),
            model: "openai/whisper-1".to_string(),
            language: None,
            prompt: None,
            temperature_milli: None,
            timeout_ms: 20_000,
            max_retries: 2,
            capability_probe: true,
            api_key: None,
            openrouter_api_key: None,
            request_mode: "auto".to_string(),
            language_hints: Vec::new(),
            whisper_cmd: "whisper-cli".to_string(),
            whisper_model_path: Some(
                "/usr/share/whisper.cpp/models/ggml-small.en-q5_1.bin".to_string(),
            ),
            whisper_threads: None,
            whisper_beam_size: 1,
            whisper_best_of: 1,
            whisper_no_fallback: true,
            whisper_no_timestamps: true,
            env_file_path: "${XDG_CONFIG_HOME:-~/.config}/sttd/sttd.env".to_string(),
        };
        assert(c@.language_hints =~= Seq::<Seq<char>>::empty());
        c
    }
}

/// The audio defaults: 16 kHz mono in 20 ms frames.
pub open spec fn default_audio() -> AudioConfigView {
    AudioConfigView {
        input_device: None,
        sample_rate_hz: 16_000,
        channels: 1,
        frame_ms: 20,
        max_utterance_ms: 30_000,
        max_payload_bytes: 1_500_000,
    }
}

impl Default for AudioConfig {
    fn default() -> (c: Self)
        ensures
            c@ == default_audio(),
    {
        AudioConfig {
            input_device: None,
            sample_rate_hz: 16_000,
            channels: 1,
            frame_ms: 20,
            max_utterance_ms: 30_000,
            max_payload_bytes: 1_500_000,
        }
    }
}

impl Default for VadConfig {
    fn default() -> (c: Self)
        ensures
            c == (VadConfig {
                start_threshold_millidbfs: -38_000i32,
                end_silence_ms: 700,
                min_speech_ms: 250,
                max_utterance_ms: 30_000,
            }),
    {
        VadConfig {
            start_threshold_millidbfs: -38_000,
            end_silence_ms: 700,
            min_speech_ms: 250,
            max_utterance_ms: 30_000,
        }
    }
}

impl Default for GuardrailsConfig {
    fn default() -> (c: Self)
        ensures
            c == (GuardrailsConfig {
                max_requests_per_minute: 30,
                max_continuous_minutes: 30,
                provider_error_cooldown_seconds: 10,
                monthly_soft_spend_limit_micro_usd: None,
                estimated_request_cost_micro_usd: 0,
                allow_over_limit: false,
            }),
    {
        GuardrailsConfig {
            max_requests_per_minute: 30,
            max_continuous_minutes: 30,
            provider_error_cooldown_seconds: 10,
            monthly_soft_spend_limit_micro_usd: None,
            estimated_request_cost_micro_usd: 0,
            allow_over_limit: false,
        }
    }
}

/// The injection defaults: type with `wtype`, copy with `wl-copy`.
pub open spec fn default_injection() -> InjectionConfigView {
    InjectionConfigView {
        output_mode: "type"@,
        clipboard_autopaste: false,
        wtype_cmd: "wtype"@,
        wl_copy_cmd: "wl-copy"@,
    }
}

impl Default for InjectionConfig {
    fn default() -> (c: Self)
        ensures
            c@ == default_injection(),
    {
        InjectionConfig {
            output_mode: "type".to_string(),
            clipboard_autopaste: false,
            wtype_cmd: "wtype".to_string(),
            wl_copy_cmd: "wl-copy".to_string(),
        }
    }
}

/// The debug WAV defaults: disabled, kept a day, at most 100 MiB.
pub open spec fn default_debug_wav() -> DebugWavConfigView {
    DebugWavConfigView {
        enabled: false,
        directory: "${XDG_CACHE_HOME:-~/.cache}/sttd/debug-wav"@,
        ttl_hours: 24,
        size_cap_mb: 100,
    }
}

impl Default for DebugWavConfig {
    fn default() -> (c: Self)
        ensures
            c@ == default_debug_wav(),
    {
        DebugWavConfig {
            enabled: false,
            directory: "${XDG_CACHE_HOME:-~/.cache}/sttd/debug-wav".to_string(),
            ttl_hours: 24,
            size_cap_mb: 100,
        }
    }
}

/// The IPC defaults: a private socket in the runtime directory.
pub open spec fn default_ipc() -> IpcConfigView {
    IpcConfigView {
        socket_path: "${XDG_RUNTIME_DIR}/sttd/sttd.sock"@,
        socket_dir_mode: 0o700,
        socket_file_mode: 0o600,
    }
}

impl Default for IpcConfig {
    fn default() -> (c: Self)
        ensures
            c@ == default_ipc(),
    {
        IpcConfig {
            socket_path: "${XDG_RUNTIME_DIR}/sttd/sttd.sock".to_string(),
            socket_dir_mode: 0o700,
            socket_file_mode: 0o600,
        }
    }
}

impl Default for PrivacyConfig {
    fn default() -> (c: Self)
        ensures
            c == (PrivacyConfig { redact_transcript_in_logs: true, persist_transcripts: false }),
    {
        PrivacyConfig { redact_transcript_in_logs: true, persist_transcripts: false }
    }
}

/// The playback defaults: pause players with `playerctl`.
pub open spec fn default_playback() -> PlaybackConfigView {
    PlaybackConfigView {
        enabled: true,
        playerctl_cmd: "playerctl"@,
        command_timeout_ms: 500,
        aggregate_timeout_ms: 1_500,
    }
}

impl Default for PlaybackConfig {
    fn default() -> (c: Self)
        ensures
            c@ == default_playback(),
    {
        PlaybackConfig {
            enabled: true,
            playerctl_cmd: "playerctl".to_string(),
            command_timeout_ms: 500,
            aggregate_timeout_ms: 1_500,
        }
    }
}

impl Default for Config {
    fn default() -> (c: Self)
        ensures
            c@.provider == default_provider(),
            c@.audio == default_audio(),
            c@.vad == (VadConfig {
                start_threshold_millidbfs: -38_000i32,
                end_silence_ms: 700,
                min_speech_ms: 250,
                max_utterance_ms: 30_000,
            }),
            c@.guardrails == (GuardrailsConfig {
                max_requests_per_minute: 30,
                max_continuous_minutes: 30,
                provider_error_cooldown_seconds: 10,
                monthly_soft_spend_limit_micro_usd: None,
                estimated_request_cost_micro_usd: 0,
                allow_over_limit: false,
            }),
            c@.injection == default_injection(),
            c@.debug_wav == default_debug_wav(),
            c@.ipc == default_ipc(),
            c@.privacy == (PrivacyConfig {
                redact_transcript_in_logs: true,
                persist_transcripts: false,
            }),
            c@.playback == default_playback(),
    {
        Config {
            provider: ProviderConfig::default(),
            audio: AudioConfig::default(),
            vad: VadConfig::default(),
            guardrails: GuardrailsConfig::default(),
            injection: InjectionConfig::default(),
            debug_wav: DebugWavConfig::default(),
            ipc: IpcConfig::default(),
            privacy: PrivacyConfig::default(),
            playback: PlaybackConfig::default(),
        }
    }
}


/// Name of the variable that holds the API key of the hosted provider.
pub const ENV_API_KEY: &'static str = "STTD_OPENROUTER_API_KEY";
/// Name of the variable that overrides the model.
pub const ENV_MODEL: &'static str = "STTD_OPENROUTER_MODEL";
/// Name of the variable that overrides the language.
pub const ENV_LANGUAGE: &'static str = "STTD_OPENROUTER_LANGUAGE";
/// Name of the variable that overrides the provider kind.
pub const ENV_PROVIDER_KIND: &'static str = "STTD_PROVIDER_KIND";
/// Name of the variable that overrides the provider base URL.
pub const ENV_PROVIDER_BASE_URL: &'static str = "STTD_PROVIDER_BASE_URL";
/// Name of the variable that overrides the whisper command.
pub const ENV_WHISPER_CMD: &'static str = "STTD_WHISPER_CMD";
/// Name of the variable that overrides the whisper model path.
pub const ENV_WHISPER_MODEL_PATH: &'static str = "STTD_WHISPER_MODEL_PATH";
/// Name of the variable that overrides the whisper thread count.
pub const ENV_WHISPER_THREADS: &'static str = "STTD_WHISPER_THREADS";
/// Name of the variable that overrides the whisper beam size.
pub const ENV_WHISPER_BEAM_SIZE: &'static str = "STTD_WHISPER_BEAM_SIZE";
/// Name of the variable that overrides the whisper best-of count.
pub const ENV_WHISPER_BEST_OF: &'static str = "STTD_WHISPER_BEST_OF";
/// Name of the variable that overrides the whisper no-fallback switch.
pub const ENV_WHISPER_NO_FALLBACK: &'static str = "STTD_WHISPER_NO_FALLBACK";
/// Name of the variable that overrides the whisper no-timestamps switch.
pub const ENV_WHISPER_NO_TIMESTAMPS: &'static str = "STTD_WHISPER_NO_TIMESTAMPS";
/// Name of the variable that overrides the input device.
pub const ENV_INPUT_DEVICE: &'static str = "STTD_INPUT_DEVICE";
/// Name of the variable that overrides the monthly soft spend limit.
pub const ENV_SOFT_SPEND_LIMIT: &'static str = "STTD_MONTHLY_SOFT_SPEND_LIMIT_USD";
/// Name of the variable that overrides the estimated request cost.
pub const ENV_ESTIMATED_REQUEST_COST: &'static str = "STTD_ESTIMATED_REQUEST_COST_USD";

/// Why a configuration could not be loaded.
#[derive(Debug, Clone)]
pub enum ConfigError {
    Io(String),
    ParseToml(String),
    InvalidValue { field: &'static str, reason: String },
    MissingApiKey,
}

impl ConfigError {
    /// The text that describes the error.
    pub fn message(&self) -> (s: String)
        ensures
            s@ == match *self {
                ConfigError::Io(m) => "failed to read config file: "@ + m@,
                ConfigError::ParseToml(m) => "failed to parse config file: "@ + m@,
                ConfigError::InvalidValue { field, reason } => "invalid value for `"@ + field@
                    + "`: "@ + reason@,
                ConfigError::MissingApiKey =>
                    "OpenRouter API key is missing. Set `STTD_OPENROUTER_API_KEY` or configure provider.openrouter_api_key"@,
            },
    {
        match self {
            ConfigError::Io(m) => {
                let mut s = String::from_str("failed to read config file: ");
                s.append(m.as_str());
                s
            },
            ConfigError::ParseToml(m) => {
                let mut s = String::from_str("failed to parse config file: ");
                s.append(m.as_str());
                s
            },
            ConfigError::InvalidValue { field, reason } => {
                let mut s = String::from_str("invalid value for `");
                s.append(field);
                s.append("`: ");
                s.append(reason.as_str());
                s
            },
            ConfigError::MissingApiKey => String::from_str(
                "OpenRouter API key is missing. Set `STTD_OPENROUTER_API_KEY` or configure provider.openrouter_api_key",
            ),
        }
    }
}

/// The value bound to `key` by the last entry that binds it.
pub open spec fn env_lookup(e: Seq<(Seq<char>, Seq<char>)>, key: Seq<char>) -> Option<Seq<char>>
    decreases e.len(),
{
    if e.len() == 0 {
        None
    } else if e.last().0 == key {
        Some(e.last().1)
    } else {
        env_lookup(e.drop_last(), key)
    }
}

/// Environment variables: later bindings of a name replace earlier ones.
#[derive(Debug, Clone)]
pub struct EnvVars {
    entries: Vec<(String, String)>,
}

impl View for EnvVars {
    type V = Seq<(Seq<char>, Seq<char>)>;

    closed spec fn view(&self) -> Seq<(Seq<char>, Seq<char>)> {
        Seq::new(self.entries@.len(), |i: int| (self.entries@[i].0@, self.entries@[i].1@))
    }
}

impl EnvVars {
    /// No variables.
    pub fn new() -> (e: Self)
        ensures
            e@ == Seq::<(Seq<char>, Seq<char>)>::empty(),
    {
        let e = EnvVars { entries: Vec::new() };
        assert(e@ =~= Seq::<(Seq<char>, Seq<char>)>::empty());
        e
    }

    /// Bind `key` to `value`.
    pub fn insert(&mut self, key: String, value: String)
        ensures
            final(self)@ == old(self)@.push((key@, value@)),
    {
        self.entries.push((key, value));
        assert(self@ =~= old(self)@.push((key@, value@)));
    }

    /// The value bound to `key`.
    pub fn get(&self, key: &str) -> (r: Option<String>)
        ensures
            opt_view(r) == env_lookup(self@, key@),
    {
        let mut i: usize = self.entries.len();
        assert(self@.subrange(0, i as int) =~= self@);
        while i > 0
            invariant
                i <= self.entries@.len(),
                env_lookup(self@, key@) == env_lookup(self@.subrange(0, i as int), key@),
            decreases i,
        {
            let ghost prefix = self@.subrange(0, i as int);
            assert(prefix.last() == self@[i - 1]);
            if str_eq(self.entries[i - 1].0.as_str(), key) {
                return Some(self.entries[i - 1].1.clone());
            }
            assert(prefix.drop_last() =~= self@.subrange(0, i - 1));
            i = i - 1;
        }
        None
    }
}

/// `s` with a leading `export ` removed.
pub open spec fn strip_export(s: Seq<char>) -> Seq<char> {
    if has_prefix(s, "export "@) {
        s.subrange("export "@.len() as int, s.len() as int)
    } else {
        s
    }
}

/// The value part of an assignment: the text inside double quotes, or the
/// text before a ` #` comment.
pub open spec fn assignment_value(v: Seq<char>) -> Seq<char> {
    if v.len() >= 2 && v[0] == '"' && v.last() == '"' {
        v.subrange(1, v.len() - 1)
    } else {
        match first_occurrence(v, " #"@) {
            Some(k) => trim(v.subrange(0, k)),
            None => v,
        }
    }
}

/// A `KEY=value` line of an environment file, read as the daemon reads it:
/// an optional `export `, a key that is not blank, the first `=`, and the
/// value, unquoted or stripped of a trailing comment.
pub open spec fn parse_assignment(line: Seq<char>) -> Option<(Seq<char>, Seq<char>)> {
    let l = trim(strip_export(line));
    match first_occurrence(l, seq!['=']) {
        None => None,
        Some(i) => {
            let key = trim(l.subrange(0, i));
            if key.len() == 0 {
                None
            } else {
                Some((key, assignment_value(trim(l.subrange(i + 1, l.len() as int)))))
            }
        },
    }
}

/// The view of an optional pair of strings.
pub open spec fn opt_pair_view(o: Option<(String, String)>) -> Option<(Seq<char>, Seq<char>)> {
    match o {
        Some(p) => Some((p.0@, p.1@)),
        None => None,
    }
}

fn assignment_value_exec(v: &[char]) -> (r: Vec<char>)
    ensures
        r@ == assignment_value(v@),
{
    let n = v.len();
    if n >= 2 && v[0] == '"' && v[n - 1] == '"' {
        let mut out: Vec<char> = Vec::new();
        let mut k: usize = 1;
        while k < n - 1
            invariant
                1 <= k <= n - 1,
                n == v@.len(),
                out@ == v@.subrange(1, k as int),
            decreases n - 1 - k,
        {
            out.push(v[k]);
            k = k + 1;
        }
        return out;
    }
    let mut pat: Vec<char> = Vec::new();
    pat.push(' ');
    pat.push('#');
    proof {
        reveal_strlit(" #");
        assert(pat@ =~= " #"@);
    }
    match find_seq(v, pat.as_slice()) {
        Some(k) => {
            let head = &v[0..k];
            let (a, b) = trim_bounds(head);
            let mut out: Vec<char> = Vec::new();
            let mut m: usize = a;
            while m < b
                invariant
                    a <= m <= b <= head@.len(),
                    out@ == head@.subrange(a as int, m as int),
                decreases b - m,
            {
                out.push(head[m]);
                m = m + 1;
            }
            assert(head@ =~= v@.subrange(0, k as int));
            out
        },
        None => {
            let mut out: Vec<char> = Vec::new();
            let mut m: usize = 0;
            while m < n
                invariant
                    m <= n,
                    n == v@.len(),
                    out@ == v@.subrange(0, m as int),
                decreases n - m,
            {
                out.push(v[m]);
                m = m + 1;
            }
            assert(out@ =~= v@);
            out
        },
    }
}

fn trimmed_chars(v: &[char]) -> (r: Vec<char>)
    ensures
        r@ == trim(v@),
{
    let (a, b) = trim_bounds(v);
    let mut out: Vec<char> = Vec::new();
    let mut m: usize = a;
    while m < b
        invariant
            a <= m <= b <= v@.len(),
            out@ == v@.subrange(a as int, m as int),
        decreases b - m,
    {
        out.push(v[m]);
        m = m + 1;
    }
    out
}

fn copy_range(v: &[char], from: usize, to: usize) -> (r: Vec<char>)
    requires
        from <= to <= v@.len(),
    ensures
        r@ == v@.subrange(from as int, to as int),
{
    let mut out: Vec<char> = Vec::new();
    let mut m: usize = from;
    while m < to
        invariant
            from <= m <= to <= v@.len(),
            out@ == v@.subrange(from as int, m as int),
        decreases to - m,
    {
        out.push(v[m]);
        m = m + 1;
    }
    out
}

/// Read one `KEY=value` line of an environment file.
pub fn parse_env_assignment(line: &str) -> (r: Option<(String, String)>)
    ensures
        opt_pair_view(r) == parse_assignment(line@),
{
    let raw = chars_of(line);
    let stripped: Vec<char> = if starts_with_str(line, "export ") {
        proof {
            reveal_strlit("export ");
        }
        copy_range(raw.as_slice(), 7, raw.len())
    } else {
        copy_range(raw.as_slice(), 0, raw.len())
    };
    assert(stripped@ == strip_export(line@)) by {
        reveal_strlit("export ");
        assert(raw@.subrange(0, raw@.len() as int) =~= raw@);
    }
    let l = trimmed_chars(stripped.as_slice());
    let mut eq: Vec<char> = Vec::new();
    eq.push('=');
    assert(eq@ =~= seq!['=']);
    match find_seq(l.as_slice(), eq.as_slice()) {
        None => None,
        Some(i) => {
            assert(eq@.len() == 1);
            assert(i + 1 <= l@.len());
            let llen = l.len();
            assert(i + 1 <= llen);
            let key_raw = copy_range(l.as_slice(), 0, i);
            let key = trimmed_chars(key_raw.as_slice());
            if key.len() == 0 {
                return None;
            }
            let value_raw = copy_range(l.as_slice(), i + 1, llen);
            let value_trimmed = trimmed_chars(value_raw.as_slice());
            let value = assignment_value_exec(value_trimmed.as_slice());
            Some((string_from_chars(key.as_slice()), string_from_chars(value.as_slice())))
        },
    }
}

/// The assignments of the given lines of an environment file, in order:
/// blank lines, comment lines and lines that are no assignment are skipped.
pub open spec fn env_file_entries(lines: Seq<Seq<char>>) -> Seq<(Seq<char>, Seq<char>)>
    decreases lines.len(),
{
    if lines.len() == 0 {
        Seq::empty()
    } else {
        let rest = env_file_entries(lines.drop_last());
        let l = trim(lines.last());
        if l.len() > 0 && l[0] != '#' && parse_assignment(l) is Some {
            rest.push(parse_assignment(l)->0)
        } else {
            rest
        }
    }
}

/// Read the contents of an environment file.
pub fn parse_env_file(raw: &str) -> (e: EnvVars)
    ensures
        e@ == env_file_entries(split_on(raw@, '\n')),
{
    let chars = chars_of(raw);
    let lines = split_chars(chars.as_slice(), '\n');
    let ghost all = split_on(raw@, '\n');
    let mut env = EnvVars::new();
    let mut i: usize = 0;
    while i < lines.len()
        invariant
            i <= lines@.len(),
            vec_views(lines@) == all,
            env@ == env_file_entries(all.subrange(0, i as int)),
        decreases lines@.len() - i,
    {
        let line_chars = &lines[i];
        let trimmed = trimmed_chars(line_chars.as_slice());
        assert(all.subrange(0, i + 1).drop_last() =~= all.subrange(0, i as int));
        assert(all.subrange(0, i + 1).last() == line_chars@);
        if trimmed.len() > 0 && trimmed[0] != '#' {
            let line_str = string_from_chars(trimmed.as_slice());
            match parse_env_assignment(line_str.as_str()) {
                Some((k, v)) => {
                    env.insert(k, v);
                },
                None => {},
            }
        }
        i = i + 1;
    }
    assert(all.subrange(0, all.len() as int) =~= all);
    env
}


/// The value of `key`: the process environment first, then the environment file.
pub open spec fn picked(
    rt: Seq<(Seq<char>, Seq<char>)>,
    file: Seq<(Seq<char>, Seq<char>)>,
    key: Seq<char>,
) -> Option<Seq<char>> {
    match env_lookup(rt, key) {
        Some(v) => Some(v),
        None => env_lookup(file, key),
    }
}

/// The reason given for a value that is no unsigned integer.
pub open spec fn not_uint_reason(v: Seq<char>) -> Seq<char> {
    "`"@ + v + "` is not a valid unsigned integer"@
}

/// The reason given for a value that is no boolean.
pub open spec fn not_bool_reason(v: Seq<char>) -> Seq<char> {
    "`"@ + v + "` is not a valid bool"@
}

/// `key` holds a value that is no unsigned 16-bit integer.
pub open spec fn bad_uint(
    rt: Seq<(Seq<char>, Seq<char>)>,
    file: Seq<(Seq<char>, Seq<char>)>,
    key: Seq<char>,
) -> bool {
    picked(rt, file, key) matches Some(v) && parse_u16_spec(v) is None
}

/// `key` holds a value that is no boolean.
pub open spec fn bad_bool(
    rt: Seq<(Seq<char>, Seq<char>)>,
    file: Seq<(Seq<char>, Seq<char>)>,
    key: Seq<char>,
) -> bool {
    picked(rt, file, key) matches Some(v) && parse_bool_spec(v) is None
}

/// The first override whose value cannot be read, with the field it names
/// and the reason, in the order in which the daemon reads them.
pub open spec fn override_failure(
    rt: Seq<(Seq<char>, Seq<char>)>,
    file: Seq<(Seq<char>, Seq<char>)>,
) -> Option<(Seq<char>, Seq<char>)> {
    if bad_uint(rt, file, ENV_WHISPER_THREADS@) {
        Some(
            (
                "provider.whisper_threads"@,
                not_uint_reason(picked(rt, file, ENV_WHISPER_THREADS@)->0),
            ),
        )
    } else if bad_uint(rt, file, ENV_WHISPER_BEAM_SIZE@) {
        Some(
            (
                "provider.whisper_beam_size"@,
                not_uint_reason(picked(rt, file, ENV_WHISPER_BEAM_SIZE@)->0),
            ),
        )
    } else if bad_uint(rt, file, ENV_WHISPER_BEST_OF@) {
        Some(
            (
                "provider.whisper_best_of"@,
                not_uint_reason(picked(rt, file, ENV_WHISPER_BEST_OF@)->0),
            ),
        )
    } else if bad_bool(rt, file, ENV_WHISPER_NO_FALLBACK@) {
        Some(
            (
                "provider.whisper_no_fallback"@,
                not_bool_reason(picked(rt, file, ENV_WHISPER_NO_FALLBACK@)->0),
            ),
        )
    } else if bad_bool(rt, file, ENV_WHISPER_NO_TIMESTAMPS@) {
        Some(
            (
                "provider.whisper_no_timestamps"@,
                not_bool_reason(picked(rt, file, ENV_WHISPER_NO_TIMESTAMPS@)->0),
            ),
        )
    } else {
        None
    }
}

/// `v` if it is given, else `d`.
pub open spec fn or_default<T>(v: Option<T>, d: T) -> T {
    match v {
        Some(x) => x,
        None => d,
    }
}

/// `Some(v)` if `v` is given, else `d`.
pub open spec fn or_keep<T>(v: Option<T>, d: Option<T>) -> Option<T> {
    match v {
        Some(x) => Some(x),
        None => d,
    }
}

/// The configuration with every readable environment override applied.
pub open spec fn overridden(
    c: ConfigView,
    rt: Seq<(Seq<char>, Seq<char>)>,
    file: Seq<(Seq<char>, Seq<char>)>,
) -> ConfigView {
    let p = c.provider;
    ConfigView {
        provider: ProviderConfigView {
            model: or_default(picked(rt, file, ENV_MODEL@), p.model),
            language: or_keep(picked(rt, file, ENV_LANGUAGE@), p.language),
            kind: match picked(rt, file, ENV_PROVIDER_KIND@) {
                Some(v) => lower_seq(v),
                None => p.kind,
            },
            base_url: or_default(picked(rt, file, ENV_PROVIDER_BASE_URL@), p.base_url),
            whisper_cmd: or_default(picked(rt, file, ENV_WHISPER_CMD@), p.whisper_cmd),
            whisper_model_path: or_keep(
                picked(rt, file, ENV_WHISPER_MODEL_PATH@),
                p.whisper_model_path,
            ),
            whisper_threads: match picked(rt, file, ENV_WHISPER_THREADS@) {
                Some(v) => parse_u16_spec(v),
                None => p.whisper_threads,
            },
            whisper_beam_size: match picked(rt, file, ENV_WHISPER_BEAM_SIZE@) {
                Some(v) => parse_u16_spec(v)->0,
                None => p.whisper_beam_size,
            },
            whisper_best_of: match picked(rt, file, ENV_WHISPER_BEST_OF@) {
                Some(v) => parse_u16_spec(v)->0,
                None => p.whisper_best_of,
            },
            whisper_no_fallback: match picked(rt, file, ENV_WHISPER_NO_FALLBACK@) {
                Some(v) => parse_bool_spec(v)->0,
                None => p.whisper_no_fallback,
            },
            whisper_no_timestamps: match picked(rt, file, ENV_WHISPER_NO_TIMESTAMPS@) {
                Some(v) => parse_bool_spec(v)->0,
                None => p.whisper_no_timestamps,
            },
            openrouter_api_key: or_keep(picked(rt, file, ENV_API_KEY@), p.openrouter_api_key),
            ..p
        },
        audio: AudioConfigView {
            input_device: or_keep(picked(rt, file, ENV_INPUT_DEVICE@), c.audio.input_device),
            ..c.audio
        },
        ..c
    }
}

fn pick(runtime_env: &EnvVars, file_env: &EnvVars, key: &str) -> (r: Option<String>)
    ensures
        opt_view(r) == picked(runtime_env@, file_env@, key@),
{
    match runtime_env.get(key) {
        Some(v) => Some(v),
        None => file_env.get(key),
    }
}

fn quoted_reason(v: &str, tail: &str) -> (s: String)
    ensures
        s@ == "`"@ + v@ + tail@,
{
    let mut s = String::from_str("`");
    s.append(v);
    s.append(tail);
    s
}

fn read_u16_override(
    runtime_env: &EnvVars,
    file_env: &EnvVars,
    key: &str,
    field: &'static str,
) -> (r: Result<Option<u16>, ConfigError>)
    ensures
        match picked(runtime_env@, file_env@, key@) {
            None => r == Ok::<Option<u16>, ConfigError>(None),
            Some(v) => match parse_u16_spec(v) {
                Some(n) => r == Ok::<Option<u16>, ConfigError>(Some(n)),
                None => r matches Err(ConfigError::InvalidValue { field: f, reason })
                    && f@ == field@ && reason@ == not_uint_reason(v),
            },
        },
{
    match pick(runtime_env, file_env, key) {
        None => Ok(None),
        Some(v) => match parse_u16(v.as_str()) {
            Some(n) => Ok(Some(n)),
            None => Err(
                ConfigError::InvalidValue {
                    field,
                    reason: quoted_reason(v.as_str(), "` is not a valid unsigned integer"),
                },
            ),
        },
    }
}

fn read_bool_override(
    runtime_env: &EnvVars,
    file_env: &EnvVars,
    key: &str,
    field: &'static str,
) -> (r: Result<Option<bool>, ConfigError>)
    ensures
        match picked(runtime_env@, file_env@, key@) {
            None => r == Ok::<Option<bool>, ConfigError>(None),
            Some(v) => match parse_bool_spec(v) {
                Some(b) => r == Ok::<Option<bool>, ConfigError>(Some(b)),
                None => r matches Err(ConfigError::InvalidValue { field: f, reason })
                    && f@ == field@ && reason@ == not_bool_reason(v),
            },
        },
{
    match pick(runtime_env, file_env, key) {
        None => Ok(None),
        Some(v) => match parse_bool(v.as_str()) {
            Some(b) => Ok(Some(b)),
            None => Err(
                ConfigError::InvalidValue {
                    field,
                    reason: quoted_reason(v.as_str(), "` is not a valid bool"),
                },
            ),
        },
    }
}


fn apply_string_overrides(p: &mut ProviderConfig, runtime_env: &EnvVars, file_env: &EnvVars)
    ensures
        final(p)@ == (ProviderConfigView {
            model: or_default(picked(runtime_env@, file_env@, ENV_MODEL@), old(p)@.model),
            language: or_keep(picked(runtime_env@, file_env@, ENV_LANGUAGE@), old(p)@.language),
            kind: match picked(runtime_env@, file_env@, ENV_PROVIDER_KIND@) {
                Some(v) => lower_seq(v),
                None => old(p)@.kind,
            },
            base_url: or_default(
                picked(runtime_env@, file_env@, ENV_PROVIDER_BASE_URL@),
                old(p)@.base_url,
            ),
            whisper_cmd: or_default(
                picked(runtime_env@, file_env@, ENV_WHISPER_CMD@),
                old(p)@.whisper_cmd,
            ),
            whisper_model_path: or_keep(
                picked(runtime_env@, file_env@, ENV_WHISPER_MODEL_PATH@),
                old(p)@.whisper_model_path,
            ),
            openrouter_api_key: or_keep(
                picked(runtime_env@, file_env@, ENV_API_KEY@),
                old(p)@.openrouter_api_key,
            ),
            ..old(p)@
        }),
{
    if let Some(v) = pick(runtime_env, file_env, ENV_MODEL) {
        p.model = v;
    }
    if let Some(v) = pick(runtime_env, file_env, ENV_LANGUAGE) {
        p.language = Some(v);
    }
    if let Some(v) = pick(runtime_env, file_env, ENV_PROVIDER_KIND) {
        p.kind = lower_str(v.as_str());
    }
    if let Some(v) = pick(runtime_env, file_env, ENV_PROVIDER_BASE_URL) {
        p.base_url = v;
    }
    if let Some(v) = pick(runtime_env, file_env, ENV_WHISPER_CMD) {
        p.whisper_cmd = v;
    }
    if let Some(v) = pick(runtime_env, file_env, ENV_WHISPER_MODEL_PATH) {
        p.whisper_model_path = Some(v);
    }
    if let Some(v) = pick(runtime_env, file_env, ENV_API_KEY) {
        p.openrouter_api_key = Some(v);
    }
}

fn apply_parsed_overrides(
    p: &mut ProviderConfig,
    threads: Option<u16>,
    beam: Option<u16>,
    best_of: Option<u16>,
    no_fallback: Option<bool>,
    no_timestamps: Option<bool>,
)
    ensures
        final(p)@ == (ProviderConfigView {
            whisper_threads: or_keep(threads, old(p)@.whisper_threads),
            whisper_beam_size: or_default(beam, old(p)@.whisper_beam_size),
            whisper_best_of: or_default(best_of, old(p)@.whisper_best_of),
            whisper_no_fallback: or_default(no_fallback, old(p)@.whisper_no_fallback),
            whisper_no_timestamps: or_default(no_timestamps, old(p)@.whisper_no_timestamps),
            ..old(p)@
        }),
{
    if let Some(n) = threads {
        p.whisper_threads = Some(n);
    }
    if let Some(n) = beam {
        p.whisper_beam_size = n;
    }
    if let Some(n) = best_of {
        p.whisper_best_of = n;
    }
    if let Some(b) = no_fallback {
        p.whisper_no_fallback = b;
    }
    if let Some(b) = no_timestamps {
        p.whisper_no_timestamps = b;
    }
}

impl Config {
    /// Apply the environment overrides of `runtime_env` and, where it binds
    /// nothing, of `file_env`. The two money overrides are read where floats
    /// can be parsed, by the program around the library. When a value
    /// cannot be read, the configuration is left as it was.
    pub fn apply_env_overrides(&mut self, runtime_env: &EnvVars, file_env: &EnvVars) -> (r: Result<
        (),
        ConfigError,
    >)
        ensures
            match override_failure(runtime_env@, file_env@) {
                Some((f, m)) => final(self)@ == old(self)@ && (r matches Err(
                    ConfigError::InvalidValue { field, reason },
                ) && field@ == f && reason@ == m),
                None => r is Ok && final(self)@ == overridden(old(self)@, runtime_env@, file_env@),
            },
    {
        let threads = read_u16_override(
            runtime_env,
            file_env,
            ENV_WHISPER_THREADS,
            "provider.whisper_threads",
        )?;
        let beam = read_u16_override(
            runtime_env,
            file_env,
            ENV_WHISPER_BEAM_SIZE,
            "provider.whisper_beam_size",
        )?;
        let best_of = read_u16_override(
            runtime_env,
            file_env,
            ENV_WHISPER_BEST_OF,
            "provider.whisper_best_of",
        )?;
        let no_fallback = read_bool_override(
            runtime_env,
            file_env,
            ENV_WHISPER_NO_FALLBACK,
            "provider.whisper_no_fallback",
        )?;
        let no_timestamps = read_bool_override(
            runtime_env,
            file_env,
            ENV_WHISPER_NO_TIMESTAMPS,
            "provider.whisper_no_timestamps",
        )?;
        apply_string_overrides(&mut self.provider, runtime_env, file_env);
        apply_parsed_overrides(&mut self.provider, threads, beam, best_of, no_fallback, no_timestamps);
        if let Some(v) = pick(runtime_env, file_env, ENV_INPUT_DEVICE) {
            self.audio.input_device = Some(v);
        }
        Ok(())
    }
}


/// A reason why a configuration is refused.
pub enum ConfigIssue {
    Invalid(Seq<char>, Seq<char>),
    MissingApiKey,
}

/// `x` is none of the three given strings.
pub open spec fn none_of(x: Seq<char>, a: Seq<char>, b: Seq<char>, c: Seq<char>) -> bool {
    x != a && x != b && x != c
}

/// Whether the provider section sets a key for the hosted provider, under
/// either name.
pub open spec fn has_api_key(p: ProviderConfigView) -> bool {
    (p.api_key matches Some(k) && trim(k).len() > 0) || (p.openrouter_api_key matches Some(k)
        && trim(k).len() > 0)
}

/// The first rule that `c` breaks, in the order in which the daemon checks
/// them; the API key of the hosted provider is only required when
/// `require_api_key` holds.
pub open spec fn first_issue(c: ConfigView, require_api_key: bool) -> Option<ConfigIssue> {
    let kind = lower_seq(trim(c.provider.kind));
    let hosted = kind == "openai_compatible"@ || kind == "openrouter"@;
    if !hosted && kind != "whisper_local"@ && kind != "whisper_server"@ {
        Some(
            ConfigIssue::Invalid(
                "provider.kind"@,
                "allowed values: openai_compatible|openrouter|whisper_local|whisper_server"@,
            ),
        )
    } else if hosted && trim(c.provider.model).len() == 0 {
        Some(ConfigIssue::Invalid("provider.model"@, "must not be empty"@))
    } else if hosted && require_api_key && !has_api_key(c.provider) {
        Some(ConfigIssue::MissingApiKey)
    } else if kind == "whisper_local"@ && trim(c.provider.whisper_cmd).len() == 0 {
        Some(ConfigIssue::Invalid("provider.whisper_cmd"@, "must not be empty"@))
    } else if kind == "whisper_local"@ && c.provider.whisper_beam_size == 0 {
        Some(ConfigIssue::Invalid("provider.whisper_beam_size"@, "must be greater than 0"@))
    } else if kind == "whisper_local"@ && c.provider.whisper_best_of == 0 {
        Some(ConfigIssue::Invalid("provider.whisper_best_of"@, "must be greater than 0"@))
    } else if kind == "whisper_server"@ && trim(c.provider.base_url).len() == 0 {
        Some(
            ConfigIssue::Invalid("provider.base_url"@, "must not be empty for whisper_server"@),
        )
    } else if c.audio.sample_rate_hz == 0 {
        Some(ConfigIssue::Invalid("audio.sample_rate_hz"@, "must be greater than 0"@))
    } else if c.audio.channels == 0 {
        Some(ConfigIssue::Invalid("audio.channels"@, "must be greater than 0"@))
    } else if c.audio.frame_ms == 0 {
        Some(ConfigIssue::Invalid("audio.frame_ms"@, "must be greater than 0"@))
    } else if c.vad.min_speech_ms > c.vad.max_utterance_ms {
        Some(ConfigIssue::Invalid("vad.min_speech_ms"@, "must be <= vad.max_utterance_ms"@))
    } else if c.vad.end_silence_ms == 0 {
        Some(ConfigIssue::Invalid("vad.end_silence_ms"@, "must be greater than 0"@))
    } else if c.guardrails.max_requests_per_minute == 0 {
        Some(
            ConfigIssue::Invalid("guardrails.max_requests_per_minute"@, "must be greater than 0"@),
        )
    } else if c.guardrails.max_continuous_minutes == 0 {
        Some(
            ConfigIssue::Invalid("guardrails.max_continuous_minutes"@, "must be greater than 0"@),
        )
    } else if c.guardrails.monthly_soft_spend_limit_micro_usd matches Some(l) && l <= 0 {
        Some(
            ConfigIssue::Invalid(
                "guardrails.monthly_soft_spend_limit_usd"@,
                "must be > 0 if set"@,
            ),
        )
    } else if c.guardrails.estimated_request_cost_micro_usd < 0 {
        Some(ConfigIssue::Invalid("guardrails.estimated_request_cost_usd"@, "must be >= 0"@))
    } else if none_of(c.injection.output_mode, "type"@, "clipboard"@, "clipboard_autopaste"@) {
        Some(
            ConfigIssue::Invalid(
                "injection.output_mode"@,
                "allowed values: type|clipboard|clipboard_autopaste"@,
            ),
        )
    } else {
        None
    }
}

/// `r` reports `issue`, or success when there is none.
pub open spec fn reports_issue(r: Result<(), ConfigError>, issue: Option<ConfigIssue>) -> bool {
    match issue {
        None => r is Ok,
        Some(ConfigIssue::MissingApiKey) => r matches Err(ConfigError::MissingApiKey),
        Some(ConfigIssue::Invalid(f, m)) => r matches Err(ConfigError::InvalidValue { field, reason })
            && field@ == f && reason@ == m,
    }
}

fn invalid(field: &'static str, reason: &str) -> (e: ConfigError)
    ensures
        e matches ConfigError::InvalidValue { field: f, reason: m } && f@ == field@ && m@
            == reason@,
{
    ConfigError::InvalidValue { field, reason: reason.to_string() }
}

impl Config {
    /// A configuration as read, with the environment overrides applied and
    /// then checked; the API key is only required when `require_api_key`
    /// holds. This is the part of loading that follows reading the file.
    pub fn finish_load(
        self,
        runtime_env: &EnvVars,
        file_env: &EnvVars,
        require_api_key: bool,
    ) -> (r: Result<Config, ConfigError>)
        ensures
            match override_failure(runtime_env@, file_env@) {
                Some((f, m)) => r matches Err(ConfigError::InvalidValue { field, reason })
                    && field@ == f && reason@ == m,
                None => {
                    let c = overridden(self@, runtime_env@, file_env@);
                    match first_issue(c, require_api_key) {
                        None => r matches Ok(cfg) && cfg@ == c,
                        Some(issue) => r matches Err(e) && reports_issue(
                            Err::<(), ConfigError>(e),
                            Some(issue),
                        ),
                    }
                },
            },
    {
        let mut cfg = self;
        match cfg.apply_env_overrides(runtime_env, file_env) {
            Ok(()) => {},
            Err(e) => {
                return Err(e);
            },
        }
        match cfg.validate(require_api_key) {
            Ok(()) => Ok(cfg),
            Err(e) => Err(e),
        }
    }

    /// Check the configuration against the rules of the daemon; the API key
    /// of the hosted provider is only required when `require_api_key` holds.
    pub fn validate(&self, require_api_key: bool) -> (r: Result<(), ConfigError>)
        ensures
            reports_issue(r, first_issue(self@, require_api_key)),
    {
        let trimmed_kind = trim_str(self.provider.kind.as_str());
        let kind = lower_str(trimmed_kind.as_str());
        let is_hosted = str_eq(kind.as_str(), "openai_compatible") || str_eq(
            kind.as_str(),
            "openrouter",
        );
        let is_local = str_eq(kind.as_str(), "whisper_local");
        let is_server = str_eq(kind.as_str(), "whisper_server");
        if !is_hosted && !is_local && !is_server {
            return Err(
                invalid(
                    "provider.kind",
                    "allowed values: openai_compatible|openrouter|whisper_local|whisper_server",
                ),
            );
        }
        if is_hosted {
            if crate::text::is_blank(self.provider.model.as_str()) {
                return Err(invalid("provider.model", "must not be empty"));
            }
            if require_api_key {
                let canonical = match &self.provider.api_key {
                    Some(v) => !crate::text::is_blank(v.as_str()),
                    None => false,
                };
                let legacy = match &self.provider.openrouter_api_key {
                    Some(v) => !crate::text::is_blank(v.as_str()),
                    None => false,
                };
                let key_ok = canonical || legacy;
                if !key_ok {
                    return Err(ConfigError::MissingApiKey);
                }
            }
        }
        if is_local && crate::text::is_blank(self.provider.whisper_cmd.as_str()) {
            return Err(invalid("provider.whisper_cmd", "must not be empty"));
        }
        if is_local && self.provider.whisper_beam_size == 0 {
            return Err(invalid("provider.whisper_beam_size", "must be greater than 0"));
        }
        if is_local && self.provider.whisper_best_of == 0 {
            return Err(invalid("provider.whisper_best_of", "must be greater than 0"));
        }
        if is_server && crate::text::is_blank(self.provider.base_url.as_str()) {
            return Err(invalid("provider.base_url", "must not be empty for whisper_server"));
        }
        if self.audio.sample_rate_hz == 0 {
            return Err(invalid("audio.sample_rate_hz", "must be greater than 0"));
        }
        if self.audio.channels == 0 {
            return Err(invalid("audio.channels", "must be greater than 0"));
        }
        if self.audio.frame_ms == 0 {
            return Err(invalid("audio.frame_ms", "must be greater than 0"));
        }
        if self.vad.min_speech_ms > self.vad.max_utterance_ms {
            return Err(invalid("vad.min_speech_ms", "must be <= vad.max_utterance_ms"));
        }
        if self.vad.end_silence_ms == 0 {
            return Err(invalid("vad.end_silence_ms", "must be greater than 0"));
        }
        if self.guardrails.max_requests_per_minute == 0 {
            return Err(invalid("guardrails.max_requests_per_minute", "must be greater than 0"));
        }
        if self.guardrails.max_continuous_minutes == 0 {
            return Err(invalid("guardrails.max_continuous_minutes", "must be greater than 0"));
        }
        if let Some(limit) = self.guardrails.monthly_soft_spend_limit_micro_usd {
            if limit <= 0 {
                return Err(invalid("guardrails.monthly_soft_spend_limit_usd", "must be > 0 if set"));
            }
        }
        if self.guardrails.estimated_request_cost_micro_usd < 0 {
            return Err(invalid("guardrails.estimated_request_cost_usd", "must be >= 0"));
        }
        let mode = self.injection.output_mode.as_str();
        if !str_eq(mode, "type") && !str_eq(mode, "clipboard") && !str_eq(mode, "clipboard_autopaste") {
            return Err(invalid("injection.output_mode", "allowed values: type|clipboard|clipboard_autopaste"));
        }
        Ok(())
    }
}


/// The environment variables that path templates refer to; a variable that
/// is unset or not valid Unicode is `None`.
#[derive(Debug, Clone)]
pub struct PathEnv {
    pub xdg_config_home: Option<String>,
    pub xdg_cache_home: Option<String>,
    pub xdg_runtime_dir: Option<String>,
    pub home: Option<String>,
}

/// `raw` with its `${XDG_CONFIG_HOME:-~/.config}`, `${XDG_CACHE_HOME:-~/.cache}`
/// and `${XDG_RUNTIME_DIR}` placeholders filled in from `env` (or their
/// fallbacks), and a leading `~/` resolved against `HOME` when it is set.
pub open spec fn expand_template(raw: Seq<char>, env: PathEnv) -> Seq<char> {
    let v1 = replace_all(
        raw,
        "${XDG_CONFIG_HOME:-~/.config}"@,
        or_default(opt_view(env.xdg_config_home), "~/.config"@),
    );
    let v2 = replace_all(
        v1,
        "${XDG_CACHE_HOME:-~/.cache}"@,
        or_default(opt_view(env.xdg_cache_home), "~/.cache"@),
    );
    let v3 = replace_all(
        v2,
        "${XDG_RUNTIME_DIR}"@,
        or_default(opt_view(env.xdg_runtime_dir), "/tmp"@),
    );
    if has_prefix(v3, "~/"@) && env.home is Some {
        env.home->0@ + "/"@ + v3.subrange(2, v3.len() as int)
    } else {
        v3
    }
}

fn value_or<'a>(v: &'a Option<String>, fallback: &'a str) -> (r: &'a str)
    ensures
        r@ == or_default(opt_view(*v), fallback@),
{
    match v {
        Some(s) => s.as_str(),
        None => fallback,
    }
}

/// Fill in the placeholders of the path template `raw` from `env`.
pub fn expand_path_template(raw: &str, env: &PathEnv) -> (r: String)
    ensures
        r@ == expand_template(raw@, *env),
{
    proof {
        reveal_strlit("${XDG_CONFIG_HOME:-~/.config}");
        reveal_strlit("${XDG_CACHE_HOME:-~/.cache}");
        reveal_strlit("${XDG_RUNTIME_DIR}");
        reveal_strlit("~/");
    }
    let v1 = replace_str(
        raw,
        "${XDG_CONFIG_HOME:-~/.config}",
        value_or(&env.xdg_config_home, "~/.config"),
    );
    let v2 = replace_str(
        v1.as_str(),
        "${XDG_CACHE_HOME:-~/.cache}",
        value_or(&env.xdg_cache_home, "~/.cache"),
    );
    let v3 = replace_str(
        v2.as_str(),
        "${XDG_RUNTIME_DIR}",
        value_or(&env.xdg_runtime_dir, "/tmp"),
    );
    if starts_with_str(v3.as_str(), "~/") {
        if let Some(home) = &env.home {
            let chars = chars_of(v3.as_str());
            let rest = copy_range(chars.as_slice(), 2, chars.len());
            let mut out = home.clone();
            out.append("/");
            let rest_str = string_from_chars(rest.as_slice());
            out.append(rest_str.as_str());
            return out;
        }
    }
    v3
}

/// Where the daemon looks for its configuration file.
pub fn default_config_path(env: &PathEnv) -> (r: String)
    ensures
        r@ == expand_template("${XDG_CONFIG_HOME:-~/.config}/sttd/sttd.toml"@, *env),
{
    expand_path_template("${XDG_CONFIG_HOME:-~/.config}/sttd/sttd.toml", env)
}

impl Config {
    /// The control socket path.
    pub fn socket_path(&self, env: &PathEnv) -> (r: String)
        ensures
            r@ == expand_template(self.ipc.socket_path@, *env),
    {
        expand_path_template(self.ipc.socket_path.as_str(), env)
    }

    /// The environment file path.
    pub fn env_file_path(&self, env: &PathEnv) -> (r: String)
        ensures
            r@ == expand_template(self.provider.env_file_path@, *env),
    {
        expand_path_template(self.provider.env_file_path.as_str(), env)
    }

    /// The directory of debug WAV files.
    pub fn debug_wav_dir(&self, env: &PathEnv) -> (r: String)
        ensures
            r@ == expand_template(self.debug_wav.directory@, *env),
    {
        expand_path_template(self.debug_wav.directory.as_str(), env)
    }
}

} // verus!
