use sttd::config::Config;
use sttd::openai_compat::{
    base_host, build_chat_instruction, build_chat_payload, dashscope_language_hints,
    is_dashscope_qwen_request, judge_chat_reply, looks_like_assistant_reply,
    looks_like_missing_audio_reply, model_looks_audio_capable, normalize_for_heuristic_match,
    next_chat_step, normalized_language_hints, trimmed_non_empty, uses_minimal_asr_chat_payload,
    ChatAttempt, ChatStep, ChatVerdict, OpenAiCompatibleProvider, RequestMode,
    FALLBACK_REINFORCEMENT_HINT, FALLBACK_SYSTEM_PROMPT,
};
use sttd::openrouter::{default_request_for_config as openrouter_request, OpenRouterProvider};
use sttd::provider::{
    build_provider, chat_completions_response, check_model_in_catalog, default_request_for_config,
    extract_chat_content_text, map_http_error, normalize_transcript, normalize_transcript_lines,
    provider_kind, should_fallback_to_chat, transcription_response, AttemptLoop, ChatContent,
    ChatPart, Endpoint, ProviderError, ProviderKind, SegmentPayload, TranscribeRequest,
    TranscribeResponse, TranscriptionPayload,
};
use sttd::whisper_local::{
    command_failed_error, file_name_looks_english_only, BinaryLookup, WhisperLocalProvider,
};
use sttd::whisper_server::{StartupCheck, WhisperServerProvider, WhisperServerReply};

fn request(language: Option<&str>, prompt: Option<&str>) -> TranscribeRequest {
    TranscribeRequest {
        model: "openai/whisper-1".to_string(),
        language: language.map(str::to_string),
        prompt: prompt.map(str::to_string),
        temperature_milli: None,
        language_hints: Vec::new(),
        pcm16_audio: vec![0; 16],
        sample_rate_hz: 16_000,
    }
}

#[test]
fn non_2xx_is_mapped_to_typed_error() {
    assert_eq!(map_http_error(401, "nope".to_string()), ProviderError::Auth);
    assert_eq!(map_http_error(403, String::new()), ProviderError::Auth);
    assert_eq!(map_http_error(429, "slow down".to_string()), ProviderError::RateLimited);
    assert_eq!(
        map_http_error(500, "  ".to_string()),
        ProviderError::Http { status: 500, body: "<empty response body>".to_string() }
    );
    assert_eq!(
        map_http_error(404, "missing".to_string()),
        ProviderError::Http { status: 404, body: "missing".to_string() }
    );
}

#[test]
fn only_transient_failures_are_retryable() {
    assert!(ProviderError::Transport("reset".to_string()).is_retryable());
    assert!(ProviderError::RateLimited.is_retryable());
    assert!(ProviderError::Http { status: 503, body: String::new() }.is_retryable());
    assert!(!ProviderError::Http { status: 404, body: String::new() }.is_retryable());
    assert!(!ProviderError::Auth.is_retryable());
    assert!(!ProviderError::MissingTranscript.is_retryable());
    assert!(!map_http_error(400, "bad".to_string()).is_retryable());
}

#[test]
fn provider_error_messages_match_their_kind() {
    assert_eq!(
        ProviderError::Http { status: 502, body: "gateway".to_string() }.message(),
        "provider returned non-success status 502: gateway"
    );
    assert_eq!(ProviderError::Auth.message(), "provider authentication failed");
    assert_eq!(
        ProviderError::Misconfigured("x".to_string()).message(),
        "provider is misconfigured: x"
    );
}

#[test]
fn chat_fallback_only_for_missing_transcription_endpoint() {
    assert!(should_fallback_to_chat(&ProviderError::Http { status: 404, body: String::new() }));
    assert!(should_fallback_to_chat(&ProviderError::Http { status: 405, body: String::new() }));
    assert!(should_fallback_to_chat(&ProviderError::Http {
        status: 400,
        body: "POST /Audio/Transcriptions is Unsupported for this model".to_string(),
    }));
    assert!(!should_fallback_to_chat(&ProviderError::Http {
        status: 400,
        body: "audio/transcriptions: file too large".to_string(),
    }));
    assert!(!should_fallback_to_chat(&ProviderError::Http { status: 500, body: String::new() }));
    assert!(!should_fallback_to_chat(&ProviderError::RateLimited));
}

#[test]
fn transcripts_are_trimmed_and_blank_ones_dropped() {
    assert_eq!(normalize_transcript("  hello world \n").as_deref(), Some("hello world"));
    assert!(normalize_transcript(" \t\n").is_none());
    assert_eq!(
        normalize_transcript_lines("  first line \n\n  second \r\n   \n").as_deref(),
        Some("first line\nsecond")
    );
    assert!(normalize_transcript_lines("\n \n").is_none());
}

#[test]
fn missing_optional_fields_are_handled_safely() {
    let payload = TranscriptionPayload {
        transcript: None,
        text: Some("  hi there ".to_string()),
        confidence_bits: None,
        segments: Some(vec![SegmentPayload {
            start_ms: None,
            end_ms: Some(40),
            text: None,
            confidence_bits: Some(0.5_f32.to_bits()),
        }]),
    };
    let resp = transcription_response(&payload).expect("text field is used");
    assert_eq!(resp.transcript, "hi there");
    assert_eq!(resp.segments.len(), 1);
    assert_eq!(resp.segments[0].start_ms, 0);
    assert_eq!(resp.segments[0].end_ms, 40);
    assert_eq!(resp.segments[0].text, "");
    assert_eq!(resp.segments[0].confidence_bits.map(f32::from_bits), Some(0.5));

    let empty = TranscriptionPayload {
        transcript: Some("   ".to_string()),
        text: Some("ignored".to_string()),
        confidence_bits: None,
        segments: None,
    };
    assert_eq!(transcription_response(&empty), Err(ProviderError::MissingTranscript));
}

#[test]
fn chat_content_parts_are_joined_and_first_transcript_wins() {
    let parts = ChatContent::Parts(vec![
        ChatPart { kind: "text".to_string(), text: Some(" hello".to_string()) },
        ChatPart { kind: "image".to_string(), text: Some("skip".to_string()) },
        ChatPart { kind: "output_text".to_string(), text: Some("world ".to_string()) },
        ChatPart { kind: "text".to_string(), text: None },
    ]);
    assert_eq!(extract_chat_content_text(&parts).as_deref(), Some("hello\nworld"));

    let choices = vec![
        None,
        Some(ChatContent::Text("   ".to_string())),
        Some(ChatContent::Text(" spoken words ".to_string())),
        Some(ChatContent::Text("later".to_string())),
    ];
    let resp = chat_completions_response(&choices).expect("a choice carries text");
    assert_eq!(resp.transcript, "spoken words");
    assert!(resp.segments.is_empty());
    assert_eq!(chat_completions_response(&[None]), Err(ProviderError::MissingTranscript));
}

#[test]
fn catalog_check_names_a_missing_model() {
    let ids = vec!["a".to_string(), "openai/whisper-1".to_string()];
    assert!(check_model_in_catalog(&ids, "openai/whisper-1").is_ok());
    match check_model_in_catalog(&ids, "b") {
        Err(ProviderError::IncompatibleModel(m)) => {
            assert_eq!(m, "configured model 'b' not found in provider model catalog")
        }
        other => panic!("unexpected: {other:?}"),
    }
}

#[test]
fn provider_kind_is_trimmed_and_case_insensitive() {
    assert_eq!(provider_kind(" OpenRouter "), Ok(ProviderKind::OpenAiCompatible));
    assert_eq!(provider_kind("openai_compatible"), Ok(ProviderKind::OpenAiCompatible));
    assert_eq!(provider_kind("whisper_local"), Ok(ProviderKind::WhisperLocal));
    assert_eq!(provider_kind("WHISPER_SERVER"), Ok(ProviderKind::WhisperServer));
    assert_eq!(
        provider_kind(" Other "),
        Err(ProviderError::Misconfigured("unknown provider.kind `other`".to_string()))
    );
    let cfg = Config::default();
    assert_eq!(build_provider(&cfg), Ok(ProviderKind::WhisperLocal));
}

#[test]
fn default_request_follows_the_configuration() {
    let mut cfg = Config::default();
    cfg.provider.model = "m".to_string();
    cfg.provider.prompt = Some("names".to_string());
    cfg.provider.temperature_milli = Some(200);
    let req = default_request_for_config(&cfg, vec![1, 2, 3]);
    assert_eq!(req.model, "m");
    assert_eq!(req.language, None);
    assert_eq!(req.prompt.as_deref(), Some("names"));
    assert_eq!(req.temperature_milli, Some(200));
    assert_eq!(req.pcm16_audio, vec![1, 2, 3]);
    assert_eq!(req.sample_rate_hz, 16_000);
}

#[test]
fn attempt_loop_retries_transient_failures_within_budget() {
    let mut l = AttemptLoop::new(2, false);
    assert_eq!(l.endpoint(), Endpoint::Transcriptions);
    let transient = ProviderError::Http { status: 502, body: String::new() };
    assert_eq!(l.retry_after(&transient), Some(500));
    assert_eq!(l.retry_after(&transient), Some(750));
    assert_eq!(l.retry_after(&transient), None);
    assert_eq!(l.attempt(), 2);

    let mut l = AttemptLoop::new(5, false);
    assert_eq!(l.retry_after(&ProviderError::Auth), None);
    assert_eq!(l.attempt(), 0);
}

#[test]
fn fallback_mode_is_sticky_after_first_endpoint_incompatibility() {
    let mut l = AttemptLoop::new(1, false);
    assert!(!l.fallback_after(&ProviderError::Http { status: 500, body: String::new() }));
    assert_eq!(l.endpoint(), Endpoint::Transcriptions);
    assert!(l.fallback_after(&ProviderError::Http { status: 404, body: String::new() }));
    assert_eq!(l.endpoint(), Endpoint::ChatCompletions);
    assert_eq!(l.retry_after(&ProviderError::RateLimited), Some(500));
    assert_eq!(l.endpoint(), Endpoint::ChatCompletions);
}

fn openrouter_config(key: Option<&str>) -> Config {
    let mut cfg = Config::default();
    cfg.provider.kind = "openrouter".to_string();
    cfg.provider.base_url = " https://openrouter.ai/api/v1// ".to_string();
    cfg.provider.model = "openai/whisper-1".to_string();
    cfg.provider.openrouter_api_key = key.map(str::to_string);
    cfg
}

fn hosted_config(model: &str) -> Config {
    let mut cfg = Config::default();
    cfg.provider.kind = "openai_compatible".to_string();
    cfg.provider.base_url = "https://dashscope.aliyuncs.com/compatible-mode/v1".to_string();
    cfg.provider.model = model.to_string();
    cfg.provider.api_key = Some("sk-test".to_string());
    cfg.provider.request_mode = "chat_completions".to_string();
    cfg.provider.capability_probe = false;
    cfg
}

#[test]
fn openrouter_requires_an_api_key_and_trims_the_base_url() {
    assert_eq!(OpenRouterProvider::new(&openrouter_config(None)).err(), Some(ProviderError::Auth));
    assert_eq!(OpenRouterProvider::new(&openrouter_config(Some("  "))).err(), Some(ProviderError::Auth));
    let p = OpenRouterProvider::new(&openrouter_config(Some(" sk-1 "))).expect("builds");
    assert_eq!(p.transcriptions_endpoint(), "https://openrouter.ai/api/v1/audio/transcriptions");
    assert_eq!(p.chat_completions_endpoint(), "https://openrouter.ai/api/v1/chat/completions");
    assert_eq!(p.models_endpoint(), "https://openrouter.ai/api/v1/models");
    assert_eq!(p.authorization(), "Bearer sk-1");
}

#[test]
fn hosted_provider_prefers_the_canonical_api_key() {
    let mut cfg = openrouter_config(Some("sk-legacy"));
    cfg.provider.api_key = Some("sk-canonical".to_string());
    let p = OpenAiCompatibleProvider::new(&cfg).expect("builds");
    assert_eq!(p.authorization(), "Bearer sk-canonical");
    cfg.provider.api_key = Some(" ".to_string());
    assert_eq!(OpenAiCompatibleProvider::new(&cfg).err(), Some(ProviderError::Auth));
}

#[test]
fn hosted_provider_needs_a_base_url_and_a_model() {
    let mut cfg = openrouter_config(Some("sk"));
    cfg.provider.base_url = " // ".to_string();
    assert_eq!(
        OpenAiCompatibleProvider::new(&cfg).err(),
        Some(ProviderError::Misconfigured(
            "provider.base_url must be set when provider.kind=openai_compatible/openrouter".to_string()
        ))
    );
    let mut cfg = openrouter_config(Some("sk"));
    cfg.provider.model = "   ".to_string();
    assert_eq!(
        OpenAiCompatibleProvider::new(&cfg).err(),
        Some(ProviderError::Misconfigured(
            "provider.model must be set when provider.kind=openai_compatible/openrouter".to_string()
        ))
    );
}

#[test]
fn openrouter_startup_validation_rejects_non_audio_model() {
    let mut cfg = openrouter_config(Some("sk-test"));
    cfg.provider.model = "google/gemini-2.5-flash-lite".to_string();
    cfg.provider.capability_probe = false;
    let p = OpenRouterProvider::new(&cfg).expect("build provider");
    match p.startup_probe_needed() {
        Err(ProviderError::IncompatibleModel(reason)) => {
            assert!(reason.contains("does not look speech-to-text capable"));
            assert_eq!(
                reason,
                "configured model 'google/gemini-2.5-flash-lite' does not look speech-to-text capable; choose an STT/audio model id"
            );
        }
        other => panic!("unexpected: {other:?}"),
    }
}

#[test]
fn openrouter_startup_validation_accepts_transcribe_named_model() {
    let mut cfg = openrouter_config(Some("sk-test"));
    cfg.provider.model = "openai/gpt-4o-transcribe".to_string();
    cfg.provider.capability_probe = false;
    let p = OpenRouterProvider::new(&cfg).expect("build provider");
    assert_eq!(p.startup_probe_needed(), Ok(false));
    cfg.provider.capability_probe = true;
    assert_eq!(OpenRouterProvider::new(&cfg).expect("builds").startup_probe_needed(), Ok(true));
}

#[test]
fn build_provider_accepts_canonical_openai_compatible_kind() {
    let cfg = hosted_config("qwen3-asr-flash");
    assert_eq!(build_provider(&cfg), Ok(ProviderKind::OpenAiCompatible));
    let p = OpenAiCompatibleProvider::new(&cfg).expect("build provider");
    assert_eq!(p.startup_probe_needed(), Ok(false));
    assert_eq!(p.attempts().endpoint(), Endpoint::ChatCompletions);
}

#[test]
fn build_provider_accepts_legacy_openrouter_kind_with_canonical_api_key() {
    let mut cfg = openrouter_config(None);
    cfg.provider.api_key = Some("sk-test".to_string());
    cfg.provider.capability_probe = false;
    assert_eq!(build_provider(&cfg), Ok(ProviderKind::OpenAiCompatible));
    let p = OpenRouterProvider::new(&cfg).expect("build provider");
    assert_eq!(p.startup_probe_needed(), Ok(false));
    assert_eq!(p.attempts().endpoint(), Endpoint::Transcriptions);
}

#[test]
fn openrouter_validation_rejects_blank_language() {
    let mut cfg = openrouter_config(Some("sk"));
    cfg.provider.language = Some("  ".to_string());
    let p = OpenRouterProvider::new(&cfg).expect("builds");
    assert_eq!(
        p.startup_probe_needed(),
        Err(ProviderError::IncompatibleModel("language must be non-empty when provided".to_string()))
    );
    cfg.provider.language = None;
    cfg.provider.capability_probe = false;
    assert_eq!(OpenRouterProvider::new(&cfg).expect("builds").startup_probe_needed(), Ok(false));
}

#[test]
fn openrouter_transcription_fields_follow_the_request() {
    let fields = OpenRouterProvider::transcription_fields(&request(Some(" de "), Some("p")));
    let names: Vec<&str> = fields.iter().map(|(k, _)| k.as_str()).collect();
    assert_eq!(names, vec!["model", "language", "prompt"]);
    assert_eq!(fields[0].1, "openai/whisper-1");
    assert_eq!(fields[1].1, "de");
    let fields = OpenRouterProvider::transcription_fields(&request(Some("  "), None));
    assert_eq!(fields, vec![("model".to_string(), "openai/whisper-1".to_string())]);
}

#[test]
fn falls_back_to_chat_completions_for_audio_input_models() {
    let mut cfg = openrouter_config(Some("sk-test"));
    cfg.provider.model = "google/gemini-2.5-flash-lite".to_string();
    cfg.provider.prompt = Some("please answer this question".to_string());
    let p = OpenRouterProvider::new(&cfg).expect("build provider");
    let req = openrouter_request(&cfg, vec![0_i16; 100]);
    let payload = p.chat_payload(&req, b"RIFF1", false);
    assert_eq!(payload.model, "google/gemini-2.5-flash-lite");
    assert!(payload.temperature_zero);
    let system = payload.system_message.expect("system prompt");
    assert!(system.contains("Only return verbatim transcript text"));
    assert!(system.contains("Never answer questions"));
    assert!(payload.audio_data_url.starts_with("data:audio/wav;base64,"));
    let instruction = payload.instruction.expect("instruction");
    assert!(instruction.contains("Output only transcript text"));
    assert!(instruction.contains("Do not answer questions"));
    assert!(!instruction.contains("Language hint (do not translate):"));
    assert!(!instruction.contains("Context hint:"));
    assert!(!instruction.contains("please answer this question"));
    let reinforced = p.chat_payload(&req, b"RIFF1", true);
    assert!(reinforced
        .instruction
        .expect("instruction")
        .contains("Retry policy: previous attempt looked like an assistant response"));
}

fn reply(text: &str) -> Result<TranscribeResponse, ProviderError> {
    Ok(TranscribeResponse { transcript: text.to_string(), confidence_bits: None, segments: Vec::new() })
}

#[test]
fn chat_step_retries_once_reinforced_then_accepts() {
    let first = next_chat_step(ChatAttempt::Initial, reply("Sure, here's the answer: it is 3 PM in Tokyo."));
    assert_eq!(first, ChatStep::SendReinforced);
    let second = next_chat_step(ChatAttempt::Reinforced, reply("what time is it in tokyo"));
    assert_eq!(second, ChatStep::Done(reply("what time is it in tokyo")));
    assert_eq!(
        next_chat_step(ChatAttempt::Initial, reply("the answer is 42")),
        ChatStep::Done(reply("the answer is 42"))
    );
}

#[test]
fn chat_step_missing_audio_twice_is_a_transport_error() {
    let missing = "I didn't receive any audio files. Please provide an audio input.";
    assert_eq!(next_chat_step(ChatAttempt::Initial, reply(missing)), ChatStep::SendReinforced);
    let step = next_chat_step(ChatAttempt::Reinforced, reply(missing));
    let expected = ProviderError::Transport("chat fallback model reported missing audio payload".to_string());
    assert_eq!(step, ChatStep::Done(Err(expected.clone())));
    assert!(expected.is_retryable());
}

#[test]
fn chat_step_assistant_like_after_retry_is_a_transport_error() {
    let step = next_chat_step(ChatAttempt::Reinforced, reply("Sure, here's the answer: yes."));
    assert_eq!(
        step,
        ChatStep::Done(Err(ProviderError::Transport(
            "chat fallback returned assistant-like response instead of transcript".to_string()
        )))
    );
    assert_eq!(
        next_chat_step(ChatAttempt::Initial, Err(ProviderError::RateLimited)),
        ChatStep::Done(Err(ProviderError::RateLimited))
    );
}

#[test]
fn sticky_chat_preference_carries_over_to_the_next_utterance() {
    let mut p = OpenRouterProvider::new(&openrouter_config(Some("sk"))).expect("builds");
    let mut first = p.attempts();
    assert_eq!(first.endpoint(), Endpoint::Transcriptions);
    assert!(first.fallback_after(&ProviderError::Http { status: 405, body: "method not allowed".to_string() }));
    p.remember(&first);
    let second = p.attempts();
    assert_eq!(second.endpoint(), Endpoint::ChatCompletions);
    p.remember(&second);
    assert_eq!(p.attempts().endpoint(), Endpoint::ChatCompletions);

    let mut q = OpenRouterProvider::new(&openrouter_config(Some("sk"))).expect("builds");
    let l = q.attempts();
    q.remember(&l);
    assert_eq!(q.attempts().endpoint(), Endpoint::Transcriptions);
}

fn local_config(model_path: &str, language: Option<&str>) -> Config {
    let mut cfg = Config::default();
    cfg.provider.whisper_model_path = Some(model_path.to_string());
    cfg.provider.language = language.map(str::to_string);
    cfg
}

#[test]
fn whisper_local_requires_a_model_path() {
    let mut cfg = Config::default();
    cfg.provider.whisper_model_path = Some("   ".to_string());
    match WhisperLocalProvider::new(&cfg) {
        Err(ProviderError::Misconfigured(m)) => assert_eq!(
            m,
            "provider.whisper_model_path must be set when provider.kind=whisper_local"
        ),
        other => panic!("unexpected: {other:?}"),
    }
    let p = WhisperLocalProvider::new(&local_config(" /m/ggml.bin ", None)).expect("builds");
    assert_eq!(p.model_path(), "/m/ggml.bin");
    assert_eq!(p.timeout_ms(), 120_000);
}

#[test]
fn whisper_local_startup_validation_rejects_en_model_with_non_english_language() {
    let p = WhisperLocalProvider::new(&local_config("/models/ggml-small.en-q5_1.bin", Some("de_DE")))
        .expect("builds");
    match p.enforce_model_language_compatibility() {
        Err(ProviderError::IncompatibleModel(m)) => assert!(m.contains("provider.language='de-de'")),
        other => panic!("unexpected: {other:?}"),
    }
    let english = WhisperLocalProvider::new(&local_config("/models/ggml-small.en.bin", Some("EN_us")))
        .expect("builds");
    assert!(english.enforce_model_language_compatibility().is_ok());
    let multilingual =
        WhisperLocalProvider::new(&local_config("/models/ggml-small.bin", Some("de"))).expect("builds");
    assert!(multilingual.enforce_model_language_compatibility().is_ok());
}

#[test]
fn whisper_local_startup_validation_rejects_blank_language_string() {
    let p = WhisperLocalProvider::new(&local_config("/models/ggml-small.bin", Some("  ")))
        .expect("builds");
    assert_eq!(
        p.enforce_model_language_compatibility(),
        Err(ProviderError::IncompatibleModel("language must be non-empty when provided".to_string()))
    );
}

#[test]
fn whisper_local_language_helpers() {
    assert_eq!(WhisperLocalProvider::normalized_language("  Pt_BR ").as_deref(), Some("pt-br"));
    assert!(WhisperLocalProvider::normalized_language("   ").is_none());
    assert!(WhisperLocalProvider::is_english_language("en"));
    assert!(WhisperLocalProvider::is_english_language("en-gb"));
    assert!(!WhisperLocalProvider::is_english_language("eng"));
    assert!(WhisperLocalProvider::model_path_looks_english_only("/x/ggml-base.EN.bin"));
    assert!(!WhisperLocalProvider::model_path_looks_english_only("/x.en.d/ggml-base.bin"));
    assert!(!file_name_looks_english_only(&None));
}

#[test]
fn whisper_local_checks_binary_and_model() {
    let mut cfg = local_config("/models/ggml-small.bin", None);
    cfg.provider.whisper_cmd = " /opt/whisper-cli ".to_string();
    let p = WhisperLocalProvider::new(&cfg).expect("builds");
    assert_eq!(p.binary_lookup(), Ok(BinaryLookup::Path("/opt/whisper-cli".to_string())));
    assert_eq!(
        p.validate_setup(false, true),
        Err(ProviderError::DependencyUnavailable(
            "local whisper binary `/opt/whisper-cli` does not exist".to_string()
        ))
    );
    assert_eq!(
        p.validate_setup(true, false),
        Err(ProviderError::Misconfigured(
            "whisper model file `/models/ggml-small.bin` does not exist".to_string()
        ))
    );
    assert!(p.validate_setup(true, true).is_ok());

    cfg.provider.whisper_cmd = "whisper-cli".to_string();
    let p = WhisperLocalProvider::new(&cfg).expect("builds");
    assert_eq!(p.binary_lookup(), Ok(BinaryLookup::Search("whisper-cli".to_string())));
    assert_eq!(
        p.validate_setup(false, true),
        Err(ProviderError::DependencyUnavailable(
            "local whisper binary `whisper-cli` is not in PATH".to_string()
        ))
    );
    cfg.provider.whisper_cmd = "  ".to_string();
    let p = WhisperLocalProvider::new(&cfg).expect("builds");
    assert!(matches!(p.validate_setup(true, true), Err(ProviderError::Misconfigured(_))));
}

#[test]
fn whisper_local_command_line_resolves_language_and_prompt() {
    let mut cfg = local_config("/m.bin", Some("de"));
    cfg.provider.whisper_threads = Some(4);
    cfg.provider.whisper_beam_size = 5;
    cfg.provider.whisper_best_of = 2;
    cfg.provider.whisper_no_fallback = true;
    cfg.provider.whisper_no_timestamps = false;
    let p = WhisperLocalProvider::new(&cfg).expect("builds");
    let args = p.command_args(&request(Some(" "), Some("ctx")), "/tmp/a.wav", "/tmp/a");
    assert_eq!(
        args,
        vec![
            "-m", "/m.bin", "-f", "/tmp/a.wav", "-otxt", "-of", "/tmp/a", "-bs", "5", "-bo", "2",
            "-np", "-l", "de", "-p", "ctx", "-t", "4", "-nf",
        ]
    );
}

#[test]
fn whisper_local_reads_its_transcript_file() {
    let resp = WhisperLocalProvider::transcript_response("\n  hello \n\n world\n").expect("text");
    assert_eq!(resp.transcript, "hello\nworld");
    assert_eq!(
        WhisperLocalProvider::transcript_response("  \n"),
        Err(ProviderError::MissingTranscript)
    );
    assert_eq!(
        command_failed_error("exit status: 1", " boom \n", ""),
        ProviderError::Execution(
            "local whisper command failed with status exit status: 1: stderr=`boom` stdout=``"
                .to_string()
        )
    );
}

fn server_config(base: &str, language: Option<&str>, probe: bool) -> Config {
    let mut cfg = Config::default();
    cfg.provider.kind = "whisper_server".to_string();
    cfg.provider.base_url = base.to_string();
    cfg.provider.language = language.map(str::to_string);
    cfg.provider.capability_probe = probe;
    cfg
}

#[test]
fn whisper_server_startup_probe_uses_inference_endpoint() {
    let p = WhisperServerProvider::new(&server_config(" http://127.0.0.1:8080/ ", Some("en"), true))
        .expect("builds");
    assert_eq!(p.inference_endpoint(), "http://127.0.0.1:8080/inference");
    assert_eq!(p.startup_check(), Ok(StartupCheck::InferenceProbe));
    let probe = p.probe_request();
    assert_eq!(probe.pcm16_audio.len(), 1_600);
    assert_eq!(probe.sample_rate_hz, 16_000);
    assert_eq!(probe.language.as_deref(), Some("en"));
    assert!(p.probe_outcome(200, String::new()).is_ok());
    match p.probe_outcome(404, String::new()) {
        Err(ProviderError::DependencyUnavailable(m)) => assert_eq!(
            m,
            "whisper_server inference endpoint 'http://127.0.0.1:8080/inference' is unavailable \
             (status 404): <empty response body>"
        ),
        other => panic!("unexpected: {other:?}"),
    }
    assert!(WhisperServerProvider::new(&server_config(" / ", None, true)).is_err());
}

#[test]
fn whisper_server_startup_probe_rejects_unsupported_language() {
    let p = WhisperServerProvider::new(&server_config("http://h", Some("xx"), true)).expect("builds");
    match p.probe_outcome(400, "Unsupported LANGUAGE: xx".to_string()) {
        Err(ProviderError::IncompatibleModel(m)) => assert_eq!(
            m,
            "whisper_server inference endpoint rejected configured language 'xx': \
             Unsupported LANGUAGE: xx"
        ),
        other => panic!("unexpected: {other:?}"),
    }
    match p.probe_outcome(500, "language unknown".to_string()) {
        Err(ProviderError::DependencyUnavailable(m)) => assert_eq!(
            m,
            "whisper_server startup inference probe failed with status 500: language unknown"
        ),
        other => panic!("unexpected: {other:?}"),
    }
}

#[test]
fn whisper_server_validation_without_probe_rejects_non_success_base_status() {
    let p = WhisperServerProvider::new(&server_config("http://h/", None, false)).expect("builds");
    assert_eq!(p.startup_check(), Ok(StartupCheck::BaseEndpoint));
    assert!(p.base_check_outcome(204, String::new()).is_ok());
    assert_eq!(
        p.base_check_outcome(503, "down".to_string()),
        Err(ProviderError::DependencyUnavailable(
            "whisper_server base endpoint 'http://h' returned status 503 during startup \
             validation: down"
                .to_string()
        ))
    );
}

#[test]
fn whisper_server_parses_text_response() {
    let parsed = Some(WhisperServerReply { text: Some(" hello \n world ".to_string()), transcript: None });
    let resp = WhisperServerProvider::inference_response("{...}", &parsed).expect("text");
    assert_eq!(resp.transcript, "hello\nworld");
    let blank_text = Some(WhisperServerReply {
        text: Some(" ".to_string()),
        transcript: Some("unused".to_string()),
    });
    let resp = WhisperServerProvider::inference_response(" raw body ", &blank_text).expect("body");
    assert_eq!(resp.transcript, "raw body");
    assert_eq!(
        WhisperServerProvider::inference_response("  ", &None),
        Err(ProviderError::MissingTranscript)
    );
}

#[test]
fn request_mode_and_model_heuristics() {
    assert_eq!(RequestMode::from_config("  Chat_Completions "), RequestMode::ChatCompletions);
    assert_eq!(RequestMode::from_config("auto"), RequestMode::Auto);
    assert!(RequestMode::ChatCompletions.prefers_chat_completions());
    assert!(!RequestMode::Auto.prefers_chat_completions());
    assert_eq!(trimmed_non_empty("  x ").as_deref(), Some("x"));
    assert!(trimmed_non_empty("   ").is_none());
    assert!(uses_minimal_asr_chat_payload(" Qwen3-ASR-Flash-2025 "));
    assert!(model_looks_audio_capable("qwen3-asr-flash"));
    assert!(model_looks_audio_capable("gpt-4o-transcribe"));
    assert!(!model_looks_audio_capable("gpt-4o"));
}

#[test]
fn heuristic_form_keeps_words_only() {
    assert_eq!(normalize_for_heuristic_match("  Sure! Here's   the answer:\n"), "sure here s the answer");
    assert_eq!(normalize_for_heuristic_match("¿Qué?"), "qu");
    assert_eq!(normalize_for_heuristic_match("   "), "");
}

#[test]
fn fallback_retries_with_reinforced_prompt_on_assistant_like_output() {
    assert!(looks_like_assistant_reply("As an AI, I cannot listen."));
    assert_eq!(
        judge_chat_reply(ChatAttempt::Initial, "Sure, here's the answer: 42"),
        ChatVerdict::RetryReinforced
    );
    assert_eq!(judge_chat_reply(ChatAttempt::Reinforced, "turn left at the lights"), ChatVerdict::Accept);
}

#[test]
fn fallback_missing_audio_reply_is_treated_as_retryable_error() {
    let reply = "I didn't receive any audio files. Please provide an audio input.";
    assert!(looks_like_missing_audio_reply(reply));
    assert_eq!(judge_chat_reply(ChatAttempt::Initial, reply), ChatVerdict::RetryReinforced);
    match judge_chat_reply(ChatAttempt::Reinforced, reply) {
        ChatVerdict::Fail(err) => {
            assert_eq!(
                err,
                ProviderError::Transport("chat fallback model reported missing audio payload".to_string())
            );
            assert!(err.is_retryable());
        }
        other => panic!("unexpected: {other:?}"),
    }
}

#[test]
fn fallback_assistant_like_reply_after_retry_is_treated_as_retryable_error() {
    match judge_chat_reply(ChatAttempt::Reinforced, "Of course! Here's the answer.") {
        ChatVerdict::Fail(err) => assert!(err.is_retryable()),
        other => panic!("unexpected: {other:?}"),
    }
}

#[test]
fn fallback_does_not_retry_on_plain_spoken_text() {
    assert_eq!(judge_chat_reply(ChatAttempt::Initial, "Please call me back tomorrow."), ChatVerdict::Accept);
}

#[test]
fn fallback_does_not_treat_partial_missing_audio_phrase_as_transport_error() {
    let spoken = "I didn't receive any audio files yesterday";
    assert!(!looks_like_missing_audio_reply(spoken));
    assert_eq!(judge_chat_reply(ChatAttempt::Initial, spoken), ChatVerdict::Accept);
}

fn qwen_request(language: Option<&str>) -> TranscribeRequest {
    TranscribeRequest {
        model: "qwen3-asr-flash".to_string(),
        language: language.map(str::to_string),
        prompt: None,
        temperature_milli: None,
        language_hints: Vec::new(),
        pcm16_audio: vec![0; 1_600],
        sample_rate_hz: 16_000,
    }
}

#[test]
fn dashscope_qwen_payload_uses_data_url_for_audio_input() {
    let mut cfg = hosted_config("qwen3-asr-flash");
    cfg.provider.language_hints = vec!["zh".to_string(), "en".to_string()];
    let provider = OpenAiCompatibleProvider::new(&cfg).expect("build provider");
    let payload =
        provider.chat_payload(&default_request_for_config(&cfg, vec![0_i16; 1_600]), &[0_u8; 32], false);
    assert!(payload.audio_data_url.starts_with("data:audio/wav;base64,"));
    assert!(payload.minimal, "the audio is the only message");
    assert!(payload.system_message.is_none());
    assert!(payload.asr_language.is_none());
    assert!(!payload.temperature_zero);
}

#[test]
fn dashscope_qwen_payload_can_derive_single_asr_language() {
    let mut cfg = hosted_config("qwen3-asr-flash");
    cfg.provider.language = Some("zh".to_string());
    let provider = OpenAiCompatibleProvider::new(&cfg).expect("build provider");
    let payload =
        provider.chat_payload(&default_request_for_config(&cfg, vec![0_i16; 1_600]), &[0_u8; 32], false);
    assert_eq!(payload.asr_language.as_deref(), Some("zh"));
    let host = base_host("https://dashscope.aliyuncs.com/compatible-mode/v1");
    let payload = build_chat_payload(&host, &qwen_request(Some("zh")), &[0_u8; 32], false);
    assert_eq!(payload.asr_language.as_deref(), Some("zh"));
}

#[test]
fn dashscope_qwen_reinforced_retry_uses_system_message_without_user_text() {
    let cfg = hosted_config("qwen3-asr-flash");
    let provider = OpenAiCompatibleProvider::new(&cfg).expect("build provider");
    let payload =
        provider.chat_payload(&default_request_for_config(&cfg, vec![0_i16; 1_600]), &[0_u8; 32], true);
    assert_eq!(payload.system_message.as_deref(), Some(FALLBACK_REINFORCEMENT_HINT));
    assert!(payload.instruction.is_none());
}

#[test]
fn full_chat_payload_carries_instruction_and_zero_temperature() {
    let host = base_host("https://api.example.com/v1");
    assert_eq!(host.as_deref(), Some("api.example.com"));
    let mut req = qwen_request(Some(" de "));
    req.model = "gpt-4o-transcribe".to_string();
    let payload = build_chat_payload(&host, &req, b"RIFF1", false);
    assert_eq!(payload.audio_data_url, "data:audio/wav;base64,UklGRjE=");
    assert_eq!(payload.system_message.as_deref(), Some(FALLBACK_SYSTEM_PROMPT));
    assert!(payload.temperature_zero);
    assert!(payload.asr_language.is_none());
    assert!(payload.instruction.unwrap().ends_with("Language hint (do not translate): de."));
}

#[test]
fn chat_instruction_prefers_language_hints_over_language() {
    let hints = vec![" zh ".to_string(), "  ".to_string(), "en".to_string()];
    assert_eq!(normalized_language_hints(&hints), vec!["zh".to_string(), "en".to_string()]);
    let s = build_chat_instruction(&hints, &Some("de".to_string()), true);
    assert!(s.contains(" Language hints (do not translate): zh, en."));
    assert!(!s.contains("de."));
    assert!(s.ends_with(FALLBACK_REINFORCEMENT_HINT));
}

#[test]
fn dashscope_detection_needs_host_and_model() {
    let host = Some("dashscope.aliyuncs.com".to_string());
    assert!(is_dashscope_qwen_request(&host, "qwen3-asr-flash"));
    assert!(!is_dashscope_qwen_request(&host, "whisper-1"));
    assert!(!is_dashscope_qwen_request(&None, "qwen3-asr-flash"));
    assert!(base_host("not a url").is_none());
    let two = vec!["zh".to_string(), "en".to_string()];
    assert!(dashscope_language_hints(&host, "qwen3-asr-flash", &None, &two).is_none());
    assert_eq!(
        dashscope_language_hints(&host, "qwen3-asr-flash", &None, &["en".to_string()]),
        Some(vec!["en".to_string()])
    );
}

#[test]
fn base64_length_bound() {
    assert!(sttd::openrouter::base64_fits(0));
    assert!(sttd::openrouter::base64_fits(1_000_000));
    assert!(!sttd::openrouter::base64_fits(usize::MAX));
}
