use sttd::config::{
    parse_env_assignment, parse_env_file, Config, ConfigError, EnvVars, GuardrailsConfig, PathEnv,
    VadConfig,
};

/// The configuration of the sample file used by these tests: a hosted
/// provider without key, temporary paths, and otherwise the defaults.
fn base_config() -> Config {
    let mut cfg = Config::default();
    cfg.provider.kind = "openrouter".to_string();
    cfg.provider.model = "openai/whisper-1".to_string();
    cfg.provider.env_file_path = "/tmp/non-existent.env".to_string();
    cfg.audio.sample_rate_hz = 16_000;
    cfg.audio.channels = 1;
    cfg.audio.frame_ms = 20;
    cfg.audio.max_utterance_ms = 30_000;
    cfg.audio.max_payload_bytes = 1_500_000;
    cfg.vad = VadConfig {
        start_threshold_millidbfs: -38_000,
        end_silence_ms: 700,
        min_speech_ms: 250,
        max_utterance_ms: 30_000,
    };
    cfg.guardrails = GuardrailsConfig {
        max_requests_per_minute: 30,
        max_continuous_minutes: 30,
        provider_error_cooldown_seconds: 10,
        monthly_soft_spend_limit_micro_usd: None,
        estimated_request_cost_micro_usd: 0,
        allow_over_limit: false,
    };
    cfg.injection.output_mode = "type".to_string();
    cfg.injection.clipboard_autopaste = false;
    cfg.debug_wav.enabled = false;
    cfg.debug_wav.directory = "/tmp/sttd".to_string();
    cfg.debug_wav.ttl_hours = 24;
    cfg.debug_wav.size_cap_mb = 100;
    cfg.ipc.socket_path = "/tmp/sttd.sock".to_string();
    cfg.ipc.socket_dir_mode = 448;
    cfg.ipc.socket_file_mode = 384;
    cfg.privacy.redact_transcript_in_logs = true;
    cfg.privacy.persist_transcripts = false;
    cfg
}

fn env_of(pairs: &[(&str, &str)]) -> EnvVars {
    let mut env = EnvVars::new();
    for (k, v) in pairs {
        env.insert(k.to_string(), v.to_string());
    }
    env
}

fn no_path_env() -> PathEnv {
    PathEnv { xdg_config_home: None, xdg_cache_home: None, xdg_runtime_dir: None, home: None }
}

#[test]
fn missing_api_key_fails_validation() {
    let env = EnvVars::new();
    let result = base_config().finish_load(&env, &EnvVars::new(), true);
    assert!(matches!(result, Err(ConfigError::MissingApiKey)));
}

#[test]
fn api_key_env_override_is_applied() {
    let env = env_of(&[("STTD_OPENROUTER_API_KEY", "sk-test-from-env")]);
    let cfg = base_config()
        .finish_load(&env, &EnvVars::new(), true)
        .expect("config should load with env key");
    assert_eq!(cfg.provider.openrouter_api_key.as_deref(), Some("sk-test-from-env"));
}

#[test]
fn invalid_injection_mode_is_rejected() {
    let mut raw = base_config();
    raw.injection.output_mode = "unknown".to_string();
    let env = env_of(&[("STTD_OPENROUTER_API_KEY", "sk-test-from-env")]);
    let err = raw.finish_load(&env, &EnvVars::new(), true).expect_err("must fail");
    match err {
        ConfigError::InvalidValue { field, .. } => {
            assert_eq!(field, "injection.output_mode");
        }
        other => panic!("unexpected error: {other:?}"),
    }
}

#[test]
fn control_client_load_does_not_require_api_key() {
    let cfg = base_config()
        .finish_load(&EnvVars::new(), &EnvVars::new(), false)
        .expect("control client config should load without api key");
    assert!(cfg.socket_path(&no_path_env()).contains("sttd.sock"));
}

#[test]
fn env_assignment_parser_handles_export_comments_and_equals() {
    let parsed = parse_env_assignment("export STTD_OPENROUTER_API_KEY=sk-test=with-equals # c")
        .expect("parse export assignment");
    assert_eq!(parsed.0, "STTD_OPENROUTER_API_KEY");
    assert_eq!(parsed.1, "sk-test=with-equals");

    let parsed = parse_env_assignment("FOO=\"bar=baz\"").expect("parse quoted");
    assert_eq!(parsed.1, "bar=baz");
}

#[test]
fn env_assignment_parser_rejects_lines_without_key() {
    assert!(parse_env_assignment("=value").is_none());
    assert!(parse_env_assignment("no assignment here").is_none());
}

#[test]
fn env_file_skips_comments_and_blank_lines_and_last_binding_wins() {
    let env = parse_env_file("# comment\n\nA=1\nexport B=two # note\nA=3\n");
    assert_eq!(env.get("A").as_deref(), Some("3"));
    assert_eq!(env.get("B").as_deref(), Some("two"));
    assert!(env.get("C").is_none());
}

#[test]
fn process_environment_wins_over_env_file() {
    let runtime = env_of(&[("STTD_OPENROUTER_MODEL", "from-process")]);
    let file = env_of(&[
        ("STTD_OPENROUTER_MODEL", "from-file"),
        ("STTD_OPENROUTER_API_KEY", "sk-file"),
    ]);
    let cfg = base_config().finish_load(&runtime, &file, true).expect("loads");
    assert_eq!(cfg.provider.model, "from-process");
    assert_eq!(cfg.provider.openrouter_api_key.as_deref(), Some("sk-file"));
}

#[test]
fn unreadable_numeric_override_names_the_field_and_leaves_config_unchanged() {
    let runtime = env_of(&[("STTD_WHISPER_BEAM_SIZE", "many")]);
    let mut cfg = base_config();
    let err = cfg.apply_env_overrides(&runtime, &EnvVars::new()).expect_err("must fail");
    match err {
        ConfigError::InvalidValue { field, reason } => {
            assert_eq!(field, "provider.whisper_beam_size");
            assert_eq!(reason, "`many` is not a valid unsigned integer");
        }
        other => panic!("unexpected error: {other:?}"),
    }
    assert_eq!(cfg.provider.whisper_beam_size, Config::default().provider.whisper_beam_size);
}

#[test]
fn unreadable_bool_override_is_reported() {
    let runtime = env_of(&[("STTD_WHISPER_NO_FALLBACK", "maybe")]);
    let err = base_config()
        .finish_load(&runtime, &EnvVars::new(), false)
        .expect_err("must fail");
    match err {
        ConfigError::InvalidValue { field, reason } => {
            assert_eq!(field, "provider.whisper_no_fallback");
            assert_eq!(reason, "`maybe` is not a valid bool");
        }
        other => panic!("unexpected error: {other:?}"),
    }
}

#[test]
fn provider_kind_override_is_lowercased() {
    let runtime = env_of(&[("STTD_PROVIDER_KIND", "Whisper_Local")]);
    let cfg = base_config().finish_load(&runtime, &EnvVars::new(), true).expect("loads");
    assert_eq!(cfg.provider.kind, "whisper_local");
}

#[test]
fn validation_reports_the_first_broken_rule() {
    let mut cfg = base_config();
    cfg.provider.kind = "local".to_string();
    match cfg.validate(false) {
        Err(ConfigError::InvalidValue { field, reason }) => {
            assert_eq!(field, "provider.kind");
            assert_eq!(reason, "allowed values: openai_compatible|openrouter|whisper_local|whisper_server");
        }
        other => panic!("unexpected result: {other:?}"),
    }

    let mut cfg = base_config();
    cfg.provider.kind = "whisper_server".to_string();
    cfg.provider.base_url = "   ".to_string();
    match cfg.validate(true) {
        Err(ConfigError::InvalidValue { field, .. }) => assert_eq!(field, "provider.base_url"),
        other => panic!("unexpected result: {other:?}"),
    }

    let mut cfg = base_config();
    cfg.provider.openrouter_api_key = Some("sk".to_string());
    cfg.vad.min_speech_ms = 40_000;
    match cfg.validate(true) {
        Err(ConfigError::InvalidValue { field, reason }) => {
            assert_eq!(field, "vad.min_speech_ms");
            assert_eq!(reason, "must be <= vad.max_utterance_ms");
        }
        other => panic!("unexpected result: {other:?}"),
    }
}

#[test]
fn openai_compatible_kind_with_canonical_api_key_is_accepted() {
    let mut cfg = base_config();
    cfg.provider.kind = "openai_compatible".to_string();
    cfg.provider.base_url = "https://dashscope.aliyuncs.com/compatible-mode/v1".to_string();
    cfg.provider.model = "qwen3-asr-flash".to_string();
    cfg.provider.request_mode = "chat_completions".to_string();
    assert!(matches!(cfg.validate(true), Err(ConfigError::MissingApiKey)));
    cfg.provider.api_key = Some("sk-test".to_string());
    assert!(cfg.validate(true).is_ok());
    cfg.provider.kind = " OpenRouter ".to_string();
    assert!(cfg.validate(true).is_ok());
    let d = Config::default();
    assert_eq!(d.provider.request_mode, "auto");
    assert!(d.provider.api_key.is_none());
    assert!(d.provider.language_hints.is_empty());
}

#[test]
fn defaults_keep_transcripts_private_and_debug_wav_off() {
    let cfg = Config::default();
    assert!(!cfg.privacy.persist_transcripts);
    assert!(cfg.privacy.redact_transcript_in_logs);
    assert!(!cfg.debug_wav.enabled);
}

#[test]
fn path_templates_expand_from_the_environment() {
    let env = PathEnv {
        xdg_config_home: Some("/home/u/.config".to_string()),
        xdg_cache_home: None,
        xdg_runtime_dir: Some("/run/user/1000".to_string()),
        home: Some("/home/u".to_string()),
    };
    let mut cfg = base_config();
    cfg.ipc.socket_path = "${XDG_RUNTIME_DIR}/sttd/sttd.sock".to_string();
    cfg.debug_wav.directory = "${XDG_CACHE_HOME:-~/.cache}/sttd/debug-wav".to_string();
    assert_eq!(cfg.socket_path(&env), "/run/user/1000/sttd/sttd.sock");
    assert_eq!(cfg.debug_wav_dir(&env), "/home/u/.cache/sttd/debug-wav");
    assert_eq!(sttd::config::default_config_path(&env), "/home/u/.config/sttd/sttd.toml");
    assert_eq!(
        sttd::config::default_config_path(&no_path_env()),
        "~/.config/sttd/sttd.toml"
    );
}
