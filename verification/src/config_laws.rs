//! Properties of configuration loading that span several settings or calls,
//! stated over the specifications that `config` gives its functions.
use vstd::prelude::*;

use crate::config::{
    env_file_entries, env_lookup, first_issue, overridden, override_failure, parse_assignment,
    picked, ConfigIssue, ConfigView, ENV_API_KEY, ENV_MODEL,
};
use crate::text::{all_digits, digits_value, lower_seq, parse_u16_spec, trim, unsigned_digits};

verus! {

/// A variable that the process environment sets is taken from there,
/// whatever the environment file says.
pub proof fn law_process_environment_wins(
    c: ConfigView,
    rt: Seq<(Seq<char>, Seq<char>)>,
    file_a: Seq<(Seq<char>, Seq<char>)>,
    file_b: Seq<(Seq<char>, Seq<char>)>,
    key: Seq<char>,
)
    requires
        env_lookup(rt, key) is Some,
    ensures
        picked(rt, file_a, key) == env_lookup(rt, key),
        picked(rt, file_a, key) == picked(rt, file_b, key),
        key == ENV_MODEL@ ==> overridden(c, rt, file_a).provider.model == overridden(
            c,
            rt,
            file_b,
        ).provider.model,
        key == ENV_API_KEY@ ==> overridden(c, rt, file_a).provider.openrouter_api_key
            == env_lookup(rt, key),
{
}

/// Applying the environment overrides twice gives what applying them once
/// gives.
pub proof fn law_overrides_are_idempotent(
    c: ConfigView,
    rt: Seq<(Seq<char>, Seq<char>)>,
    file: Seq<(Seq<char>, Seq<char>)>,
)
    ensures
        overridden(overridden(c, rt, file), rt, file) == overridden(c, rt, file),
{
    let once = overridden(c, rt, file);
    let twice = overridden(once, rt, file);
    match picked(rt, file, crate::config::ENV_PROVIDER_KIND@) {
        Some(v) => {
            assert(lower_seq(lower_seq(v)) =~= lower_seq(v));
        },
        None => {},
    }
    assert(twice.provider == once.provider);
    assert(twice.audio == once.audio);
}

/// The API key is the only rule that depends on whether the key is
/// required: without the requirement no missing key is reported, and a
/// configuration that passes with it passes without it.
pub proof fn law_api_key_rule_is_the_only_difference(c: ConfigView)
    ensures
        !(first_issue(c, false) matches Some(ConfigIssue::MissingApiKey)),
        first_issue(c, true) is None ==> first_issue(c, false) is None,
        !(first_issue(c, true) matches Some(ConfigIssue::MissingApiKey)) ==> first_issue(c, true)
            == first_issue(c, false),
{
}

/// Each text setting that the environment can override takes the value
/// bound to its variable (the process environment first, then the
/// environment file) and keeps its configured value where neither binds
/// it; the input device, the model, the language, the base URL, the
/// whisper command and model path and the API key are such settings. The
/// sections that no variable names are left as they were.
pub proof fn law_text_overrides_take_the_bound_value(
    c: ConfigView,
    rt: Seq<(Seq<char>, Seq<char>)>,
    file: Seq<(Seq<char>, Seq<char>)>,
)
    ensures
        ({
            let o = overridden(c, rt, file);
            let dev = picked(rt, file, "STTD_INPUT_DEVICE"@);
            let model = picked(rt, file, "STTD_OPENROUTER_MODEL"@);
            let lang = picked(rt, file, "STTD_OPENROUTER_LANGUAGE"@);
            let base = picked(rt, file, "STTD_PROVIDER_BASE_URL"@);
            let cmd = picked(rt, file, "STTD_WHISPER_CMD"@);
            let path = picked(rt, file, "STTD_WHISPER_MODEL_PATH"@);
            let key = picked(rt, file, "STTD_OPENROUTER_API_KEY"@);
            &&& (dev matches Some(v) ==> o.audio.input_device == Some(v))
            &&& (dev is None ==> o.audio.input_device == c.audio.input_device)
            &&& (model matches Some(v) ==> o.provider.model == v)
            &&& (model is None ==> o.provider.model == c.provider.model)
            &&& (lang matches Some(v) ==> o.provider.language == Some(v))
            &&& (lang is None ==> o.provider.language == c.provider.language)
            &&& (base matches Some(v) ==> o.provider.base_url == v)
            &&& (base is None ==> o.provider.base_url == c.provider.base_url)
            &&& (cmd matches Some(v) ==> o.provider.whisper_cmd == v)
            &&& (cmd is None ==> o.provider.whisper_cmd == c.provider.whisper_cmd)
            &&& (path matches Some(v) ==> o.provider.whisper_model_path == Some(v))
            &&& (path is None ==> o.provider.whisper_model_path == c.provider.whisper_model_path)
            &&& (key matches Some(v) ==> o.provider.openrouter_api_key == Some(v))
            &&& (key is None ==> o.provider.openrouter_api_key == c.provider.openrouter_api_key)
            &&& o.audio.sample_rate_hz == c.audio.sample_rate_hz
            &&& o.audio.channels == c.audio.channels
            &&& o.audio.frame_ms == c.audio.frame_ms
            &&& o.audio.max_utterance_ms == c.audio.max_utterance_ms
            &&& o.audio.max_payload_bytes == c.audio.max_payload_bytes
            &&& o.vad == c.vad
            &&& o.guardrails == c.guardrails
            &&& o.injection == c.injection
            &&& o.debug_wav == c.debug_wav
            &&& o.ipc == c.ipc
            &&& o.privacy == c.privacy
            &&& o.playback == c.playback
        }),
{
}

/// Whether `c` keeps every rule of a valid configuration, with the API key
/// of the hosted provider required where `require_api_key` holds.
pub open spec fn keeps_every_rule(c: ConfigView, require_api_key: bool) -> bool {
    let kind = lower_seq(trim(c.provider.kind));
    let hosted = kind == "openai_compatible"@ || kind == "openrouter"@;
    &&& (hosted || kind == "whisper_local"@ || kind == "whisper_server"@)
    &&& hosted ==> trim(c.provider.model).len() > 0
    &&& hosted && require_api_key ==> ((c.provider.api_key matches Some(k) && trim(k).len() > 0)
        || (c.provider.openrouter_api_key matches Some(k) && trim(k).len() > 0))
    &&& kind == "whisper_local"@ ==> trim(c.provider.whisper_cmd).len() > 0
        && c.provider.whisper_beam_size > 0 && c.provider.whisper_best_of > 0
    &&& kind == "whisper_server"@ ==> trim(c.provider.base_url).len() > 0
    &&& c.audio.sample_rate_hz > 0 && c.audio.channels > 0 && c.audio.frame_ms > 0
    &&& c.vad.min_speech_ms <= c.vad.max_utterance_ms && c.vad.end_silence_ms > 0
    &&& c.guardrails.max_requests_per_minute > 0 && c.guardrails.max_continuous_minutes > 0
    &&& (c.guardrails.monthly_soft_spend_limit_micro_usd matches Some(l) ==> l > 0)
    &&& c.guardrails.estimated_request_cost_micro_usd >= 0
    &&& (c.injection.output_mode == "type"@ || c.injection.output_mode == "clipboard"@
        || c.injection.output_mode == "clipboard_autopaste"@)
}

/// Validation passes exactly on the configurations that keep every rule:
/// a known provider kind (any case, surrounding spaces ignored), a model
/// and (where required) an API key under either name for the hosted
/// provider, a command and positive beam size and best-of for the local
/// whisper, a base URL for the whisper server, positive audio and
/// guardrail settings, a minimal speech no longer than the longest
/// utterance, and a known output mode. An unknown provider kind is the
/// first thing reported, and a missing key is reported as such.
pub proof fn law_validation_accepts_exactly_the_valid_configurations(c: ConfigView, require_api_key: bool)
    ensures
        first_issue(c, require_api_key) is None <==> keeps_every_rule(c, require_api_key),
        ({
            let kind = lower_seq(trim(c.provider.kind));
            !(kind == "openai_compatible"@ || kind == "openrouter"@ || kind == "whisper_local"@
                || kind == "whisper_server"@) ==> first_issue(c, require_api_key) == Some(
                ConfigIssue::Invalid(
                    "provider.kind"@,
                    "allowed values: openai_compatible|openrouter|whisper_local|whisper_server"@,
                ),
            )
        }),
        ({
            let kind = lower_seq(trim(c.provider.kind));
            (kind == "openai_compatible"@ || kind == "openrouter"@) && trim(c.provider.model).len()
                > 0 && require_api_key && !(c.provider.api_key matches Some(k) && trim(k).len() > 0)
                && !(c.provider.openrouter_api_key matches Some(k) && trim(k).len() > 0)
                ==> first_issue(c, require_api_key) == Some(ConfigIssue::MissingApiKey)
        }),
{
}

/// The whisper settings read from the environment as numbers or switches:
/// a readable value is taken, an absent one keeps the configured setting,
/// and an unreadable one (not an unsigned 16-bit integer after an optional
/// `+`, or not exactly `true` or `false`) makes the whole override fail,
/// naming a field. The value of a number is the one its digits spell.
pub proof fn law_numeric_and_switch_overrides(
    c: ConfigView,
    rt: Seq<(Seq<char>, Seq<char>)>,
    file: Seq<(Seq<char>, Seq<char>)>,
)
    ensures
        ({
            let o = overridden(c, rt, file);
            let threads = picked(rt, file, "STTD_WHISPER_THREADS"@);
            let beam = picked(rt, file, "STTD_WHISPER_BEAM_SIZE"@);
            let best = picked(rt, file, "STTD_WHISPER_BEST_OF"@);
            let nofb = picked(rt, file, "STTD_WHISPER_NO_FALLBACK"@);
            let nots = picked(rt, file, "STTD_WHISPER_NO_TIMESTAMPS"@);
            &&& (beam is Some && all_digits(beam->0) && beam->0.len() > 0 && digits_value(beam->0)
                <= u16::MAX) ==> o.provider.whisper_beam_size == digits_value(beam->0)
            &&& (best is Some && all_digits(best->0) && best->0.len() > 0 && digits_value(best->0)
                <= u16::MAX) ==> o.provider.whisper_best_of == digits_value(best->0)
            &&& (threads is Some && all_digits(threads->0) && threads->0.len() > 0 && digits_value(threads->0)
                <= u16::MAX) ==> o.provider.whisper_threads == Some(digits_value(threads->0) as u16)
            &&& beam is None ==> o.provider.whisper_beam_size == c.provider.whisper_beam_size
            &&& best is None ==> o.provider.whisper_best_of == c.provider.whisper_best_of
            &&& threads is None ==> o.provider.whisper_threads == c.provider.whisper_threads
            &&& nofb == Some("true"@) ==> o.provider.whisper_no_fallback
            &&& nofb == Some("false"@) ==> !o.provider.whisper_no_fallback
            &&& nofb is None ==> o.provider.whisper_no_fallback == c.provider.whisper_no_fallback
            &&& nots == Some("true"@) ==> o.provider.whisper_no_timestamps
            &&& nots == Some("false"@) ==> !o.provider.whisper_no_timestamps
            &&& nots is None ==> o.provider.whisper_no_timestamps == c.provider.whisper_no_timestamps
            &&& (beam is Some && parse_u16_spec(beam->0) is None) ==> override_failure(rt, file) is Some
            &&& (best is Some && parse_u16_spec(best->0) is None) ==> override_failure(rt, file) is Some
            &&& (threads is Some && parse_u16_spec(threads->0) is None) ==> override_failure(rt, file) is Some
            &&& (nofb is Some && nofb->0 != "true"@ && nofb->0 != "false"@) ==> override_failure(rt, file) is Some
            &&& (nots is Some && nots->0 != "true"@ && nots->0 != "false"@) ==> override_failure(rt, file) is Some
            &&& (beam is Some && beam->0.len() > 0 && !all_digits(beam->0) && beam->0[0] != '+') ==> override_failure(rt, file) is Some
        }),
{
    reveal_strlit("true");
    reveal_strlit("false");
    assert("false"@.len() != "true"@.len());
    assert("false"@ != "true"@);
    let beam = picked(rt, file, "STTD_WHISPER_BEAM_SIZE"@);
    if let Some(v) = beam {
        if v.len() > 0 && !all_digits(v) && v[0] != '+' {
            assert(unsigned_digits(v) == v);
        }
    }
}

/// The entries of two pieces of an environment file are the entries of the
/// first followed by those of the second: each line is read on its own.
pub proof fn law_env_file_lines_are_read_one_by_one(a: Seq<Seq<char>>, b: Seq<Seq<char>>)
    ensures
        env_file_entries(a + b) == env_file_entries(a) + env_file_entries(b),
    decreases b.len(),
{
    if b.len() == 0 {
        assert(a + b =~= a);
        assert(env_file_entries(a) + env_file_entries(b) =~= env_file_entries(a));
    } else {
        law_env_file_lines_are_read_one_by_one(a, b.drop_last());
        assert((a + b).drop_last() =~= a + b.drop_last());
        assert((a + b).last() == b.last());
        let l = trim(b.last());
        if l.len() > 0 && l[0] != '#' && parse_assignment(l) is Some {
            assert(env_file_entries(a) + env_file_entries(b.drop_last()).push(parse_assignment(l)->0)
                =~= (env_file_entries(a) + env_file_entries(b.drop_last())).push(
                parse_assignment(l)->0,
            ));
        }
    }
}

/// Blank lines and lines starting with `#` (after white space) add no
/// entry.
pub proof fn law_env_file_skips_comments_and_blank_lines(lines: Seq<Seq<char>>, line: Seq<char>)
    requires
        trim(line).len() == 0 || trim(line)[0] == '#',
    ensures
        env_file_entries(lines.push(line)) == env_file_entries(lines),
{
    assert(lines.push(line).drop_last() =~= lines);
}

/// In an environment, the last binding of a name wins.
pub proof fn law_last_binding_wins(e: Seq<(Seq<char>, Seq<char>)>, key: Seq<char>, value: Seq<char>, other: (Seq<char>, Seq<char>))
    requires
        other.0 != key,
    ensures
        env_lookup(e.push((key, value)), key) == Some(value),
        env_lookup(e.push(other), key) == env_lookup(e, key),
{
    assert(e.push(other).drop_last() =~= e);
}

} // verus!
