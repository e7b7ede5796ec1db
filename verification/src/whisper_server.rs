//! The `whisper.cpp` server provider: its settings, the checks before it is
//! used and how their replies are judged, and the reading of an inference
//! reply. The HTTP exchanges are the work of the program around the library.
use vstd::prelude::*;

use crate::config::{opt_view, Config};
use crate::provider::{
    cleaned_lines, clone_opt, first_non_blank, normalize_transcript_lines, normalized_body,
    pick_non_blank, reported_body, ProviderError, TranscribeRequest, TranscribeResponse,
};
use crate::text::{
    contains, contains_str, decimal, lower_seq, lower_str, strip_trailing,
    trim, trim_end_char, trim_str, u64_to_decimal,
};

verus! {

/// The `whisper.cpp` server provider's settings.
#[derive(Debug, Clone)]
pub struct WhisperServerProvider {
    base_url: String,
    model: String,
    default_language: Option<String>,
    default_prompt: Option<String>,
    max_retries: u32,
    capability_probe: bool,
    timeout_ms: u64,
}

/// The settings as values.
pub struct WhisperServerView {
    pub base_url: Seq<char>,
    pub model: Seq<char>,
    pub default_language: Option<Seq<char>>,
    pub default_prompt: Option<Seq<char>>,
    pub max_retries: u32,
    pub capability_probe: bool,
    pub timeout_ms: u64,
}

impl View for WhisperServerProvider {
    type V = WhisperServerView;

    closed spec fn view(&self) -> WhisperServerView {
        WhisperServerView {
            base_url: self.base_url@,
            model: self.model@,
            default_language: opt_view(self.default_language),
            default_prompt: opt_view(self.default_prompt),
            max_retries: self.max_retries,
            capability_probe: self.capability_probe,
            timeout_ms: self.timeout_ms,
        }
    }
}

/// The inference endpoint under `base`.
pub open spec fn inference_url(base: Seq<char>) -> Seq<char> {
    base + "/inference"@
}

/// Whether an error reply says that the language is not supported.
pub open spec fn unsupported_language(body: Seq<char>) -> bool {
    let l = lower_seq(body);
    (contains(l, "language"@) || contains(l, "lang"@)) && (contains(l, "unsupported"@) || contains(
        l,
        "not supported"@,
    ) || contains(l, "invalid"@) || contains(l, "unknown"@))
}

/// The check that runs before the provider is used.
#[derive(Debug, Clone, Copy, PartialEq, Eq, Structural)]
pub enum StartupCheck {
    /// A short silent inference.
    InferenceProbe,
    /// A plain request to the base URL.
    BaseEndpoint,
}

/// A reply of the inference endpoint, fields possibly absent.
#[derive(Debug, Clone)]
pub struct WhisperServerReply {
    pub text: Option<String>,
    pub transcript: Option<String>,
}

/// The transcript in an inference reply: the cleaned `text` or
/// `transcript` field where the reply parsed and holds one, else the
/// cleaned body itself.
pub open spec fn reply_transcript(body: Seq<char>, parsed: Option<WhisperServerReply>) -> Option<
    Seq<char>,
> {
    let from_fields = match parsed {
        Some(p) => match p.text {
            Some(t) => cleaned_lines(t@),
            None => match p.transcript {
                Some(t) => cleaned_lines(t@),
                None => None,
            },
        },
        None => None,
    };
    match from_fields {
        Some(t) => Some(t),
        None => cleaned_lines(body),
    }
}

/// The outcome of the inference probe that answered `status` and `body`.
pub open spec fn probe_verdict(v: WhisperServerView, status: u16, body: Seq<char>) -> Result<
    (),
    Seq<char>,
> {
    let nb = reported_body(body);
    if 200 <= status <= 299 {
        Ok(())
    } else if 400 <= status <= 499 && unsupported_language(nb) {
        Err(
            "whisper_server inference endpoint rejected configured language '"@ + match v.default_language {
                Some(l) => l,
                None => "<unspecified>"@,
            } + "': "@ + nb,
        )
    } else if status == 404 || status == 405 {
        Err(
            "whisper_server inference endpoint '"@ + inference_url(v.base_url) + "' is unavailable (status "@
                + decimal(status as nat) + "): "@ + nb,
        )
    } else {
        Err(
            "whisper_server startup inference probe failed with status "@ + decimal(status as nat)
                + ": "@ + nb,
        )
    }
}

impl WhisperServerProvider {
    /// The provider that `config` describes; the base URL must be set.
    pub fn new(config: &Config) -> (r: Result<Self, ProviderError>)
        ensures
            strip_trailing(trim(config@.provider.base_url), '/').len() > 0 ==> (r matches Ok(w)
                && w@.base_url == strip_trailing(trim(config@.provider.base_url), '/')
                && w@.model == config@.provider.model
                && w@.default_language == config@.provider.language
                && w@.default_prompt == config@.provider.prompt
                && w@.max_retries == config@.provider.max_retries
                && w@.capability_probe == config@.provider.capability_probe
                && w@.timeout_ms == config@.provider.timeout_ms),
            strip_trailing(trim(config@.provider.base_url), '/').len() == 0 ==> (r matches Err(
                ProviderError::Misconfigured(m),
            ) && m@ == "provider.base_url must be set when provider.kind=whisper_server"@),
    {
        let t = trim_str(config.provider.base_url.as_str());
        let base_url = trim_end_char(t.as_str(), '/');
        if base_url.as_str().unicode_len() == 0 {
            return Err(
                ProviderError::Misconfigured(
                    "provider.base_url must be set when provider.kind=whisper_server".to_string(),
                ),
            );
        }
        Ok(WhisperServerProvider {
            base_url,
            model: config.provider.model.clone(),
            default_language: clone_opt(&config.provider.language),
            default_prompt: clone_opt(&config.provider.prompt),
            max_retries: config.provider.max_retries,
            capability_probe: config.provider.capability_probe,
            timeout_ms: config.provider.timeout_ms,
        })
    }

    /// The base URL.
    pub fn base_url(&self) -> (s: &str)
        ensures
            s@ == self@.base_url,
    {
        self.base_url.as_str()
    }

    /// The retries allowed per utterance.
    pub fn max_retries(&self) -> (n: u32)
        ensures
            n == self@.max_retries,
    {
        self.max_retries
    }

    /// Milliseconds that one HTTP exchange may take.
    pub fn timeout_ms(&self) -> (t: u64)
        ensures
            t == self@.timeout_ms,
    {
        self.timeout_ms
    }

    /// The inference endpoint.
    pub fn inference_endpoint(&self) -> (s: String)
        ensures
            s@ == inference_url(self@.base_url),
    {
        let mut s = self.base_url.clone();
        s.append("/inference");
        s
    }

    /// The language of `request`, else the configured one; blank ones are
    /// skipped.
    pub fn resolve_language(&self, request: &TranscribeRequest) -> (r: Option<String>)
        ensures
            opt_view(r) == first_non_blank(opt_view(request.language), self@.default_language),
    {
        pick_non_blank(&request.language, &self.default_language)
    }

    /// The prompt of `request`, else the configured one; blank ones are
    /// skipped.
    pub fn resolve_prompt(&self, request: &TranscribeRequest) -> (r: Option<String>)
        ensures
            opt_view(r) == first_non_blank(opt_view(request.prompt), self@.default_prompt),
    {
        pick_non_blank(&request.prompt, &self.default_prompt)
    }

    /// The request of the startup probe: a tenth of a second of silence at
    /// 16 kHz, in the configured model and language.
    pub fn probe_request(&self) -> (r: TranscribeRequest)
        ensures
            r.model@ == self@.model,
            opt_view(r.language) == self@.default_language,
            r.prompt is None,
            r.temperature_milli is None,
            r.language_hints@.len() == 0,
            r.pcm16_audio@ == Seq::new(1600, |i: int| 0i16),
            r.sample_rate_hz == 16_000,
    {
        let mut audio: Vec<i16> = Vec::new();
        let mut i: usize = 0;
        while i < 1600
            invariant
                i <= 1600,
                audio@ == Seq::new(i as nat, |k: int| 0i16),
            decreases 1600 - i,
        {
            audio.push(0);
            i = i + 1;
            assert(audio@ =~= Seq::new(i as nat, |k: int| 0i16));
        }
        TranscribeRequest {
            model: self.model.clone(),
            language: clone_opt(&self.default_language),
            prompt: None,
            temperature_milli: None,
            language_hints: Vec::new(),
            pcm16_audio: audio,
            sample_rate_hz: 16_000,
        }
    }

    /// The check to run before use; a blank language setting is refused.
    pub fn startup_check(&self) -> (r: Result<StartupCheck, ProviderError>)
        ensures
            (self@.default_language matches Some(l) && trim(l).len() == 0) ==> (r matches Err(
                ProviderError::IncompatibleModel(m),
            ) && m@ == "language must be non-empty when provided"@),
            !(self@.default_language matches Some(l) && trim(l).len() == 0) ==> r
                == Ok::<StartupCheck, ProviderError>(
                if self@.capability_probe {
                    StartupCheck::InferenceProbe
                } else {
                    StartupCheck::BaseEndpoint
                },
            ),
    {
        if let Err(e) = crate::provider::check_language_setting(&self.default_language) {
            return Err(e);
        }
        if self.capability_probe {
            Ok(StartupCheck::InferenceProbe)
        } else {
            Ok(StartupCheck::BaseEndpoint)
        }
    }

    /// Whether an error reply says that the language is not supported.
    pub fn looks_like_unsupported_language_error(body: &str) -> (b: bool)
        ensures
            b == unsupported_language(body@),
    {
        let l = lower_str(body);
        let s = l.as_str();
        (contains_str(s, "language") || contains_str(s, "lang")) && (contains_str(s, "unsupported")
            || contains_str(s, "not supported") || contains_str(s, "invalid") || contains_str(
            s,
            "unknown",
        ))
    }

    /// The outcome of the inference probe that answered `status` and
    /// `body`: success, a refused language, a missing endpoint, or another
    /// failure.
    pub fn probe_outcome(&self, status: u16, body: String) -> (r: Result<(), ProviderError>)
        ensures
            probe_verdict(self@, status, body@) is Ok ==> r is Ok,
            probe_verdict(self@, status, body@) matches Err(m) ==> (r matches Err(e) && match e {
                ProviderError::IncompatibleModel(x) => 400 <= status <= 499 && unsupported_language(
                    reported_body(body@),
                ) && x@ == m,
                ProviderError::DependencyUnavailable(x) => !(400 <= status <= 499
                    && unsupported_language(reported_body(body@))) && x@ == m,
                _ => false,
            }),
    {
        if 200 <= status && status <= 299 {
            return Ok(());
        }
        let nb = normalized_body(body);
        if 400 <= status && status <= 499 && Self::looks_like_unsupported_language_error(
            nb.as_str(),
        ) {
            let mut m = "whisper_server inference endpoint rejected configured language '".to_string();
            match &self.default_language {
                Some(l) => m.append(l.as_str()),
                None => m.append("<unspecified>"),
            }
            m.append("': ");
            m.append(nb.as_str());
            return Err(ProviderError::IncompatibleModel(m));
        }
        if status == 404 || status == 405 {
            let mut m = "whisper_server inference endpoint '".to_string();
            m.append(self.inference_endpoint().as_str());
            m.append("' is unavailable (status ");
            m.append(u64_to_decimal(status as u64).as_str());
            m.append("): ");
            m.append(nb.as_str());
            return Err(ProviderError::DependencyUnavailable(m));
        }
        let mut m = "whisper_server startup inference probe failed with status ".to_string();
        m.append(u64_to_decimal(status as u64).as_str());
        m.append(": ");
        m.append(nb.as_str());
        Err(ProviderError::DependencyUnavailable(m))
    }

    /// The outcome of the request to the base URL that answered `status`
    /// and `body`.
    pub fn base_check_outcome(&self, status: u16, body: String) -> (r: Result<(), ProviderError>)
        ensures
            200 <= status <= 299 ==> r is Ok,
            !(200 <= status <= 299) ==> (r matches Err(ProviderError::DependencyUnavailable(m))
                && m@ == "whisper_server base endpoint '"@ + self@.base_url + "' returned status "@
                + decimal(status as nat) + " during startup validation: "@ + reported_body(body@)),
    {
        if 200 <= status && status <= 299 {
            return Ok(());
        }
        let nb = normalized_body(body);
        let mut m = "whisper_server base endpoint '".to_string();
        m.append(self.base_url.as_str());
        m.append("' returned status ");
        m.append(u64_to_decimal(status as u64).as_str());
        m.append(" during startup validation: ");
        m.append(nb.as_str());
        Err(ProviderError::DependencyUnavailable(m))
    }

    /// The transcript that whisper returned: lines trimmed, blank lines
    /// dropped, `None` where nothing is left.
    pub fn normalize_transcript(raw: &str) -> (r: Option<String>)
        ensures
            opt_view(r) == cleaned_lines(raw@),
    {
        normalize_transcript_lines(raw)
    }

    /// The response for a successful inference reply `body`, with its JSON
    /// fields where it parsed; `MissingTranscript` where it holds nothing.
    pub fn inference_response(body: &str, parsed: &Option<WhisperServerReply>) -> (r: Result<
        TranscribeResponse,
        ProviderError,
    >)
        ensures
            reply_transcript(body@, *parsed) is None ==> r == Err::<
                TranscribeResponse,
                ProviderError,
            >(ProviderError::MissingTranscript),
            reply_transcript(body@, *parsed) matches Some(t) ==> (r matches Ok(resp)
                && resp.transcript@ == t && resp.confidence_bits is None && resp.segments@.len()
                == 0),
    {
        let from_fields = match parsed {
            Some(p) => match &p.text {
                Some(t) => normalize_transcript_lines(t.as_str()),
                None => match &p.transcript {
                    Some(t) => normalize_transcript_lines(t.as_str()),
                    None => None,
                },
            },
            None => None,
        };
        let chosen = match from_fields {
            Some(t) => Some(t),
            None => normalize_transcript_lines(body),
        };
        match chosen {
            Some(t) => Ok(TranscribeResponse { transcript: t, confidence_bits: None, segments: Vec::new() }),
            None => Err(ProviderError::MissingTranscript),
        }
    }
}

/// The startup probe succeeds exactly on a 2xx status. Otherwise a 4xx reply
/// whose body, in any letter case, speaks of the language ("language" or
/// "lang") and calls it unsupported, not supported, invalid or unknown is a
/// refusal of the configured language; a missing endpoint (404, 405) names
/// the inference URL; anything else is reported with its status.
pub proof fn law_probe_verdict_by_status(v: WhisperServerView, status: u16, body: Seq<char>)
    ensures
        probe_verdict(v, status, body) is Ok <==> 200 <= status <= 299,
        ({
            let l = lower_seq(reported_body(body));
            (contains(l, "language"@) || contains(l, "lang"@)) && (contains(l, "unsupported"@)
                || contains(l, "not supported"@) || contains(l, "invalid"@) || contains(
                l,
                "unknown"@,
            ))
        }) <==> unsupported_language(reported_body(body)),
        400 <= status <= 499 && unsupported_language(reported_body(body)) ==> probe_verdict(
            v,
            status,
            body,
        ) == Err::<(), Seq<char>>(
            "whisper_server inference endpoint rejected configured language '"@ + match v.default_language {
                Some(l) => l,
                None => "<unspecified>"@,
            } + "': "@ + reported_body(body),
        ),
        (status == 404 || status == 405) && !unsupported_language(reported_body(body)) ==> probe_verdict(
            v,
            status,
            body,
        ) == Err::<(), Seq<char>>(
            "whisper_server inference endpoint '"@ + (v.base_url + "/inference"@)
                + "' is unavailable (status "@ + decimal(status as nat) + "): "@ + reported_body(body),
        ),
{
}

/// The transcript of an inference reply comes from its `text` field where
/// that holds text, else from its `transcript` field, and only where the
/// reply did not parse or neither field holds text from the body itself.
pub proof fn law_reply_fields_come_before_the_body(body: Seq<char>, parsed: Option<WhisperServerReply>)
    ensures
        (parsed is Some && parsed->0.text is Some && cleaned_lines(parsed->0.text->0@) is Some)
            ==> reply_transcript(body, parsed) == cleaned_lines(parsed->0.text->0@),
        (parsed is Some && parsed->0.text is None && parsed->0.transcript is Some && cleaned_lines(
            parsed->0.transcript->0@,
        ) is Some) ==> reply_transcript(body, parsed) == cleaned_lines(parsed->0.transcript->0@),
        parsed is None ==> reply_transcript(body, parsed) == cleaned_lines(body),
        (parsed is Some && parsed->0.text is None && parsed->0.transcript is None) ==> reply_transcript(
            body,
            parsed,
        ) == cleaned_lines(body),
{
}

} // verus!
