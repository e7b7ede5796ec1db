//! What every speech-to-text provider shares: the request and response
//! shapes, the error kinds, which errors are worth a retry, how an HTTP
//! failure is classified, how transcript text is cleaned, and the attempt
//! loop with its fallback to chat completions.
use vstd::prelude::*;

use crate::config::{opt_view, Config};
use crate::text::{
    contains, contains_str, decimal, is_blank, join, lower_seq, lower_str, split_chars, split_on,
    string_from_chars, chars_of, trim, trim_str, u64_to_decimal, vec_views,
};

verus! {

/// A timed piece of a transcript.
#[derive(Debug, Clone, PartialEq, Eq)]
pub struct Segment {
    pub start_ms: u32,
    pub end_ms: u32,
    pub text: String,
    /// The IEEE-754 bits of the provider's confidence, where it gave one.
    pub confidence_bits: Option<u32>,
}

/// One utterance to transcribe.
#[derive(Debug, Clone)]
pub struct TranscribeRequest {
    pub model: String,
    pub language: Option<String>,
    pub prompt: Option<String>,
    /// Sampling temperature in thousandths.
    pub temperature_milli: Option<i32>,
    /// Languages that the speech may be in.
    pub language_hints: Vec<String>,
    pub pcm16_audio: Vec<i16>,
    pub sample_rate_hz: u32,
}

/// A transcript.
#[derive(Debug, Clone, PartialEq, Eq)]
pub struct TranscribeResponse {
    pub transcript: String,
    /// The IEEE-754 bits of the provider's confidence, where it gave one.
    pub confidence_bits: Option<u32>,
    pub segments: Vec<Segment>,
}

/// Why a provider failed.
#[derive(Debug, Clone, PartialEq, Eq)]
pub enum ProviderError {
    Transport(String),
    Execution(String),
    Auth,
    RateLimited,
    Http { status: u16, body: String },
    MissingTranscript,
    InvalidResponse(String),
    DependencyUnavailable(String),
    Misconfigured(String),
    IncompatibleModel(String),
}

/// Whether a retry may help after `e`: transport failures, rate limits and
/// server errors.
pub open spec fn retryable(e: ProviderError) -> bool {
    match e {
        ProviderError::Transport(_) => true,
        ProviderError::RateLimited => true,
        ProviderError::Http { status, .. } => 500 <= status <= 599,
        _ => false,
    }
}

/// The text that describes `e`.
pub open spec fn provider_error_text(e: ProviderError) -> Seq<char> {
    match e {
        ProviderError::Transport(m) => "provider transport failed: "@ + m@,
        ProviderError::Execution(m) => "provider execution failed: "@ + m@,
        ProviderError::Auth => "provider authentication failed"@,
        ProviderError::RateLimited => "provider rate limited request"@,
        ProviderError::Http { status, body } => "provider returned non-success status "@
            + decimal(status as nat) + ": "@ + body@,
        ProviderError::MissingTranscript => "provider response did not include transcript text"@,
        ProviderError::InvalidResponse(m) => "provider returned malformed response: "@ + m@,
        ProviderError::DependencyUnavailable(m) => "provider dependency is unavailable: "@ + m@,
        ProviderError::Misconfigured(m) => "provider is misconfigured: "@ + m@,
        ProviderError::IncompatibleModel(m) => "configured model is incompatible with speech-to-text: "@
            + m@,
    }
}

fn prefixed(prefix: &str, m: &String) -> (s: String)
    ensures
        s@ == prefix@ + m@,
{
    let mut s = prefix.to_string();
    s.append(m.as_str());
    s
}

impl ProviderError {
    /// Whether a retry may help.
    pub fn is_retryable(&self) -> (b: bool)
        ensures
            b == retryable(*self),
    {
        match self {
            ProviderError::Transport(_) => true,
            ProviderError::RateLimited => true,
            ProviderError::Http { status, .. } => 500 <= *status && *status <= 599,
            _ => false,
        }
    }

    /// The text that describes the error.
    pub fn message(&self) -> (s: String)
        ensures
            s@ == provider_error_text(*self),
    {
        match self {
            ProviderError::Transport(m) => prefixed("provider transport failed: ", m),
            ProviderError::Execution(m) => prefixed("provider execution failed: ", m),
            ProviderError::Auth => "provider authentication failed".to_string(),
            ProviderError::RateLimited => "provider rate limited request".to_string(),
            ProviderError::Http { status, body } => {
                let mut s = "provider returned non-success status ".to_string();
                let n = u64_to_decimal(*status as u64);
                s.append(n.as_str());
                s.append(": ");
                s.append(body.as_str());
                s
            },
            ProviderError::MissingTranscript => "provider response did not include transcript text".to_string(),
            ProviderError::InvalidResponse(m) => prefixed("provider returned malformed response: ", m),
            ProviderError::DependencyUnavailable(m) => prefixed(
                "provider dependency is unavailable: ",
                m,
            ),
            ProviderError::Misconfigured(m) => prefixed("provider is misconfigured: ", m),
            ProviderError::IncompatibleModel(m) => prefixed(
                "configured model is incompatible with speech-to-text: ",
                m,
            ),
        }
    }
}

/// The providers there are.
#[derive(Debug, Clone, Copy, PartialEq, Eq, Structural)]
pub enum ProviderKind {
    /// A hosted OpenAI-compatible service; `openrouter` names it too.
    OpenAiCompatible,
    WhisperLocal,
    WhisperServer,
}

/// The provider that `provider.kind` names, trimmed and in any ASCII case.
pub open spec fn kind_named(kind: Seq<char>) -> Option<ProviderKind> {
    let k = lower_seq(trim(kind));
    if k == "openai_compatible"@ || k == "openrouter"@ {
        Some(ProviderKind::OpenAiCompatible)
    } else if k == "whisper_local"@ {
        Some(ProviderKind::WhisperLocal)
    } else if k == "whisper_server"@ {
        Some(ProviderKind::WhisperServer)
    } else {
        None
    }
}

/// Which provider `kind` selects; an unknown kind is a misconfiguration.
pub fn provider_kind(kind: &str) -> (r: Result<ProviderKind, ProviderError>)
    ensures
        kind_named(kind@) matches Some(k) ==> r == Ok::<ProviderKind, ProviderError>(k),
        kind_named(kind@) is None ==> (r matches Err(ProviderError::Misconfigured(m)) && m@
            == "unknown provider.kind `"@ + lower_seq(trim(kind@)) + "`"@),
{
    let t = trim_str(kind);
    let k = lower_str(t.as_str());
    if crate::text::str_eq(k.as_str(), "openai_compatible") || crate::text::str_eq(
        k.as_str(),
        "openrouter",
    ) {
        Ok(ProviderKind::OpenAiCompatible)
    } else if crate::text::str_eq(k.as_str(), "whisper_local") {
        Ok(ProviderKind::WhisperLocal)
    } else if crate::text::str_eq(k.as_str(), "whisper_server") {
        Ok(ProviderKind::WhisperServer)
    } else {
        let mut m = "unknown provider.kind `".to_string();
        m.append(k.as_str());
        m.append("`");
        Err(ProviderError::Misconfigured(m))
    }
}

/// The provider that `config` selects.
pub fn build_provider(config: &Config) -> (r: Result<ProviderKind, ProviderError>)
    ensures
        kind_named(config@.provider.kind) matches Some(k) ==> r == Ok::<
            ProviderKind,
            ProviderError,
        >(k),
        kind_named(config@.provider.kind) is None ==> (r matches Err(
            ProviderError::Misconfigured(m),
        ) && m@ == "unknown provider.kind `"@ + lower_seq(trim(config@.provider.kind)) + "`"@),
{
    provider_kind(config.provider.kind.as_str())
}

/// The views of a sequence of strings.
pub open spec fn views_of(v: Seq<String>) -> Seq<Seq<char>> {
    Seq::new(v.len(), |i: int| v[i]@)
}

/// A copy of `v`.
pub fn clone_strings(v: &Vec<String>) -> (r: Vec<String>)
    ensures
        views_of(r@) == views_of(v@),
{
    let mut r: Vec<String> = Vec::new();
    let mut i: usize = 0;
    while i < v.len()
        invariant
            i <= v@.len(),
            r@.len() == i,
            forall|k: int| 0 <= k < i ==> #[trigger] r@[k]@ == v@[k]@,
        decreases v@.len() - i,
    {
        r.push(v[i].clone());
        i = i + 1;
    }
    assert(views_of(r@) =~= views_of(v@));
    r
}

/// A copy of `o`.
pub fn clone_opt(o: &Option<String>) -> (r: Option<String>)
    ensures
        opt_view(r) == opt_view(*o),
{
    match o {
        Some(s) => Some(s.clone()),
        None => None,
    }
}

/// The request for `pcm16_audio` with the model, language, prompt,
/// temperature, language hints and sample rate that `config` sets.
pub fn default_request_for_config(config: &Config, pcm16_audio: Vec<i16>) -> (r: TranscribeRequest)
    ensures
        r.model@ == config@.provider.model,
        opt_view(r.language) == config@.provider.language,
        opt_view(r.prompt) == config@.provider.prompt,
        r.temperature_milli == config@.provider.temperature_milli,
        views_of(r.language_hints@) == config@.provider.language_hints,
        r.pcm16_audio@ == pcm16_audio@,
        r.sample_rate_hz == config@.audio.sample_rate_hz,
{
    TranscribeRequest {
        model: config.provider.model.clone(),
        language: clone_opt(&config.provider.language),
        prompt: clone_opt(&config.provider.prompt),
        temperature_milli: config.provider.temperature_milli,
        language_hints: clone_strings(&config.provider.language_hints),
        pcm16_audio,
        sample_rate_hz: config.audio.sample_rate_hz,
    }
}

/// The body of an error reply as it is reported: a placeholder for a blank one.
pub open spec fn reported_body(body: Seq<char>) -> Seq<char> {
    if trim(body).len() == 0 {
        "<empty response body>"@
    } else {
        body
    }
}

/// `body`, or a placeholder where it is blank.
pub fn normalized_body(body: String) -> (s: String)
    ensures
        s@ == reported_body(body@),
{
    if is_blank(body.as_str()) {
        "<empty response body>".to_string()
    } else {
        body
    }
}

/// Whether `e` is the error for a reply with `status` and `body`.
pub open spec fn is_http_error(e: ProviderError, status: u16, body: Seq<char>) -> bool {
    if status == 401 || status == 403 {
        e == ProviderError::Auth
    } else if status == 429 {
        e == ProviderError::RateLimited
    } else {
        e matches ProviderError::Http { status: s, body: b } && s == status && b@ == reported_body(
            body,
        )
    }
}

/// The error for an HTTP reply with a non-success `status` and `body`:
/// refused credentials, a rate limit, or the status with the body.
pub fn map_http_error(status: u16, body: String) -> (e: ProviderError)
    ensures
        is_http_error(e, status, body@),
{
    if status == 401 || status == 403 {
        return ProviderError::Auth;
    }
    if status == 429 {
        return ProviderError::RateLimited;
    }
    ProviderError::Http { status, body: normalized_body(body) }
}

/// Whether a failed `/audio/transcriptions` call should be retried through
/// chat completions: the endpoint is missing or refuses the method, or a
/// bad request says the endpoint is not supported.
pub open spec fn falls_back_to_chat(e: ProviderError) -> bool {
    match e {
        ProviderError::Http { status, body } => status == 404 || status == 405 || (status == 400
            && {
            let l = lower_seq(body@);
            contains(l, "audio/transcriptions"@) && (contains(l, "not found"@) || contains(
                l,
                "unsupported"@,
            ) || contains(l, "method not allowed"@))
        }),
        _ => false,
    }
}

/// Whether a failed `/audio/transcriptions` call should be retried through
/// chat completions.
pub fn should_fallback_to_chat(err: &ProviderError) -> (b: bool)
    ensures
        b == falls_back_to_chat(*err),
{
    match err {
        ProviderError::Http { status, body } => {
            if *status == 404 || *status == 405 {
                true
            } else if *status == 400 {
                let l = lower_str(body.as_str());
                contains_str(l.as_str(), "audio/transcriptions") && (contains_str(
                    l.as_str(),
                    "not found",
                ) || contains_str(l.as_str(), "unsupported") || contains_str(
                    l.as_str(),
                    "method not allowed",
                ))
            } else {
                false
            }
        },
        _ => false,
    }
}

/// A transcript as providers report it: trimmed, and absent where blank.
pub open spec fn cleaned(text: Seq<char>) -> Option<Seq<char>> {
    if trim(text).len() == 0 {
        None
    } else {
        Some(trim(text))
    }
}

/// `text` trimmed, or `None` where it is blank.
pub fn normalize_transcript(text: &str) -> (r: Option<String>)
    ensures
        opt_view(r) == cleaned(text@),
{
    let t = trim_str(text);
    if t.as_str().unicode_len() == 0 {
        None
    } else {
        Some(t)
    }
}

/// The non-blank lines of `s`, each trimmed.
pub open spec fn nonblank_lines(lines: Seq<Seq<char>>) -> Seq<Seq<char>>
    decreases lines.len(),
{
    if lines.len() == 0 {
        Seq::empty()
    } else {
        let rest = nonblank_lines(lines.drop_last());
        if trim(lines.last()).len() == 0 {
            rest
        } else {
            rest.push(trim(lines.last()))
        }
    }
}

/// A transcript file or reply as the whisper providers read it: trimmed,
/// each line trimmed, blank lines dropped, and absent where nothing is left.
pub open spec fn cleaned_lines(raw: Seq<char>) -> Option<Seq<char>> {
    let parts = nonblank_lines(split_on(trim(raw), '\n'));
    if trim(raw).len() == 0 || parts.len() == 0 {
        None
    } else {
        Some(join(parts, "\n"@))
    }
}

/// `parts` joined with newlines.
fn join_lines(parts: &Vec<String>) -> (s: String)
    ensures
        s@ == join(Seq::new(parts@.len(), |i: int| parts@[i]@), "\n"@),
{
    crate::text::join_strs(parts, "\n")
}

/// The transcript in `raw` with every line trimmed and blank lines
/// dropped; `None` where nothing is left.
pub fn normalize_transcript_lines(raw: &str) -> (r: Option<String>)
    ensures
        opt_view(r) == cleaned_lines(raw@),
{
    let t = trim_str(raw);
    if t.as_str().unicode_len() == 0 {
        return None;
    }
    let chars = chars_of(t.as_str());
    let lines = split_chars(chars.as_slice(), '\n');
    let ghost all = split_on(t@, '\n');
    let mut parts: Vec<String> = Vec::new();
    let mut i: usize = 0;
    while i < lines.len()
        invariant
            i <= lines@.len(),
            vec_views(lines@) == all,
            Seq::new(parts@.len(), |k: int| parts@[k]@) == nonblank_lines(all.subrange(0, i as int)),
        decreases lines@.len() - i,
    {
        assert(all.subrange(0, i + 1).drop_last() =~= all.subrange(0, i as int));
        assert(all.subrange(0, i + 1).last() == lines@[i as int]@);
        let line = string_from_chars(lines[i].as_slice());
        let l = trim_str(line.as_str());
        if l.as_str().unicode_len() > 0 {
            let ghost before = Seq::new(parts@.len(), |k: int| parts@[k]@);
            parts.push(l);
            assert(Seq::new(parts@.len(), |k: int| parts@[k]@) =~= before.push(
                trim(lines@[i as int]@),
            ));
        }
        i = i + 1;
    }
    assert(all.subrange(0, all.len() as int) =~= all);
    if parts.len() == 0 {
        None
    } else {
        Some(join_lines(&parts))
    }
}

/// The first of `a` and `b` that is set and not blank.
pub open spec fn first_non_blank(a: Option<Seq<char>>, b: Option<Seq<char>>) -> Option<Seq<char>> {
    match a {
        Some(x) if trim(x).len() > 0 => Some(x),
        _ => match b {
            Some(y) if trim(y).len() > 0 => Some(y),
            _ => None,
        },
    }
}

/// The first of `a` and `b` that is set and not blank, unchanged.
pub fn pick_non_blank(a: &Option<String>, b: &Option<String>) -> (r: Option<String>)
    ensures
        opt_view(r) == first_non_blank(opt_view(*a), opt_view(*b)),
{
    if let Some(x) = a {
        if !is_blank(x.as_str()) {
            return Some(x.clone());
        }
    }
    if let Some(y) = b {
        if !is_blank(y.as_str()) {
            return Some(y.clone());
        }
    }
    None
}

/// A piece of a transcript as a reply carries it, fields possibly absent.
#[derive(Debug, Clone)]
pub struct SegmentPayload {
    pub start_ms: Option<u32>,
    pub end_ms: Option<u32>,
    pub text: Option<String>,
    pub confidence_bits: Option<u32>,
}

/// A reply of `/audio/transcriptions`, fields possibly absent.
#[derive(Debug, Clone)]
pub struct TranscriptionPayload {
    pub transcript: Option<String>,
    pub text: Option<String>,
    pub confidence_bits: Option<u32>,
    pub segments: Option<Vec<SegmentPayload>>,
}

/// The transcript that a transcription reply carries: its `transcript`
/// field, else its `text` field, cleaned.
pub open spec fn payload_transcript(p: TranscriptionPayload) -> Option<Seq<char>> {
    match p.transcript {
        Some(t) => cleaned(t@),
        None => match p.text {
            Some(t) => cleaned(t@),
            None => None,
        },
    }
}

/// Whether `s` is the segment that `p` describes, absent fields defaulted.
pub open spec fn segment_of(p: SegmentPayload, s: Segment) -> bool {
    &&& s.start_ms == match p.start_ms { Some(v) => v, None => 0 }
    &&& s.end_ms == match p.end_ms { Some(v) => v, None => 0 }
    &&& s.text@ == match p.text { Some(t) => t@, None => Seq::<char>::empty() }
    &&& s.confidence_bits == p.confidence_bits
}

fn segment_from(p: &SegmentPayload) -> (s: Segment)
    ensures
        segment_of(*p, s),
{
    Segment {
        start_ms: match p.start_ms {
            Some(v) => v,
            None => 0,
        },
        end_ms: match p.end_ms {
            Some(v) => v,
            None => 0,
        },
        text: match &p.text {
            Some(t) => t.clone(),
            None => String::new(),
        },
        confidence_bits: p.confidence_bits,
    }
}

/// The response for a transcription reply, or `MissingTranscript` where it
/// carries no transcript.
pub fn transcription_response(payload: &TranscriptionPayload) -> (r: Result<
    TranscribeResponse,
    ProviderError,
>)
    ensures
        payload_transcript(*payload) is None ==> r == Err::<TranscribeResponse, ProviderError>(
            ProviderError::MissingTranscript,
        ),
        payload_transcript(*payload) matches Some(t) ==> (r matches Ok(resp)
            && resp.transcript@ == t && resp.confidence_bits == payload.confidence_bits
            && match payload.segments {
            None => resp.segments@.len() == 0,
            Some(segs) => resp.segments@.len() == segs@.len() && forall|i: int|
                0 <= i < segs@.len() ==> segment_of(#[trigger] segs@[i], resp.segments@[i]),
        }),
{
    let chosen = match &payload.transcript {
        Some(t) => normalize_transcript(t.as_str()),
        None => match &payload.text {
            Some(t) => normalize_transcript(t.as_str()),
            None => None,
        },
    };
    let transcript = match chosen {
        Some(t) => t,
        None => {
            return Err(ProviderError::MissingTranscript);
        },
    };
    let mut segments: Vec<Segment> = Vec::new();
    if let Some(segs) = &payload.segments {
        let mut i: usize = 0;
        while i < segs.len()
            invariant
                i <= segs@.len(),
                segments@.len() == i,
                forall|k: int| 0 <= k < i ==> segment_of(#[trigger] segs@[k], segments@[k]),
            decreases segs@.len() - i,
        {
            segments.push(segment_from(&segs[i]));
            i = i + 1;
        }
    }
    Ok(TranscribeResponse { transcript, confidence_bits: payload.confidence_bits, segments })
}

/// One part of a chat message's content.
#[derive(Debug, Clone)]
pub struct ChatPart {
    pub kind: String,
    pub text: Option<String>,
}

/// A chat message's content: plain text, or typed parts.
#[derive(Debug, Clone)]
pub enum ChatContent {
    Text(String),
    Parts(Vec<ChatPart>),
}

/// The texts of the text parts, in order.
pub open spec fn text_parts(parts: Seq<ChatPart>) -> Seq<Seq<char>>
    decreases parts.len(),
{
    if parts.len() == 0 {
        Seq::empty()
    } else {
        let rest = text_parts(parts.drop_last());
        let p = parts.last();
        if (p.kind@ == "text"@ || p.kind@ == "output_text"@) && p.text is Some {
            rest.push(p.text->0@)
        } else {
            rest
        }
    }
}

/// The transcript in a chat message's content: its text, or its text parts
/// joined with newlines, cleaned.
pub open spec fn content_transcript(c: ChatContent) -> Option<Seq<char>> {
    match c {
        ChatContent::Text(t) => cleaned(t@),
        ChatContent::Parts(parts) => cleaned(join(text_parts(parts@), "\n"@)),
    }
}

/// The transcript in a chat message's content.
pub fn extract_chat_content_text(content: &ChatContent) -> (r: Option<String>)
    ensures
        opt_view(r) == content_transcript(*content),
{
    match content {
        ChatContent::Text(t) => normalize_transcript(t.as_str()),
        ChatContent::Parts(parts) => {
            let mut texts: Vec<String> = Vec::new();
            let mut i: usize = 0;
            while i < parts.len()
                invariant
                    i <= parts@.len(),
                    Seq::new(texts@.len(), |k: int| texts@[k]@) == text_parts(
                        parts@.subrange(0, i as int),
                    ),
                decreases parts@.len() - i,
            {
                assert(parts@.subrange(0, i + 1).drop_last() =~= parts@.subrange(0, i as int));
                let p = &parts[i];
                let is_text = crate::text::str_eq(p.kind.as_str(), "text") || crate::text::str_eq(
                    p.kind.as_str(),
                    "output_text",
                );
                if is_text {
                    if let Some(t) = &p.text {
                        let ghost before = Seq::new(texts@.len(), |k: int| texts@[k]@);
                        texts.push(t.clone());
                        assert(Seq::new(texts@.len(), |k: int| texts@[k]@) =~= before.push(t@));
                    }
                }
                i = i + 1;
            }
            assert(parts@.subrange(0, parts@.len() as int) =~= parts@);
            let combined = join_lines(&texts);
            normalize_transcript(combined.as_str())
        },
    }
}

/// The first transcript among the choices' contents, in order; a choice
/// without message or content is `None`.
pub open spec fn first_choice_transcript(choices: Seq<Option<ChatContent>>) -> Option<Seq<char>>
    decreases choices.len(),
{
    if choices.len() == 0 {
        None
    } else {
        match choices[0] {
            Some(c) if content_transcript(c) is Some => content_transcript(c),
            _ => first_choice_transcript(choices.drop_first()),
        }
    }
}

/// The response for a chat completions reply whose choices carry
/// `choices`, or `MissingTranscript` where none carries a transcript.
pub fn chat_completions_response(choices: &[Option<ChatContent>]) -> (r: Result<
    TranscribeResponse,
    ProviderError,
>)
    ensures
        first_choice_transcript(choices@) is None ==> r == Err::<TranscribeResponse, ProviderError>(
            ProviderError::MissingTranscript,
        ),
        first_choice_transcript(choices@) matches Some(t) ==> (r matches Ok(resp)
            && resp.transcript@ == t && resp.confidence_bits is None && resp.segments@.len() == 0),
{
    let mut i: usize = 0;
    assert(choices@.subrange(0, choices@.len() as int) =~= choices@);
    while i < choices.len()
        invariant
            i <= choices@.len(),
            first_choice_transcript(choices@) == first_choice_transcript(
                choices@.subrange(i as int, choices@.len() as int),
            ),
        decreases choices@.len() - i,
    {
        let ghost rest = choices@.subrange(i as int, choices@.len() as int);
        assert(rest.drop_first() =~= choices@.subrange(i + 1, choices@.len() as int));
        assert(rest[0] == choices@[i as int]);
        if let Some(c) = &choices[i] {
            if let Some(t) = extract_chat_content_text(c) {
                return Ok(TranscribeResponse {
                    transcript: t,
                    confidence_bits: None,
                    segments: Vec::new(),
                });
            }
        }
        i = i + 1;
    }
    assert(choices@.subrange(i as int, choices@.len() as int).len() == 0);
    Err(ProviderError::MissingTranscript)
}

/// Whether `model` is among the catalog's model ids.
pub fn check_model_in_catalog(ids: &[String], model: &str) -> (r: Result<(), ProviderError>)
    ensures
        (exists|i: int| 0 <= i < ids@.len() && ids@[i]@ == model@) ==> r is Ok,
        !(exists|i: int| 0 <= i < ids@.len() && ids@[i]@ == model@) ==> (r matches Err(
            ProviderError::IncompatibleModel(m),
        ) && m@ == "configured model '"@ + model@ + "' not found in provider model catalog"@),
{
    let mut i: usize = 0;
    while i < ids.len()
        invariant
            i <= ids@.len(),
            forall|k: int| 0 <= k < i ==> ids@[k]@ != model@,
        decreases ids@.len() - i,
    {
        if crate::text::str_eq(ids[i].as_str(), model) {
            return Ok(());
        }
        i = i + 1;
    }
    let mut m = "configured model '".to_string();
    m.append(model);
    m.append("' not found in provider model catalog");
    Err(ProviderError::IncompatibleModel(m))
}

/// The provider language setting: absent, or not blank.
pub fn check_language_setting(language: &Option<String>) -> (r: Result<(), ProviderError>)
    ensures
        (language matches Some(l) && trim(l@).len() == 0) ==> (r matches Err(
            ProviderError::IncompatibleModel(m),
        ) && m@ == "language must be non-empty when provided"@),
        !(language matches Some(l) && trim(l@).len() == 0) ==> r is Ok,
{
    if let Some(l) = language {
        if is_blank(l.as_str()) {
            return Err(
                ProviderError::IncompatibleModel(
                    "language must be non-empty when provided".to_string(),
                ),
            );
        }
    }
    Ok(())
}

/// Milliseconds to wait before retry number `attempt`.
pub open spec fn retry_delay(attempt: nat) -> nat {
    250 * (attempt + 1)
}

/// The endpoint that an attempt calls.
#[derive(Debug, Clone, Copy, PartialEq, Eq, Structural)]
pub enum Endpoint {
    Transcriptions,
    ChatCompletions,
}

/// The attempts at one utterance: how many retries were made, how many may
/// be, and whether chat completions are preferred.
#[derive(Debug, Clone, Copy, PartialEq, Eq)]
pub struct AttemptLoop {
    attempt: u32,
    max_retries: u32,
    prefer_chat: bool,
}

impl AttemptLoop {
    pub closed spec fn retries(self) -> nat {
        self.attempt as nat
    }

    pub closed spec fn max(self) -> nat {
        self.max_retries as nat
    }

    pub closed spec fn prefers_chat(self) -> bool {
        self.prefer_chat
    }

    /// The attempts after a transcription request failed with `err`: chat
    /// completions are preferred from then on where `err` sends the request
    /// there.
    pub closed spec fn after_fallback(self, err: ProviderError) -> AttemptLoop {
        AttemptLoop { prefer_chat: self.prefer_chat || falls_back_to_chat(err), ..self }
    }

    /// A failure that sends a transcription to chat completions leaves them
    /// preferred.
    pub proof fn lemma_after_fallback(self, err: ProviderError)
        requires
            falls_back_to_chat(err),
        ensures
            self.after_fallback(err).prefers_chat(),
    {
    }

    /// At most `max` retries are ever made.
    pub closed spec fn wf(self) -> bool {
        self.attempt <= self.max_retries
    }

    /// No retry yet; chat completions first where `prefer_chat`.
    pub fn new(max_retries: u32, prefer_chat: bool) -> (l: Self)
        ensures
            l.wf(),
            l.retries() == 0,
            l.max() == max_retries,
            l.prefers_chat() == prefer_chat,
    {
        AttemptLoop { attempt: 0, max_retries, prefer_chat }
    }

    /// The endpoint that the next attempt calls.
    pub fn endpoint(&self) -> (e: Endpoint)
        ensures
            e == (if self.prefers_chat() { Endpoint::ChatCompletions } else { Endpoint::Transcriptions }),
    {
        if self.prefer_chat {
            Endpoint::ChatCompletions
        } else {
            Endpoint::Transcriptions
        }
    }

    /// Whether chat completions are preferred.
    pub fn prefers_chat_completions(&self) -> (b: bool)
        ensures
            b == self.prefers_chat(),
    {
        self.prefer_chat
    }

    /// Retries made so far.
    pub fn attempt(&self) -> (n: u32)
        ensures
            n == self.retries(),
    {
        self.attempt
    }

    /// `/audio/transcriptions` failed with `err`: whether to call chat
    /// completions in this same attempt, which then stay preferred.
    pub fn fallback_after(&mut self, err: &ProviderError) -> (fallback: bool)
        requires
            old(self).wf(),
        ensures
            final(self).wf(),
            *final(self) == old(self).after_fallback(*err),
            fallback == falls_back_to_chat(*err),
            final(self).prefers_chat() == (old(self).prefers_chat() || fallback),
            final(self).retries() == old(self).retries(),
            final(self).max() == old(self).max(),
    {
        let f = should_fallback_to_chat(err);
        if f {
            self.prefer_chat = true;
        }
        f
    }

    /// The attempt failed with `err`: the milliseconds to wait before the
    /// next one, or `None` where the error is final.
    pub fn retry_after(&mut self, err: &ProviderError) -> (delay: Option<u64>)
        requires
            old(self).wf(),
        ensures
            final(self).wf(),
            final(self).max() == old(self).max(),
            final(self).prefers_chat() == old(self).prefers_chat(),
            (retryable(*err) && old(self).retries() < old(self).max()) ==> delay == Some(
                retry_delay(old(self).retries() + 1) as u64,
            ) && final(self).retries() == old(self).retries() + 1,
            !(retryable(*err) && old(self).retries() < old(self).max()) ==> delay is None
                && final(self).retries() == old(self).retries(),
    {
        if err.is_retryable() && self.attempt < self.max_retries {
            self.attempt = self.attempt + 1;
            Some(250 * (self.attempt as u64 + 1))
        } else {
            None
        }
    }
}

/// An HTTP failure is worth a retry exactly when the provider rate limited
/// the request or failed on its side (a 5xx status).
pub proof fn law_http_failures_retry_only_when_transient(e: ProviderError, status: u16, body: Seq<char>)
    requires
        is_http_error(e, status, body),
    ensures
        retryable(e) <==> (status == 429 || 500 <= status <= 599),
{
}

/// A failure that sends a transcription to chat completions is never one
/// that is retried as it is: the fallback and the retry do not overlap.
pub proof fn law_chat_fallback_is_not_a_retry(e: ProviderError)
    requires
        falls_back_to_chat(e),
    ensures
        !retryable(e),
{
}

/// However the attempts at one utterance go, no more retries are made than
/// configured.
pub proof fn law_retries_stay_within_budget(l: AttemptLoop)
    requires
        l.wf(),
    ensures
        l.retries() <= l.max(),
{
}

/// A transcription request goes on through chat completions exactly when
/// `/audio/transcriptions` is missing (404), refuses the method (405), or
/// answers 400 with a body that names the endpoint and says, in any letter
/// case, that it is not found, unsupported or a method not allowed; no other
/// failure sends it there, and an attempt loop starts preferring chat
/// completions on exactly those failures.
pub proof fn law_missing_transcription_endpoint_falls_back(
    status: u16,
    body: String,
    other: ProviderError,
    l: AttemptLoop,
)
    requires
        !(other is Http),
    ensures
        status == 404 || status == 405 ==> falls_back_to_chat(ProviderError::Http { status, body }),
        ({
            let b = lower_seq(body@);
            status == 400 && contains(b, "audio/transcriptions"@) && (contains(b, "not found"@)
                || contains(b, "unsupported"@) || contains(b, "method not allowed"@))
        }) ==> falls_back_to_chat(ProviderError::Http { status, body }),
        status == 400 && !contains(lower_seq(body@), "audio/transcriptions"@) ==> !falls_back_to_chat(
            ProviderError::Http { status, body },
        ),
        status != 400 && status != 404 && status != 405 ==> !falls_back_to_chat(
            ProviderError::Http { status, body },
        ),
        !falls_back_to_chat(other),
        !l.prefers_chat() ==> (l.after_fallback(ProviderError::Http { status, body }).prefers_chat()
            <==> falls_back_to_chat(ProviderError::Http { status, body })),
{
    if falls_back_to_chat(ProviderError::Http { status, body }) {
        l.lemma_after_fallback(ProviderError::Http { status, body });
    }
}

/// A failed HTTP reply is classified by its status alone: 401 and 403 are
/// refused credentials, 429 is a rate limit, and any other status is kept
/// with the reply's body, a blank body being reported by a placeholder.
/// Only transport failures, rate limits and 5xx statuses are worth a retry.
pub proof fn law_http_errors_keep_status_and_body(e: ProviderError, status: u16, body: Seq<char>)
    requires
        is_http_error(e, status, body),
    ensures
        status == 401 || status == 403 <==> e == ProviderError::Auth,
        status == 429 <==> e == ProviderError::RateLimited,
        status != 401 && status != 403 && status != 429 ==> (e matches ProviderError::Http {
            status: s,
            body: b,
        } && s == status && (trim(body).len() > 0 ==> b@ == body) && (trim(body).len() == 0
            ==> b@ == "<empty response body>"@)),
        retryable(e) <==> (status == 429 || (500 <= status && status <= 599)),
{
}

/// Exactly transport failures, rate limits and server errors (5xx) are
/// retried; refused credentials, client errors, missing transcripts,
/// malformed replies and configuration problems are final.
pub proof fn law_only_transient_failures_are_retried(e: ProviderError)
    ensures
        retryable(e) <==> (e is Transport || e is RateLimited || (e matches ProviderError::Http {
            status,
            ..
        } && 500 <= status && status <= 599)),
{
}

/// Retry number `k` (counting from one) waits 250 ms for every attempt made
/// so far plus one: 500 ms, 750 ms, 1 s, …, so every retry waits longer than
/// the one before.
pub proof fn law_retry_delays_grow_linearly(k: nat)
    ensures
        retry_delay(k) == 250 * k + 250,
        retry_delay(k + 1) > retry_delay(k),
{
}

/// A transcript is its text without surrounding white space, and there is
/// none where the text is blank.
pub proof fn law_blank_text_is_no_transcript(t: Seq<char>)
    ensures
        cleaned(t) is None <==> trim(t).len() == 0,
        cleaned(t) matches Some(x) ==> x == trim(t) && x.len() > 0,
{
}

/// A transcription reply's `transcript` field decides where it is present,
/// even when blank; only where it is absent does the `text` field count.
pub proof fn law_transcript_field_comes_before_text(p: TranscriptionPayload)
    ensures
        p.transcript matches Some(t) ==> payload_transcript(p) == cleaned(t@),
        p.transcript is None && p.text is Some ==> payload_transcript(p) == cleaned(p.text->0@),
        p.transcript is None && p.text is None ==> payload_transcript(p) is None,
{
}

/// The transcript of a chat reply is that of its first choice that carries
/// one: every earlier choice carries none, and a reply whose first choice
/// carries one is answered by it.
pub proof fn law_first_transcribed_choice_wins(choices: Seq<Option<ChatContent>>)
    ensures
        choices.len() > 0 && choices[0] is Some && content_transcript(choices[0]->0) is Some
            ==> first_choice_transcript(choices) == content_transcript(choices[0]->0),
        first_choice_transcript(choices) matches Some(x) ==> exists|i: int|
            #![trigger choices[i]]
            0 <= i < choices.len() && (choices[i] matches Some(c) && content_transcript(c) == Some(
                x,
            )) && forall|k: int|
                0 <= k < i ==> !(#[trigger] choices[k] matches Some(c) && content_transcript(c) is Some),
        (forall|k: int| 0 <= k < choices.len() ==> !(#[trigger] choices[k] matches Some(c)
            && content_transcript(c) is Some)) ==> first_choice_transcript(choices) is None,
    decreases choices.len(),
{
    if choices.len() > 0 {
        let rest = choices.drop_first();
        law_first_transcribed_choice_wins(rest);
        if !(choices[0] matches Some(c) && content_transcript(c) is Some) {
            if let Some(x) = first_choice_transcript(choices) {
                let j = choose|j: int|
                    #![trigger rest[j]]
                    0 <= j < rest.len() && (rest[j] matches Some(c) && content_transcript(c) == Some(
                        x,
                    )) && forall|k: int|
                        0 <= k < j ==> !(#[trigger] rest[k] matches Some(c) && content_transcript(c) is Some);
                assert(choices[j + 1] == rest[j]);
                assert forall|k: int| 0 <= k < j + 1 implies !(#[trigger] choices[k] matches Some(c)
                    && content_transcript(c) is Some) by {
                    if k > 0 {
                        assert(choices[k] == rest[k - 1]);
                    }
                }
            }
            assert forall|k: int| 0 <= k < rest.len() && (forall|m: int| 0 <= m < choices.len() ==> !(#[trigger] choices[m] matches Some(c)
                && content_transcript(c) is Some)) implies !(#[trigger] rest[k] matches Some(c)
                && content_transcript(c) is Some) by {
                assert(rest[k] == choices[k + 1]);
            }
        } else {
            if let Some(x) = first_choice_transcript(choices) {
                assert(choices[0] matches Some(c) && content_transcript(c) == Some(x));
            }
        }
    }
}

/// Only text parts (`text` and `output_text`) of a chat message count
/// towards its transcript; other parts add nothing.
pub proof fn law_only_text_parts_count(parts: Seq<ChatPart>, p: ChatPart)
    ensures
        !(p.kind@ == "text"@ || p.kind@ == "output_text"@) || p.text is None ==> text_parts(
            parts.push(p),
        ) == text_parts(parts),
        (p.kind@ == "text"@ || p.kind@ == "output_text"@) && p.text is Some
            ==> text_parts(parts.push(p)) == text_parts(parts).push(p.text->0@),
{
    assert(parts.push(p).drop_last() =~= parts);
}

} // verus!
