//! The local `whisper.cpp` provider: its settings, the checks before it is
//! used, the command line of one transcription, and the reading of the
//! transcript that the command writes. Running the command and the file
//! handling around it are the work of the program around the library.
use vstd::prelude::*;

use crate::config::{opt_view, Config};
use crate::provider::{
    cleaned_lines, first_non_blank, normalize_transcript_lines, pick_non_blank, ProviderError,
    TranscribeRequest, TranscribeResponse,
};
use crate::text::{
    contains, contains_str, has_prefix, is_blank, lower_seq, lower_str, replace_all,
    replace_str, starts_with_str, str_eq, trim, trim_str, u64_to_decimal, decimal,
};

verus! {

/// The local `whisper.cpp` provider.
#[derive(Debug, Clone)]
pub struct WhisperLocalProvider {
    whisper_cmd: String,
    model_path: String,
    default_language: Option<String>,
    default_prompt: Option<String>,
    threads: Option<u16>,
    beam_size: u16,
    best_of: u16,
    no_fallback: bool,
    no_timestamps: bool,
    timeout_ms: u64,
}

/// The provider's settings as values.
pub struct WhisperLocalView {
    pub whisper_cmd: Seq<char>,
    pub model_path: Seq<char>,
    pub default_language: Option<Seq<char>>,
    pub default_prompt: Option<Seq<char>>,
    pub threads: Option<u16>,
    pub beam_size: u16,
    pub best_of: u16,
    pub no_fallback: bool,
    pub no_timestamps: bool,
    pub timeout_ms: u64,
}

impl View for WhisperLocalProvider {
    type V = WhisperLocalView;

    closed spec fn view(&self) -> WhisperLocalView {
        WhisperLocalView {
            whisper_cmd: self.whisper_cmd@,
            model_path: self.model_path@,
            default_language: opt_view(self.default_language),
            default_prompt: opt_view(self.default_prompt),
            threads: self.threads,
            beam_size: self.beam_size,
            best_of: self.best_of,
            no_fallback: self.no_fallback,
            no_timestamps: self.no_timestamps,
            timeout_ms: self.timeout_ms,
        }
    }
}

/// What `std::path::Path::file_name` gives for `path`: its last normal
/// component, as text.
pub uninterp spec fn path_file_name(path: Seq<char>) -> Option<Seq<char>>;

/// Calls `std::path::Path::file_name` on `path`; the contract claims only
/// that the result is the one that function gives for this text.
#[verifier::external_body]
fn file_name_of(path: &str) -> (r: Option<String>)
    ensures
        opt_view(r) == path_file_name(path@),
{
    match std::path::Path::new(path).file_name() {
        Some(name) => match name.to_str() {
            Some(s) => Some(s.to_string()),
            None => None,
        },
        None => None,
    }
}

/// Whether a model file name marks an English-only model.
pub open spec fn name_marks_english_only(name: Option<Seq<char>>) -> bool {
    match name {
        None => false,
        Some(n) => {
            let l = lower_seq(n);
            contains(l, ".en."@) || contains(l, ".en-"@) || contains(l, ".en_"@)
        },
    }
}

/// Whether the model file name `name` marks an English-only model.
pub fn file_name_looks_english_only(name: &Option<String>) -> (b: bool)
    ensures
        b == name_marks_english_only(opt_view(*name)),
{
    match name {
        None => false,
        Some(n) => {
            let l = lower_str(n.as_str());
            contains_str(l.as_str(), ".en.") || contains_str(l.as_str(), ".en-") || contains_str(
                l.as_str(),
                ".en_",
            )
        },
    }
}

/// A language setting in the form it is compared: trimmed, lower case,
/// `_` as `-`; absent where blank.
pub open spec fn language_key(language: Seq<char>) -> Option<Seq<char>> {
    let n = replace_all(lower_seq(trim(language)), "_"@, "-"@);
    if n.len() == 0 {
        None
    } else {
        Some(n)
    }
}

/// Whether a compared language is English.
pub open spec fn english(language: Seq<char>) -> bool {
    language == "en"@ || has_prefix(language, "en-"@)
}

/// The reason a provider with `v` cannot run, if any: a blank language
/// setting, or a language other than English for an English-only model.
pub open spec fn language_conflict(v: WhisperLocalView) -> Option<Seq<char>> {
    match v.default_language {
        Some(l) if trim(l).len() == 0 => Some("language must be non-empty when provided"@),
        Some(l) => match language_key(l) {
            Some(k) if name_marks_english_only(path_file_name(v.model_path)) && !english(k) => Some(
                "whisper model '"@ + v.model_path + "' appears English-only but provider.language='"@
                    + k
                    + "'; use an English language code or a multilingual model file"@,
            ),
            _ => None,
        },
        None => None,
    }
}

/// How the whisper binary is found.
#[derive(Debug, Clone, PartialEq, Eq)]
pub enum BinaryLookup {
    /// A path to check for.
    Path(String),
    /// A name to search for in `PATH`.
    Search(String),
}

/// The command line of one transcription.
pub open spec fn whisper_args(
    v: WhisperLocalView,
    language: Option<Seq<char>>,
    prompt: Option<Seq<char>>,
    wav_path: Seq<char>,
    output_prefix: Seq<char>,
) -> Seq<Seq<char>> {
    let base = seq![
        "-m"@,
        v.model_path,
        "-f"@,
        wav_path,
        "-otxt"@,
        "-of"@,
        output_prefix,
        "-bs"@,
        decimal(v.beam_size as nat),
        "-bo"@,
        decimal(v.best_of as nat),
        "-np"@,
    ];
    let with_lang = match language {
        Some(l) => base + seq!["-l"@, l],
        None => base,
    };
    let with_prompt = match prompt {
        Some(p) => with_lang + seq!["-p"@, p],
        None => with_lang,
    };
    let with_threads = match v.threads {
        Some(t) => with_prompt + seq!["-t"@, decimal(t as nat)],
        None => with_prompt,
    };
    let with_nf = if v.no_fallback {
        with_threads + seq!["-nf"@]
    } else {
        with_threads
    };
    if v.no_timestamps {
        with_nf + seq!["-nt"@]
    } else {
        with_nf
    }
}

pub open spec fn string_views(v: Seq<String>) -> Seq<Seq<char>> {
    Seq::new(v.len(), |i: int| v[i]@)
}

fn push_arg(args: &mut Vec<String>, a: String)
    ensures
        string_views(final(args)@) == string_views(old(args)@).push(a@),
{
    args.push(a);
    assert(string_views(final(args)@) =~= string_views(old(args)@).push(a@));
}

impl WhisperLocalProvider {
    /// The provider that `config` describes; the model path must be set.
    pub fn new(config: &Config) -> (r: Result<Self, ProviderError>)
        ensures
            (config@.provider.whisper_model_path matches Some(p) && trim(p).len() > 0) ==> (r matches Ok(
                w,
            ) && w@.model_path == trim(config@.provider.whisper_model_path->0)
                && w@.whisper_cmd == config@.provider.whisper_cmd
                && w@.default_language == config@.provider.language
                && w@.default_prompt == config@.provider.prompt
                && w@.threads == config@.provider.whisper_threads
                && w@.beam_size == config@.provider.whisper_beam_size
                && w@.best_of == config@.provider.whisper_best_of
                && w@.no_fallback == config@.provider.whisper_no_fallback
                && w@.no_timestamps == config@.provider.whisper_no_timestamps
                && w@.timeout_ms == (if config@.provider.timeout_ms < 120_000 {
                120_000
            } else {
                config@.provider.timeout_ms
            })),
            !(config@.provider.whisper_model_path matches Some(p) && trim(p).len() > 0) ==> (r matches Err(
                ProviderError::Misconfigured(m),
            ) && m@ == "provider.whisper_model_path must be set when provider.kind=whisper_local"@),
    {
        let model_path = match &config.provider.whisper_model_path {
            Some(p) => {
                let t = trim_str(p.as_str());
                if t.as_str().unicode_len() == 0 {
                    None
                } else {
                    Some(t)
                }
            },
            None => None,
        };
        let model_path = match model_path {
            Some(p) => p,
            None => {
                return Err(
                    ProviderError::Misconfigured(
                        "provider.whisper_model_path must be set when provider.kind=whisper_local".to_string(),
                    ),
                );
            },
        };
        let t = config.provider.timeout_ms;
        Ok(WhisperLocalProvider {
            whisper_cmd: config.provider.whisper_cmd.clone(),
            model_path,
            default_language: crate::provider::clone_opt(&config.provider.language),
            default_prompt: crate::provider::clone_opt(&config.provider.prompt),
            threads: config.provider.whisper_threads,
            beam_size: config.provider.whisper_beam_size,
            best_of: config.provider.whisper_best_of,
            no_fallback: config.provider.whisper_no_fallback,
            no_timestamps: config.provider.whisper_no_timestamps,
            timeout_ms: if t < 120_000 {
                120_000
            } else {
                t
            },
        })
    }

    /// The command to run, as configured.
    pub fn whisper_cmd(&self) -> (s: &str)
        ensures
            s@ == self@.whisper_cmd,
    {
        self.whisper_cmd.as_str()
    }

    /// The model file.
    pub fn model_path(&self) -> (s: &str)
        ensures
            s@ == self@.model_path,
    {
        self.model_path.as_str()
    }

    /// Milliseconds that one run may take.
    pub fn timeout_ms(&self) -> (t: u64)
        ensures
            t == self@.timeout_ms,
    {
        self.timeout_ms
    }

    /// The language of `request`, else the configured one; blank ones are
    /// skipped.
    pub fn resolve_language(&self, request: &TranscribeRequest) -> (r: Option<String>)
        ensures
            opt_view(r) == first_non_blank(opt_view(request.language), self@.default_language),
    {
        pick_non_blank(&request.language, &self.default_language)
    }

    /// The prompt of `request`, else the configured one; blank ones are
    /// skipped.
    pub fn resolve_prompt(&self, request: &TranscribeRequest) -> (r: Option<String>)
        ensures
            opt_view(r) == first_non_blank(opt_view(request.prompt), self@.default_prompt),
    {
        pick_non_blank(&request.prompt, &self.default_prompt)
    }

    /// The transcript that whisper wrote: lines trimmed, blank lines
    /// dropped, `None` where nothing is left.
    pub fn normalize_transcript(raw: &str) -> (r: Option<String>)
        ensures
            opt_view(r) == cleaned_lines(raw@),
    {
        normalize_transcript_lines(raw)
    }

    /// `audio` as a WAV file at `sample_rate_hz`.
    pub fn wav_from_pcm16(audio: &[i16], sample_rate_hz: u32) -> (wav: Vec<u8>)
        ensures
            wav@ == crate::wav::wav_bytes(audio@, sample_rate_hz),
    {
        crate::wav::wav_from_pcm16(audio, sample_rate_hz)
    }

    /// `language` trimmed, in lower case, with `_` as `-`; `None` where blank.
    pub fn normalized_language(language: &str) -> (r: Option<String>)
        ensures
            opt_view(r) == language_key(language@),
    {
        let t = trim_str(language);
        let l = lower_str(t.as_str());
        proof {
            reveal_strlit("_");
        }
        let n = replace_str(l.as_str(), "_", "-");
        if n.as_str().unicode_len() == 0 {
            None
        } else {
            Some(n)
        }
    }

    /// Whether a compared language is English.
    pub fn is_english_language(language: &str) -> (b: bool)
        ensures
            b == english(language@),
    {
        str_eq(language, "en") || starts_with_str(language, "en-")
    }

    /// Whether the model file's name marks an English-only model.
    pub fn model_path_looks_english_only(path: &str) -> (b: bool)
        ensures
            b == name_marks_english_only(path_file_name(path@)),
    {
        let name = file_name_of(path);
        file_name_looks_english_only(&name)
    }

    /// The language setting against the model: a blank language, or one
    /// other than English for an English-only model, is refused.
    pub fn enforce_model_language_compatibility(&self) -> (r: Result<(), ProviderError>)
        ensures
            language_conflict(self@) is None ==> r is Ok,
            language_conflict(self@) matches Some(reason) ==> (r matches Err(
                ProviderError::IncompatibleModel(m),
            ) && m@ == reason),
    {
        if let Some(l) = &self.default_language {
            if is_blank(l.as_str()) {
                return Err(
                    ProviderError::IncompatibleModel(
                        "language must be non-empty when provided".to_string(),
                    ),
                );
            }
            if let Some(k) = Self::normalized_language(l.as_str()) {
                if Self::model_path_looks_english_only(self.model_path.as_str())
                    && !Self::is_english_language(k.as_str()) {
                    let mut m = "whisper model '".to_string();
                    m.append(self.model_path.as_str());
                    m.append("' appears English-only but provider.language='");
                    m.append(k.as_str());
                    m.append("'; use an English language code or a multilingual model file");
                    return Err(ProviderError::IncompatibleModel(m));
                }
            }
        }
        Ok(())
    }

    /// How to find the whisper binary: a path where the command holds a
    /// `/`, else a name to search for; a blank command is refused.
    pub fn binary_lookup(&self) -> (r: Result<BinaryLookup, ProviderError>)
        ensures
            trim(self@.whisper_cmd).len() == 0 ==> (r matches Err(ProviderError::Misconfigured(m))
                && m@ == "provider.whisper_cmd must not be empty"@),
            trim(self@.whisper_cmd).len() > 0 && contains(trim(self@.whisper_cmd), "/"@) ==> (r matches Ok(
                BinaryLookup::Path(p),
            ) && p@ == trim(self@.whisper_cmd)),
            trim(self@.whisper_cmd).len() > 0 && !contains(trim(self@.whisper_cmd), "/"@) ==> (r matches Ok(
                BinaryLookup::Search(p),
            ) && p@ == trim(self@.whisper_cmd)),
    {
        let cmd = trim_str(self.whisper_cmd.as_str());
        if cmd.as_str().unicode_len() == 0 {
            return Err(
                ProviderError::Misconfigured("provider.whisper_cmd must not be empty".to_string()),
            );
        }
        if contains_str(cmd.as_str(), "/") {
            Ok(BinaryLookup::Path(cmd))
        } else {
            Ok(BinaryLookup::Search(cmd))
        }
    }

    /// The checks before use, given whether the binary was found as
    /// `binary_lookup` says and whether the model file exists: the command
    /// must be set, the binary and the model must exist, and the language
    /// must suit the model.
    pub fn validate_setup(&self, binary_found: bool, model_exists: bool) -> (r: Result<(), ProviderError>)
        ensures
            trim(self@.whisper_cmd).len() == 0 ==> (r matches Err(ProviderError::Misconfigured(m))
                && m@ == "provider.whisper_cmd must not be empty"@),
            trim(self@.whisper_cmd).len() > 0 && !binary_found ==> (r matches Err(
                ProviderError::DependencyUnavailable(m),
            ) && m@ == "local whisper binary `"@ + trim(self@.whisper_cmd) + (if contains(
                trim(self@.whisper_cmd),
                "/"@,
            ) {
                "` does not exist"@
            } else {
                "` is not in PATH"@
            })),
            trim(self@.whisper_cmd).len() > 0 && binary_found && !model_exists ==> (r matches Err(
                ProviderError::Misconfigured(m),
            ) && m@ == "whisper model file `"@ + self@.model_path + "` does not exist"@),
            trim(self@.whisper_cmd).len() > 0 && binary_found && model_exists ==> (match language_conflict(
                self@,
            ) {
                None => r is Ok,
                Some(reason) => r matches Err(ProviderError::IncompatibleModel(m)) && m@ == reason,
            }),
    {
        let lookup = match self.binary_lookup() {
            Ok(l) => l,
            Err(e) => {
                return Err(e);
            },
        };
        if !binary_found {
            let m = match lookup {
                BinaryLookup::Path(p) => {
                    let mut m = "local whisper binary `".to_string();
                    m.append(p.as_str());
                    m.append("` does not exist");
                    m
                },
                BinaryLookup::Search(p) => {
                    let mut m = "local whisper binary `".to_string();
                    m.append(p.as_str());
                    m.append("` is not in PATH");
                    m
                },
            };
            return Err(ProviderError::DependencyUnavailable(m));
        }
        if !model_exists {
            let mut m = "whisper model file `".to_string();
            m.append(self.model_path.as_str());
            m.append("` does not exist");
            return Err(ProviderError::Misconfigured(m));
        }
        self.enforce_model_language_compatibility()
    }

    /// The arguments of one run on `wav_path`, writing the transcript next
    /// to `output_prefix`.
    pub fn command_args(&self, request: &TranscribeRequest, wav_path: &str, output_prefix: &str) -> (args: Vec<String>)
        ensures
            string_views(args@) == whisper_args(
                self@,
                first_non_blank(opt_view(request.language), self@.default_language),
                first_non_blank(opt_view(request.prompt), self@.default_prompt),
                wav_path@,
                output_prefix@,
            ),
    {
        let mut args: Vec<String> = Vec::new();
        push_arg(&mut args, "-m".to_string());
        push_arg(&mut args, self.model_path.clone());
        push_arg(&mut args, "-f".to_string());
        push_arg(&mut args, wav_path.to_string());
        push_arg(&mut args, "-otxt".to_string());
        push_arg(&mut args, "-of".to_string());
        push_arg(&mut args, output_prefix.to_string());
        push_arg(&mut args, "-bs".to_string());
        push_arg(&mut args, u64_to_decimal(self.beam_size as u64));
        push_arg(&mut args, "-bo".to_string());
        push_arg(&mut args, u64_to_decimal(self.best_of as u64));
        push_arg(&mut args, "-np".to_string());
        if let Some(l) = self.resolve_language(request) {
            push_arg(&mut args, "-l".to_string());
            push_arg(&mut args, l);
        }
        if let Some(p) = self.resolve_prompt(request) {
            push_arg(&mut args, "-p".to_string());
            push_arg(&mut args, p);
        }
        if let Some(t) = self.threads {
            push_arg(&mut args, "-t".to_string());
            push_arg(&mut args, u64_to_decimal(t as u64));
        }
        if self.no_fallback {
            push_arg(&mut args, "-nf".to_string());
        }
        if self.no_timestamps {
            push_arg(&mut args, "-nt".to_string());
        }
        args
    }

    /// The response for the transcript file's text, or `MissingTranscript`
    /// where it holds nothing.
    pub fn transcript_response(raw: &str) -> (r: Result<TranscribeResponse, ProviderError>)
        ensures
            cleaned_lines(raw@) is None ==> r == Err::<TranscribeResponse, ProviderError>(
                ProviderError::MissingTranscript,
            ),
            cleaned_lines(raw@) matches Some(t) ==> (r matches Ok(resp) && resp.transcript@ == t
                && resp.confidence_bits is None && resp.segments@.len() == 0),
    {
        match normalize_transcript_lines(raw) {
            Some(t) => Ok(TranscribeResponse { transcript: t, confidence_bits: None, segments: Vec::new() }),
            None => Err(ProviderError::MissingTranscript),
        }
    }

    /// The error for a run that outlived its time.
    pub fn timeout_error(&self) -> (e: ProviderError)
        ensures
            e matches ProviderError::Execution(m) && m@ == "local whisper command timed out after "@
                + decimal(self@.timeout_ms as nat) + " ms"@,
    {
        let mut m = "local whisper command timed out after ".to_string();
        m.append(u64_to_decimal(self.timeout_ms).as_str());
        m.append(" ms");
        ProviderError::Execution(m)
    }

    /// The error for a binary that could not be started because it is missing.
    pub fn not_installed_error(&self) -> (e: ProviderError)
        ensures
            e matches ProviderError::DependencyUnavailable(m) && m@ == "local whisper binary `"@
                + self@.whisper_cmd + "` is not installed"@,
    {
        let mut m = "local whisper binary `".to_string();
        m.append(self.whisper_cmd.as_str());
        m.append("` is not installed");
        ProviderError::DependencyUnavailable(m)
    }
}

/// The error for a run that exited with `status`, its output trimmed.
pub fn command_failed_error(status: &str, stderr: &str, stdout: &str) -> (e: ProviderError)
    ensures
        e matches ProviderError::Execution(m) && m@ == "local whisper command failed with status "@
            + status@ + ": stderr=`"@ + trim(stderr@) + "` stdout=`"@ + trim(stdout@) + "`"@,
{
    let mut m = "local whisper command failed with status ".to_string();
    m.append(status);
    m.append(": stderr=`");
    m.append(trim_str(stderr).as_str());
    m.append("` stdout=`");
    m.append(trim_str(stdout).as_str());
    m.append("`");
    ProviderError::Execution(m)
}

proof fn lemma_underscores_become_dashes(s: Seq<char>)
    ensures
        replace_all(s, "_"@, "-"@).len() == s.len(),
        forall|i: int| 0 <= i < s.len() ==> #[trigger] replace_all(s, "_"@, "-"@)[i] == (if s[i]
            == '_' {
            '-'
        } else {
            s[i]
        }),
    decreases s.len(),
{
    reveal_strlit("_");
    reveal_strlit("-");
    if s.len() >= 1 {
        let rest = s.subrange(1, s.len() as int);
        assert(rest =~= s.drop_first());
        lemma_underscores_become_dashes(rest);
        let r = replace_all(s, "_"@, "-"@);
        if s.subrange(0, 1) == "_"@ {
            assert(s[0] == '_') by {
                assert(s.subrange(0, 1)[0] == s[0]);
            }
            assert(r == "-"@ + replace_all(rest, "_"@, "-"@));
        } else {
            assert(s[0] != '_') by {
                if s[0] == '_' {
                    assert(s.subrange(0, 1) =~= "_"@);
                }
            }
            assert(r == seq![s[0]] + replace_all(rest, "_"@, "-"@));
        }
        assert forall|i: int| 0 <= i < s.len() implies #[trigger] r[i] == (if s[i] == '_' {
            '-'
        } else {
            s[i]
        }) by {
            if i > 0 {
                assert(rest[i - 1] == s[i]);
            }
        }
    }
}

/// An English-only whisper model (its file name holds ".en.", ".en-" or
/// ".en_" in any letter case) only runs with an English language setting:
/// no setting or "en", "en-…", "en_…" in any case is accepted, a setting
/// that does not start with "en" is refused, and a blank setting is refused
/// for every model. A multilingual model accepts any language that is set.
pub proof fn law_english_only_models_need_english(v: WhisperLocalView)
    ensures
        v.default_language is None ==> language_conflict(v) is None,
        (v.default_language matches Some(l) && trim(l).len() == 0) ==> language_conflict(v)
            == Some("language must be non-empty when provided"@),
        ({
            let eo = path_file_name(v.model_path) matches Some(n) && (contains(
                lower_seq(n),
                ".en."@,
            ) || contains(lower_seq(n), ".en-"@) || contains(lower_seq(n), ".en_"@));
            let l = v.default_language->0;
            let s = lower_seq(trim(l));
            &&& (v.default_language is Some && trim(l).len() > 0 && !eo) ==> language_conflict(v) is None
            &&& (v.default_language is Some && (s == "en"@ || has_prefix(s, "en-"@) || has_prefix(
                s,
                "en_"@,
            ))) ==> language_conflict(v) is None
            &&& (v.default_language is Some && trim(l).len() > 0 && eo && !has_prefix(s, "en"@))
                ==> language_conflict(v) is Some
        }),
{
    reveal_strlit("en");
    reveal_strlit("en-");
    reveal_strlit("en_");
    reveal_strlit("-");
    if let Some(l) = v.default_language {
        let s = lower_seq(trim(l));
        lemma_underscores_become_dashes(s);
        let k = replace_all(s, "_"@, "-"@);
        if s == "en"@ {
            assert(k =~= "en"@);
        }
        if has_prefix(s, "en-"@) || has_prefix(s, "en_"@) {
            let p = s.subrange(0, 3);
            assert(p[0] == s[0] && p[1] == s[1] && p[2] == s[2]);
            assert(s[0] == 'e' && s[1] == 'n' && (s[2] == '-' || s[2] == '_'));
            assert(k[0] == 'e' && k[1] == 'n' && k[2] == '-');
            assert(k.subrange(0, 3) =~= "en-"@);
        }
        if s.len() > 0 && !has_prefix(s, "en"@) {
            assert(!has_prefix(k, "en"@)) by {
                if has_prefix(k, "en"@) {
                    assert(s.subrange(0, 2) =~= "en"@);
                }
            }
            assert(!english(k)) by {
                if k == "en"@ {
                    assert(k.subrange(0, 2) =~= "en"@);
                }
                if has_prefix(k, "en-"@) {
                    assert(k.subrange(0, 2) =~= "en"@);
                }
            }
        }
    }
}

/// The whisper command line always names the model, the input file, text
/// output to the given prefix, the beam size and best-of count and no
/// progress prints, in that order; then the language and the prompt where
/// given, the thread count where configured, and the no-fallback and
/// no-timestamps switches where set, each exactly once.
pub proof fn law_whisper_command_line(
    v: WhisperLocalView,
    language: Option<Seq<char>>,
    prompt: Option<Seq<char>>,
    wav_path: Seq<char>,
    output_prefix: Seq<char>,
)
    ensures
        ({
            let a = whisper_args(v, language, prompt, wav_path, output_prefix);
            &&& a.len() == 12 + (if language is Some { 2int } else { 0 }) + (if prompt is Some {
                2int
            } else {
                0
            }) + (if v.threads is Some { 2int } else { 0 }) + (if v.no_fallback { 1int } else { 0 })
                + (if v.no_timestamps { 1int } else { 0 })
            &&& a[0] == "-m"@ && a[1] == v.model_path && a[2] == "-f"@ && a[3] == wav_path
            &&& a[4] == "-otxt"@ && a[5] == "-of"@ && a[6] == output_prefix
            &&& a[7] == "-bs"@ && a[8] == decimal(v.beam_size as nat) && a[9] == "-bo"@ && a[10]
                == decimal(v.best_of as nat) && a[11] == "-np"@
            &&& (language is Some ==> a[12] == "-l"@ && a[13] == language->0)
            &&& (language is None && prompt is Some ==> a[12] == "-p"@ && a[13] == prompt->0)
            &&& (v.no_timestamps ==> a.last() == "-nt"@)
            &&& (v.no_fallback && !v.no_timestamps ==> a.last() == "-nf"@)
        }),
{
}

/// The language and prompt of a transcription are the request's where set
/// and not blank, else the configured ones where set and not blank; they
/// are passed on unchanged.
pub proof fn law_request_settings_come_first(request: Option<Seq<char>>, configured: Option<Seq<char>>)
    ensures
        request matches Some(x) && trim(x).len() > 0 ==> first_non_blank(request, configured)
            == request,
        !(request matches Some(x) && trim(x).len() > 0) && (configured matches Some(y) && trim(
            y,
        ).len() > 0) ==> first_non_blank(request, configured) == configured,
        !(request matches Some(x) && trim(x).len() > 0) && !(configured matches Some(y) && trim(
            y,
        ).len() > 0) ==> first_non_blank(request, configured) is None,
{
}

} // verus!
