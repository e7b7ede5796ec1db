//! Output of transcripts to the focused window: typing with `wtype`, copying
//! with `wl-copy`, or copying and pasting. Running the tools is the work of
//! the program around the library; which tool runs next, and what the
//! outcome is, is decided here one step at a time.
use vstd::prelude::*;

use crate::config::InjectionConfig;
use crate::text::str_eq;

verus! {

/// How a transcript reached the window.
#[derive(Debug, Clone, Copy)]
pub struct InjectionResult {
    pub backend: &'static str,
    pub inserted: bool,
    pub requires_manual_paste: bool,
}

/// Why a transcript could not be output.
#[derive(Debug, Clone)]
pub enum InjectionError {
    BackendUnavailable,
    BackendFailed { backend: &'static str, message: String },
}

/// The text that describes `e`.
pub open spec fn injection_error_text(e: InjectionError) -> Seq<char> {
    match e {
        InjectionError::BackendUnavailable =>
            "ERR_OUTPUT_BACKEND_UNAVAILABLE: no output backend is available"@,
        InjectionError::BackendFailed { backend, message } => "output backend `"@ + backend@
            + "` failed: "@ + message@,
    }
}

impl InjectionError {
    /// The text that describes the error.
    pub fn message(&self) -> (s: String)
        ensures
            s@ == injection_error_text(*self),
    {
        match self {
            InjectionError::BackendUnavailable => String::from_str(
                "ERR_OUTPUT_BACKEND_UNAVAILABLE: no output backend is available",
            ),
            InjectionError::BackendFailed { backend, message } => {
                let mut s = String::from_str("output backend `");
                s.append(backend);
                s.append("` failed: ");
                s.append(message.as_str());
                s
            },
        }
    }
}

/// The three output modes.
#[derive(Debug, Clone, Copy, PartialEq, Eq, Structural)]
pub enum OutputMode {
    Clipboard,
    ClipboardAutopaste,
    Type,
}

/// The mode that the configured `output_mode` names; anything else types.
pub open spec fn output_mode_of(s: Seq<char>) -> OutputMode {
    if s == "clipboard"@ {
        OutputMode::Clipboard
    } else if s == "clipboard_autopaste"@ {
        OutputMode::ClipboardAutopaste
    } else {
        OutputMode::Type
    }
}

/// Where an output run stands.
#[derive(Debug, Clone, Copy, PartialEq, Eq, Structural)]
pub enum InjectionStage {
    Start,
    CopyingOnly,
    CopyingBeforePaste,
    Pasting,
    CheckingWtype,
    Typing,
    CheckingClipboard,
    CopyingAsFallback,
    Done,
}

/// What the program around the library observed.
#[derive(Debug)]
pub enum InjectionEvent {
    Begin,
    WtypeAvailable(bool),
    Typed(Result<(), String>),
    ClipboardAvailable(bool),
    Copied(Result<(), String>),
    Pasted(Result<(), String>),
}

/// What to do next.
#[derive(Debug)]
pub enum InjectionAction {
    CheckWtype,
    TypeText,
    CheckClipboard,
    CopyToClipboard,
    AutopasteCtrlV,
    Finish(Result<InjectionResult, InjectionError>),
}

/// A finished run with the given result.
pub open spec fn finished_ok(a: InjectionAction, backend: Seq<char>, inserted: bool) -> bool {
    a matches InjectionAction::Finish(Ok(r)) && r.backend@ == backend && r.inserted == inserted
        && r.requires_manual_paste == !inserted
}

/// A finished run that failed in `backend` with `message`.
pub open spec fn finished_failed(a: InjectionAction, backend: Seq<char>, message: Seq<char>) -> bool {
    a matches InjectionAction::Finish(Err(InjectionError::BackendFailed { backend: b, message: m }))
        && b@ == backend && m@ == message
}

/// The next stage and action of a run in `mode` at `stage` after `event`.
pub open spec fn injection_step(
    mode: OutputMode,
    stage: InjectionStage,
    event: InjectionEvent,
    next: InjectionStage,
    a: InjectionAction,
) -> bool {
    match (stage, event) {
        (InjectionStage::Start, InjectionEvent::Begin) => match mode {
            OutputMode::Clipboard => next == InjectionStage::CopyingOnly && a is CopyToClipboard,
            OutputMode::ClipboardAutopaste => next == InjectionStage::CopyingBeforePaste
                && a is CopyToClipboard,
            OutputMode::Type => next == InjectionStage::CheckingWtype && a is CheckWtype,
        },
        (InjectionStage::CopyingOnly, InjectionEvent::Copied(Ok(()))) => next
            == InjectionStage::Done && finished_ok(a, "clipboard"@, false),
        (InjectionStage::CopyingOnly, InjectionEvent::Copied(Err(m))) => next
            == InjectionStage::Done && finished_failed(a, "clipboard"@, m@),
        (InjectionStage::CopyingBeforePaste, InjectionEvent::Copied(Ok(()))) => next
            == InjectionStage::Pasting && a is AutopasteCtrlV,
        (InjectionStage::CopyingBeforePaste, InjectionEvent::Copied(Err(m))) => next
            == InjectionStage::Done && finished_failed(a, "clipboard"@, m@),
        (InjectionStage::Pasting, InjectionEvent::Pasted(Ok(()))) => next == InjectionStage::Done
            && finished_ok(a, "clipboard_autopaste"@, true),
        (InjectionStage::Pasting, InjectionEvent::Pasted(Err(m))) => next == InjectionStage::Done
            && finished_failed(a, "wtype"@, m@),
        (InjectionStage::CheckingWtype, InjectionEvent::WtypeAvailable(true)) => next
            == InjectionStage::Typing && a is TypeText,
        (InjectionStage::CheckingWtype, InjectionEvent::WtypeAvailable(false)) => next
            == InjectionStage::CheckingClipboard && a is CheckClipboard,
        (InjectionStage::Typing, InjectionEvent::Typed(Ok(()))) => next == InjectionStage::Done
            && finished_ok(a, "wtype"@, true),
        (InjectionStage::Typing, InjectionEvent::Typed(Err(_))) => next
            == InjectionStage::CheckingClipboard && a is CheckClipboard,
        (InjectionStage::CheckingClipboard, InjectionEvent::ClipboardAvailable(true)) => next
            == InjectionStage::CopyingAsFallback && a is CopyToClipboard,
        (InjectionStage::CheckingClipboard, InjectionEvent::ClipboardAvailable(false)) => next
            == InjectionStage::Done && (a matches InjectionAction::Finish(
            Err(InjectionError::BackendUnavailable),
        )),
        (InjectionStage::CopyingAsFallback, InjectionEvent::Copied(Ok(()))) => next
            == InjectionStage::Done && finished_ok(a, "clipboard"@, false),
        (InjectionStage::CopyingAsFallback, InjectionEvent::Copied(Err(m))) => next
            == InjectionStage::Done && finished_failed(a, "clipboard"@, m@),
        _ => next == InjectionStage::Done && (a matches InjectionAction::Finish(
            Err(InjectionError::BackendUnavailable),
        )),
    }
}

fn ok_result(backend: &'static str, inserted: bool) -> (a: InjectionAction)
    ensures
        finished_ok(a, backend@, inserted),
{
    InjectionAction::Finish(
        Ok(InjectionResult { backend, inserted, requires_manual_paste: !inserted }),
    )
}

fn failed(backend: &'static str, message: String) -> (a: InjectionAction)
    ensures
        finished_failed(a, backend@, message@),
{
    InjectionAction::Finish(Err(InjectionError::BackendFailed { backend, message }))
}

/// Outputs transcripts as configured.
#[derive(Debug, Clone)]
pub struct Injector {
    cfg: InjectionConfig,
}

impl Injector {
    /// An injector for `cfg`.
    pub fn new(cfg: InjectionConfig) -> (i: Self)
        ensures
            i.config()@ == cfg@,
    {
        Injector { cfg }
    }

    /// The configuration.
    pub closed spec fn config(&self) -> InjectionConfig {
        self.cfg
    }

    /// The configured `wtype` command.
    pub fn wtype_cmd(&self) -> (s: &str)
        ensures
            s@ == self.config()@.wtype_cmd,
    {
        self.cfg.wtype_cmd.as_str()
    }

    /// The configured `wl-copy` command.
    pub fn wl_copy_cmd(&self) -> (s: &str)
        ensures
            s@ == self.config()@.wl_copy_cmd,
    {
        self.cfg.wl_copy_cmd.as_str()
    }

    /// The output mode.
    pub fn mode(&self) -> (m: OutputMode)
        ensures
            m == output_mode_of(self.config()@.output_mode),
    {
        let s = self.cfg.output_mode.as_str();
        if str_eq(s, "clipboard") {
            OutputMode::Clipboard
        } else if str_eq(s, "clipboard_autopaste") {
            OutputMode::ClipboardAutopaste
        } else {
            OutputMode::Type
        }
    }

    /// The next stage and action of an output run at `stage` after `event`.
    pub fn step(&self, stage: InjectionStage, event: InjectionEvent) -> (r: (
        InjectionStage,
        InjectionAction,
    ))
        ensures
            injection_step(output_mode_of(self.config()@.output_mode), stage, event, r.0, r.1),
    {
        let mode = self.mode();
        match (stage, event) {
            (InjectionStage::Start, InjectionEvent::Begin) => match mode {
                OutputMode::Clipboard => (
                    InjectionStage::CopyingOnly,
                    InjectionAction::CopyToClipboard,
                ),
                OutputMode::ClipboardAutopaste => (
                    InjectionStage::CopyingBeforePaste,
                    InjectionAction::CopyToClipboard,
                ),
                OutputMode::Type => (InjectionStage::CheckingWtype, InjectionAction::CheckWtype),
            },
            (InjectionStage::CopyingOnly, InjectionEvent::Copied(Ok(()))) => (
                InjectionStage::Done,
                ok_result("clipboard", false),
            ),
            (InjectionStage::CopyingOnly, InjectionEvent::Copied(Err(m))) => (
                InjectionStage::Done,
                failed("clipboard", m),
            ),
            (InjectionStage::CopyingBeforePaste, InjectionEvent::Copied(Ok(()))) => (
                InjectionStage::Pasting,
                InjectionAction::AutopasteCtrlV,
            ),
            (InjectionStage::CopyingBeforePaste, InjectionEvent::Copied(Err(m))) => (
                InjectionStage::Done,
                failed("clipboard", m),
            ),
            (InjectionStage::Pasting, InjectionEvent::Pasted(Ok(()))) => (
                InjectionStage::Done,
                ok_result("clipboard_autopaste", true),
            ),
            (InjectionStage::Pasting, InjectionEvent::Pasted(Err(m))) => (
                InjectionStage::Done,
                failed("wtype", m),
            ),
            (InjectionStage::CheckingWtype, InjectionEvent::WtypeAvailable(true)) => (
                InjectionStage::Typing,
                InjectionAction::TypeText,
            ),
            (InjectionStage::CheckingWtype, InjectionEvent::WtypeAvailable(false)) => (
                InjectionStage::CheckingClipboard,
                InjectionAction::CheckClipboard,
            ),
            (InjectionStage::Typing, InjectionEvent::Typed(Ok(()))) => (
                InjectionStage::Done,
                ok_result("wtype", true),
            ),
            (InjectionStage::Typing, InjectionEvent::Typed(Err(_))) => (
                InjectionStage::CheckingClipboard,
                InjectionAction::CheckClipboard,
            ),
            (InjectionStage::CheckingClipboard, InjectionEvent::ClipboardAvailable(true)) => (
                InjectionStage::CopyingAsFallback,
                InjectionAction::CopyToClipboard,
            ),
            (InjectionStage::CheckingClipboard, InjectionEvent::ClipboardAvailable(false)) => (
                InjectionStage::Done,
                InjectionAction::Finish(Err(InjectionError::BackendUnavailable)),
            ),
            (InjectionStage::CopyingAsFallback, InjectionEvent::Copied(Ok(()))) => (
                InjectionStage::Done,
                ok_result("clipboard", false),
            ),
            (InjectionStage::CopyingAsFallback, InjectionEvent::Copied(Err(m))) => (
                InjectionStage::Done,
                failed("clipboard", m),
            ),
            _ => (
                InjectionStage::Done,
                InjectionAction::Finish(Err(InjectionError::BackendUnavailable)),
            ),
        }
    }
}

/// Every successful output either inserted the text or asks for a manual
/// paste, never both; a step finishes the run exactly when it moves to
/// `Done`, and every step from any other stage moves closer to it, so a run
/// takes at most five steps.
pub proof fn law_output_inserts_or_asks_for_paste(
    mode: OutputMode,
    stage: InjectionStage,
    event: InjectionEvent,
    next: InjectionStage,
    a: InjectionAction,
)
    requires
        injection_step(mode, stage, event, next, a),
    ensures
        a matches InjectionAction::Finish(Ok(r)) ==> r.inserted != r.requires_manual_paste,
        a is Finish <==> next == InjectionStage::Done,
        stage != InjectionStage::Done ==> stage_rank(next) < stage_rank(stage),
{
}

/// The most steps that a run at `stage` still takes.
pub open spec fn stage_rank(stage: InjectionStage) -> nat {
    match stage {
        InjectionStage::Start => 5,
        InjectionStage::CheckingWtype => 4,
        InjectionStage::Typing => 3,
        InjectionStage::CheckingClipboard => 2,
        InjectionStage::CopyingBeforePaste => 2,
        InjectionStage::CopyingOnly => 1,
        InjectionStage::Pasting => 1,
        InjectionStage::CopyingAsFallback => 1,
        InjectionStage::Done => 0,
    }
}

/// How a run reaches the user: typing mode checks for `wtype` first and
/// types the text; where `wtype` is missing or typing fails it falls back to
/// the clipboard, and fails as unavailable only where the clipboard is
/// missing too. Clipboard mode only copies and leaves the paste to the user;
/// autopaste mode copies, then pastes, and counts as inserted once pasted.
/// A copy that fails is reported as a clipboard failure with its message.
pub proof fn law_output_falls_back_to_the_clipboard(
    mode: OutputMode,
    stage: InjectionStage,
    event: InjectionEvent,
    next: InjectionStage,
    a: InjectionAction,
)
    requires
        injection_step(mode, stage, event, next, a),
    ensures
        stage == InjectionStage::Start && (event is Begin) ==> (mode == OutputMode::Type
            <==> a is CheckWtype) && (mode != OutputMode::Type <==> a is CopyToClipboard),
        stage == InjectionStage::CheckingWtype ==> (event matches InjectionEvent::WtypeAvailable(
            found,
        ) ==> (found <==> a is TypeText) && (!found <==> a is CheckClipboard)),
        stage == InjectionStage::Typing ==> (event matches InjectionEvent::Typed(res) ==> (res is Ok
            <==> (a matches InjectionAction::Finish(Ok(r)) && r.inserted && r.backend@ == "wtype"@))
            && (res is Err <==> a is CheckClipboard)),
        stage == InjectionStage::CheckingClipboard ==> (
        event matches InjectionEvent::ClipboardAvailable(found) ==> (found <==> a is CopyToClipboard)
            && (!found <==> (a matches InjectionAction::Finish(
            Err(InjectionError::BackendUnavailable),
        )))),
        (stage == InjectionStage::CopyingOnly || stage == InjectionStage::CopyingAsFallback)
            && (event matches InjectionEvent::Copied(Ok(()))) ==> (a matches InjectionAction::Finish(
            Ok(r),
        ) && !r.inserted && r.requires_manual_paste && r.backend@ == "clipboard"@),
        stage == InjectionStage::CopyingBeforePaste && (event matches InjectionEvent::Copied(Ok(())))
            ==> a is AutopasteCtrlV,
        stage == InjectionStage::Pasting && (event matches InjectionEvent::Pasted(Ok(()))) ==> (
        a matches InjectionAction::Finish(Ok(r)) && r.inserted && !r.requires_manual_paste),
        (stage == InjectionStage::CopyingOnly || stage == InjectionStage::CopyingBeforePaste
            || stage == InjectionStage::CopyingAsFallback) ==> (event matches InjectionEvent::Copied(
            Err(m),
        ) ==> (a matches InjectionAction::Finish(
            Err(InjectionError::BackendFailed { backend: b, message: x }),
        ) && b@ == "clipboard"@ && x@ == m@)),
{
}

/// The output mode is named exactly; any other name types.
pub proof fn law_output_mode_names(s: Seq<char>)
    ensures
        output_mode_of(s) == OutputMode::Clipboard <==> s == "clipboard"@,
        output_mode_of(s) == OutputMode::ClipboardAutopaste <==> s == "clipboard_autopaste"@,
        output_mode_of(s) == OutputMode::Type <==> (s != "clipboard"@ && s
            != "clipboard_autopaste"@),
{
    reveal_strlit("clipboard");
    reveal_strlit("clipboard_autopaste");
    assert("clipboard"@.len() != "clipboard_autopaste"@.len());
}

} // verus!
