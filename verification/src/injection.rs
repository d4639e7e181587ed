//! Delivering dictated text to the focused application: clipboard and ⌘V
//! first, then Accessibility, then typing, then clipboard only.
//!
//! Each delivery is a conversation with the system (restore focus, wait,
//! write the clipboard, post keys). The library holds the decisions as
//! state machines: given what just happened, it says what to do next and,
//! at the end, what the delivery came to. The steps themselves are
//! performed outside.

use vstd::prelude::*;

use crate::config::InjectionMode;
use crate::error::{OtoError, OtoResult};
use crate::focus::FocusTarget;
use crate::paste::accessibility_status;
use crate::text::{decimal_nat, decimal_u128, is_blank, is_blank_seq, owned};

verus! {

/// How text was delivered to the target application.
#[derive(Debug, Clone, Copy, PartialEq, Eq, Structural)]
pub enum InjectResult {
    Accessibility,
    DirectTyped,
    Pasted,
    ClipboardOnly,
}

/// A one-line description of the paste tooling, for logs.
pub fn paste_tooling_summary(trusted: bool) -> (s: String)
    ensures
        s@ == "platform=macos; accessibility="@ + if trusted {
            "trusted"@
        } else {
            "not-trusted"@
        },
{
    String::from_str("platform=macos; accessibility=").concat(accessibility_status(trusted))
}

/// The focused field's selection, as read through Accessibility; a failed
/// read counts as no selection.
pub fn read_ax_selection(selection: OtoResult<Option<String>>) -> (r: Option<String>)
    ensures
        r == match selection {
            Ok(s) => s,
            Err(_) => None,
        },
{
    match selection {
        Ok(s) => s,
        Err(_) => None,
    }
}

/// The text of the error when no automatic delivery worked (the transcript
/// is on the clipboard by then).
pub open spec fn injection_failure_text(
    trusted: bool,
    paste_error: OtoError,
    ax_error: Option<OtoError>,
    type_error: OtoError,
) -> Seq<char> {
    if !trusted {
        "Accessibility permission is not granted. The transcript was copied — press ⌘V, then enable Oto in System Settings → Privacy & Security → Accessibility and reopen it."@
    } else {
        "Could not insert into the focused app; the transcript was copied. Paste: "@
            + paste_error.text() + match ax_error {
            Some(e) => "; Accessibility insert: "@ + e.text(),
            None => Seq::empty(),
        } + "; direct typing: "@ + type_error.text()
    }
}

/// The error when no automatic delivery worked: without Accessibility
/// trust, how to grant it; with it, why each route failed.
pub fn automatic_injection_failed(
    trusted: bool,
    paste_error: &OtoError,
    ax_error: Option<&OtoError>,
    type_error: &OtoError,
) -> (e: OtoError)
    ensures
        e.text() == injection_failure_text(
            trusted,
            *paste_error,
            match ax_error {
                Some(a) => Some(*a),
                None => None,
            },
            *type_error,
        ),
{
    if !trusted {
        return OtoError::Message(
            owned(
                "Accessibility permission is not granted. The transcript was copied — press ⌘V, then enable Oto in System Settings → Privacy & Security → Accessibility and reopen it.",
            ),
        );
    }
    let ax_detail = match ax_error {
        Some(a) => String::from_str("; Accessibility insert: ").concat(a.to_text().as_str()),
        None => String::new(),
    };
    OtoError::Message(
        String::from_str("Could not insert into the focused app; the transcript was copied. Paste: ")
            .concat(paste_error.to_text().as_str()).concat(ax_detail.as_str()).concat(
            "; direct typing: ",
        ).concat(type_error.to_text().as_str()),
    )
}

// ---------------------------------------------------------------------------
// Giving the clipboard back
// ---------------------------------------------------------------------------

/// How long the transcript stays on the clipboard before the previous
/// contents are put back.
pub const CLIPBOARD_RESTORE_DELAY_MS: u64 = 900;

/// What to put back on the clipboard once the paste has landed: the
/// previous contents, unless there were none or they were the transcript.
pub open spec fn clipboard_restore_of(previous: Option<String>, injected: Seq<char>) -> Option<
    String,
> {
    match previous {
        Some(p) => if p@ != injected {
            Some(p)
        } else {
            None
        },
        None => None,
    }
}

/// What to put back on the clipboard once the paste has landed.
pub fn clipboard_restore(previous: Option<String>, injected: &str) -> (r: Option<String>)
    ensures
        r == clipboard_restore_of(previous, injected@),
{
    match previous {
        Some(p) => if !crate::text::str_eq(p.as_str(), injected) {
            Some(p)
        } else {
            None
        },
        None => None,
    }
}

/// Whether the clipboard may be given back now: only while the transcript
/// is still what is on it (`current` is what reading it gave), so a
/// clipboard the user changed in the meantime is left alone.
pub fn clipboard_still_ours(current: &OtoResult<String>, injected: &str) -> (b: bool)
    ensures
        b == (current matches Ok(c) && c@ == injected@),
{
    match current {
        Ok(c) => crate::text::str_eq(c.as_str(), injected),
        Err(_) => false,
    }
}

// ---------------------------------------------------------------------------
// Injecting text
// ---------------------------------------------------------------------------

/// What the outside world reports back to an injection.
#[derive(Debug)]
pub enum InjectEvent {
    /// The injection starts.
    Started,
    /// Whether restoring the focus target activated it.
    FocusRestored(bool),
    /// The requested pause is over.
    Slept,
    /// Whether the process holds Accessibility trust.
    Accessibility(bool),
    /// The trust dialog was requested.
    Prompted,
    /// What the clipboard held (none where it could not be read).
    ClipboardRead(Option<String>),
    /// The outcome of putting the text on the clipboard.
    ClipboardWritten(OtoResult<()>),
    /// The outcome of putting the text on the clipboard and pasting it.
    Pasted(OtoResult<()>),
    /// The outcome of inserting through Accessibility.
    AxInserted(OtoResult<bool>),
    /// The outcome of typing the text.
    Typed(OtoResult<()>),
}

/// What the outside world is to do next.
#[derive(Debug)]
pub enum InjectAction {
    /// Bring the captured focus target to the front.
    RestoreFocus,
    /// Pause.
    Sleep(u64),
    /// Ask whether the process holds Accessibility trust.
    CheckAccessibility,
    /// Ask for Accessibility trust (at most once per session).
    PromptAccessibility,
    /// Read the clipboard's text.
    ReadClipboard,
    /// Put the text on the clipboard.
    WriteClipboard,
    /// Put the text on the clipboard and press ⌘V toward the target.
    PasteFromClipboard { target_pid: Option<i32> },
    /// Insert the text into the focused field through Accessibility.
    InsertViaAccessibility,
    /// Type the text toward the target.
    TypeText { target_pid: Option<i32> },
    /// Stop with `result`; where `restore_clipboard` holds text, put it
    /// back on the clipboard after `CLIPBOARD_RESTORE_DELAY_MS` if the
    /// clipboard still holds the transcript then.
    Finish { result: OtoResult<InjectResult>, restore_clipboard: Option<String> },
}

/// Where an injection stands.
#[derive(Debug)]
pub enum InjectPhase {
    Start,
    RestoringFocus,
    SettlingFocus { restored: bool },
    RestoringFocusAgain,
    SettlingFocusAgain,
    CheckingAccessibility,
    Prompting,
    SnapshottingClipboard,
    WritingClipboardOnly,
    WritingClipboardBeforeTyping,
    Typing,
    Pasting,
    AutoPasting,
    AutoInserting { paste_error: OtoError },
    AutoTyping { paste_error: OtoError, ax_error: Option<OtoError> },
    SavingTranscript { paste_error: OtoError, ax_error: Option<OtoError>, type_error: OtoError },
    CheckingTrustForFailure {
        paste_error: OtoError,
        ax_error: Option<OtoError>,
        type_error: OtoError,
    },
    Done,
}

/// An injection of `text` in progress.
#[derive(Debug)]
pub struct Injection {
    pub text: String,
    pub mode: InjectionMode,
    /// The process to aim key events at, from the focus target.
    pub target_pid: Option<i32>,
    /// Whether a focus target was captured (and is to be restored first).
    pub has_focus: bool,
    /// Whether the clipboard is to be given back afterwards.
    pub restore_clipboard: bool,
    /// What the clipboard held before the injection, where it was read.
    pub previous: Option<String>,
    pub phase: InjectPhase,
}

/// A successful finish with `kind`: the previous clipboard is given back,
/// except after clipboard-only delivery, where the clipboard *is* the
/// delivery and giving it back would throw the transcript away.
pub open spec fn finish_ok(s: Injection, kind: InjectResult) -> InjectAction {
    InjectAction::Finish {
        result: Ok(kind),
        restore_clipboard: if kind != InjectResult::ClipboardOnly {
            clipboard_restore_of(s.previous, s.text@)
        } else {
            None
        },
    }
}

/// A failed finish: the clipboard is left as it is.
pub open spec fn finish_err(e: OtoError) -> InjectAction {
    InjectAction::Finish { result: Err(e), restore_clipboard: None }
}

/// The first delivery step for the injection's mode.
pub open spec fn dispatch(mode: InjectionMode, target_pid: Option<i32>) -> (InjectPhase, InjectAction) {
    match mode {
        InjectionMode::ClipboardOnly => (InjectPhase::WritingClipboardOnly, InjectAction::WriteClipboard),
        InjectionMode::DirectType => (
            InjectPhase::WritingClipboardBeforeTyping,
            InjectAction::WriteClipboard,
        ),
        InjectionMode::ClipboardPaste => (
            InjectPhase::Pasting,
            InjectAction::PasteFromClipboard { target_pid },
        ),
        InjectionMode::Auto => (
            InjectPhase::AutoPasting,
            InjectAction::PasteFromClipboard { target_pid },
        ),
    }
}

/// After the trust check: snapshot the clipboard first where it is to be
/// given back (never in clipboard-only mode), else start delivering.
pub open spec fn after_trust(s: Injection) -> (InjectPhase, InjectAction) {
    if s.restore_clipboard && s.mode != InjectionMode::ClipboardOnly {
        (InjectPhase::SnapshottingClipboard, InjectAction::ReadClipboard)
    } else {
        dispatch(s.mode, s.target_pid)
    }
}

/// The event `e` is the one the phase `phase` waits for.
pub open spec fn fits(phase: InjectPhase, e: InjectEvent) -> bool {
    match phase {
        InjectPhase::Start => e is Started,
        InjectPhase::RestoringFocus => e is FocusRestored,
        InjectPhase::SettlingFocus { .. } => e is Slept,
        InjectPhase::RestoringFocusAgain => e is FocusRestored,
        InjectPhase::SettlingFocusAgain => e is Slept,
        InjectPhase::CheckingAccessibility => e is Accessibility,
        InjectPhase::Prompting => e is Prompted,
        InjectPhase::SnapshottingClipboard => e is ClipboardRead,
        InjectPhase::WritingClipboardOnly => e is ClipboardWritten,
        InjectPhase::WritingClipboardBeforeTyping => e is ClipboardWritten,
        InjectPhase::Typing => e is Typed,
        InjectPhase::Pasting => e is Pasted,
        InjectPhase::AutoPasting => e is Pasted,
        InjectPhase::AutoInserting { .. } => e is AxInserted,
        InjectPhase::AutoTyping { .. } => e is Typed,
        InjectPhase::SavingTranscript { .. } => e is ClipboardWritten,
        InjectPhase::CheckingTrustForFailure { .. } => e is Accessibility,
        InjectPhase::Done => false,
    }
}

/// The text of the error for an event that does not fit the phase.
pub open spec fn unexpected_text() -> Seq<char> {
    "unexpected event in text injection"@
}

/// One step of an injection: after `e` in `s`, the injection is `s2` and
/// the action is `a`. Only the phase and, once, the clipboard snapshot
/// change. An event the phase does not wait for ends the injection with
/// an error.
pub open spec fn inject_step(s: Injection, e: InjectEvent, s2: Injection, a: InjectAction) -> bool {
    &&& s2.text == s.text
    &&& s2.mode == s.mode
    &&& s2.target_pid == s.target_pid
    &&& s2.has_focus == s.has_focus
    &&& s2.restore_clipboard == s.restore_clipboard
    &&& (match (s.phase, e) {
        (InjectPhase::SnapshottingClipboard, InjectEvent::ClipboardRead(p)) => s2.previous == p,
        _ => s2.previous == s.previous,
    })
    &&& if !fits(s.phase, e) {
        &&& s2.phase is Done
        &&& a matches InjectAction::Finish { result: Err(err), restore_clipboard: None }
        &&& err.text() == unexpected_text()
    } else {
        match (s.phase, e) {
            (InjectPhase::CheckingTrustForFailure { paste_error, ax_error, type_error },
            InjectEvent::Accessibility(trusted)) => {
                &&& s2.phase is Done
                &&& a matches InjectAction::Finish { result: Err(err), restore_clipboard: None }
                &&& err.text() == injection_failure_text(trusted, paste_error, ax_error, type_error)
            },
            _ => (s2.phase, a) == inject_next(s, e),
        }
    }
}

/// The next phase and action after `e` in `s` (all cases but the final
/// failure message, which `inject_step` states).
pub open spec fn inject_next(s: Injection, e: InjectEvent) -> (InjectPhase, InjectAction) {
    let unexpected = (
        InjectPhase::Done,
        finish_err(OtoError::Message(arbitrary())),
    );
    match s.phase {
        InjectPhase::Start => match e {
            InjectEvent::Started => if s.has_focus {
                (InjectPhase::RestoringFocus, InjectAction::RestoreFocus)
            } else {
                (InjectPhase::CheckingAccessibility, InjectAction::CheckAccessibility)
            },
            _ => unexpected,
        },
        InjectPhase::RestoringFocus => match e {
            InjectEvent::FocusRestored(restored) => (
                InjectPhase::SettlingFocus { restored },
                InjectAction::Sleep(
                    if restored {
                        280
                    } else {
                        120
                    },
                ),
            ),
            _ => unexpected,
        },
        InjectPhase::SettlingFocus { restored } => match e {
            InjectEvent::Slept => if restored {
                (InjectPhase::RestoringFocusAgain, InjectAction::RestoreFocus)
            } else {
                (InjectPhase::CheckingAccessibility, InjectAction::CheckAccessibility)
            },
            _ => unexpected,
        },
        InjectPhase::RestoringFocusAgain => match e {
            InjectEvent::FocusRestored(_) => (InjectPhase::SettlingFocusAgain, InjectAction::Sleep(100)),
            _ => unexpected,
        },
        InjectPhase::SettlingFocusAgain => match e {
            InjectEvent::Slept => (InjectPhase::CheckingAccessibility, InjectAction::CheckAccessibility),
            _ => unexpected,
        },
        InjectPhase::CheckingAccessibility => match e {
            InjectEvent::Accessibility(trusted) => if !trusted {
                (InjectPhase::Prompting, InjectAction::PromptAccessibility)
            } else {
                after_trust(s)
            },
            _ => unexpected,
        },
        InjectPhase::Prompting => match e {
            InjectEvent::Prompted => after_trust(s),
            _ => unexpected,
        },
        InjectPhase::SnapshottingClipboard => match e {
            InjectEvent::ClipboardRead(_) => dispatch(s.mode, s.target_pid),
            _ => unexpected,
        },
        InjectPhase::WritingClipboardOnly => match e {
            InjectEvent::ClipboardWritten(r) => match r {
                Ok(_) => (InjectPhase::Done, finish_ok(s, InjectResult::ClipboardOnly)),
                Err(err) => (InjectPhase::Done, finish_err(err)),
            },
            _ => unexpected,
        },
        InjectPhase::WritingClipboardBeforeTyping => match e {
            InjectEvent::ClipboardWritten(_) => (
                InjectPhase::Typing,
                InjectAction::TypeText { target_pid: s.target_pid },
            ),
            _ => unexpected,
        },
        InjectPhase::Typing => match e {
            InjectEvent::Typed(r) => match r {
                Ok(_) => (InjectPhase::Done, finish_ok(s, InjectResult::DirectTyped)),
                Err(err) => (InjectPhase::Done, finish_err(err)),
            },
            _ => unexpected,
        },
        InjectPhase::Pasting => match e {
            InjectEvent::Pasted(r) => match r {
                Ok(_) => (InjectPhase::Done, finish_ok(s, InjectResult::Pasted)),
                Err(err) => (InjectPhase::Done, finish_err(err)),
            },
            _ => unexpected,
        },
        InjectPhase::AutoPasting => match e {
            InjectEvent::Pasted(r) => match r {
                Ok(_) => (InjectPhase::Done, finish_ok(s, InjectResult::Pasted)),
                Err(paste_error) => (
                    InjectPhase::AutoInserting { paste_error },
                    InjectAction::InsertViaAccessibility,
                ),
            },
            _ => unexpected,
        },
        InjectPhase::AutoInserting { paste_error } => match e {
            InjectEvent::AxInserted(r) => match r {
                Ok(applied) => if applied {
                    (InjectPhase::Done, finish_ok(s, InjectResult::Accessibility))
                } else {
                    (
                        InjectPhase::AutoTyping { paste_error, ax_error: None },
                        InjectAction::TypeText { target_pid: s.target_pid },
                    )
                },
                Err(ax_error) => (
                    InjectPhase::AutoTyping { paste_error, ax_error: Some(ax_error) },
                    InjectAction::TypeText { target_pid: s.target_pid },
                ),
            },
            _ => unexpected,
        },
        InjectPhase::AutoTyping { paste_error, ax_error } => match e {
            InjectEvent::Typed(r) => match r {
                Ok(_) => (InjectPhase::Done, finish_ok(s, InjectResult::DirectTyped)),
                Err(type_error) => (
                    InjectPhase::SavingTranscript { paste_error, ax_error, type_error },
                    InjectAction::WriteClipboard,
                ),
            },
            _ => unexpected,
        },
        InjectPhase::SavingTranscript { paste_error, ax_error, type_error } => match e {
            InjectEvent::ClipboardWritten(r) => match r {
                Ok(_) => (
                    InjectPhase::CheckingTrustForFailure { paste_error, ax_error, type_error },
                    InjectAction::CheckAccessibility,
                ),
                Err(err) => (InjectPhase::Done, finish_err(err)),
            },
            _ => unexpected,
        },
        InjectPhase::CheckingTrustForFailure { .. } => unexpected,
        InjectPhase::Done => unexpected,
    }
}

fn unexpected_event() -> (e: OtoError)
    ensures
        e.text() == unexpected_text(),
{
    OtoError::Message(owned("unexpected event in text injection"))
}

impl Injection {
    /// An injection of `text` in `mode`, aimed at `focus` where one was
    /// captured, giving the clipboard back afterwards if `restore_clipboard`.
    pub fn new(
        text: String,
        mode: InjectionMode,
        focus: Option<&FocusTarget>,
        restore_clipboard: bool,
    ) -> (s: Injection)
        ensures
            s.text == text,
            s.mode == mode,
            s.target_pid == (match focus {
                Some(f) => f.pid,
                None => None,
            }),
            s.has_focus == focus is Some,
            s.restore_clipboard == restore_clipboard,
            s.previous is None,
            s.phase is Start,
    {
        let (target_pid, has_focus) = match focus {
            Some(f) => (f.pid, true),
            None => (None, false),
        };
        Injection {
            text,
            mode,
            target_pid,
            has_focus,
            restore_clipboard,
            previous: None,
            phase: InjectPhase::Start,
        }
    }

    fn finish_ok(&self, kind: InjectResult) -> (a: InjectAction)
        ensures
            a == finish_ok(*self, kind),
    {
        let restore = if kind != InjectResult::ClipboardOnly {
            clipboard_restore(self.previous.clone(), self.text.as_str())
        } else {
            None
        };
        InjectAction::Finish { result: Ok(kind), restore_clipboard: restore }
    }

    fn after_trust(&self) -> (r: (InjectPhase, InjectAction))
        ensures
            r == after_trust(*self),
    {
        if self.restore_clipboard && self.mode != InjectionMode::ClipboardOnly {
            (InjectPhase::SnapshottingClipboard, InjectAction::ReadClipboard)
        } else {
            self.dispatch()
        }
    }

    fn dispatch(&self) -> (r: (InjectPhase, InjectAction))
        ensures
            r == dispatch(self.mode, self.target_pid),
    {
        match self.mode {
            InjectionMode::ClipboardOnly => (
                InjectPhase::WritingClipboardOnly,
                InjectAction::WriteClipboard,
            ),
            InjectionMode::DirectType => (
                InjectPhase::WritingClipboardBeforeTyping,
                InjectAction::WriteClipboard,
            ),
            InjectionMode::ClipboardPaste => (
                InjectPhase::Pasting,
                InjectAction::PasteFromClipboard { target_pid: self.target_pid },
            ),
            InjectionMode::Auto => (
                InjectPhase::AutoPasting,
                InjectAction::PasteFromClipboard { target_pid: self.target_pid },
            ),
        }
    }

    /// Takes in `event` and says what to do next (see `inject_step`).
    pub fn step(&mut self, event: InjectEvent) -> (a: InjectAction)
        ensures
            inject_step(*old(self), event, *final(self), a),
    {
        let mut phase = InjectPhase::Done;
        std::mem::swap(&mut phase, &mut self.phase);
        let ghost old_self = *old(self);
        assert(old_self.phase == phase);
        let unexpected = InjectAction::Finish {
            result: Err(unexpected_event()),
            restore_clipboard: None,
        };
        let (next, action) = match phase {
            InjectPhase::Start => match event {
                InjectEvent::Started => if self.has_focus {
                    (InjectPhase::RestoringFocus, InjectAction::RestoreFocus)
                } else {
                    (InjectPhase::CheckingAccessibility, InjectAction::CheckAccessibility)
                },
                _ => (InjectPhase::Done, unexpected),
            },
            InjectPhase::RestoringFocus => match event {
                InjectEvent::FocusRestored(restored) => (
                    InjectPhase::SettlingFocus { restored },
                    InjectAction::Sleep(
                        if restored {
                            280
                        } else {
                            120
                        },
                    ),
                ),
                _ => (InjectPhase::Done, unexpected),
            },
            InjectPhase::SettlingFocus { restored } => match event {
                InjectEvent::Slept => if restored {
                    (InjectPhase::RestoringFocusAgain, InjectAction::RestoreFocus)
                } else {
                    (InjectPhase::CheckingAccessibility, InjectAction::CheckAccessibility)
                },
                _ => (InjectPhase::Done, unexpected),
            },
            InjectPhase::RestoringFocusAgain => match event {
                InjectEvent::FocusRestored(_) => (
                    InjectPhase::SettlingFocusAgain,
                    InjectAction::Sleep(100),
                ),
                _ => (InjectPhase::Done, unexpected),
            },
            InjectPhase::SettlingFocusAgain => match event {
                InjectEvent::Slept => (
                    InjectPhase::CheckingAccessibility,
                    InjectAction::CheckAccessibility,
                ),
                _ => (InjectPhase::Done, unexpected),
            },
            InjectPhase::CheckingAccessibility => match event {
                InjectEvent::Accessibility(trusted) => if !trusted {
                    (InjectPhase::Prompting, InjectAction::PromptAccessibility)
                } else {
                    self.after_trust()
                },
                _ => (InjectPhase::Done, unexpected),
            },
            InjectPhase::Prompting => match event {
                InjectEvent::Prompted => self.after_trust(),
                _ => (InjectPhase::Done, unexpected),
            },
            InjectPhase::SnapshottingClipboard => match event {
                InjectEvent::ClipboardRead(p) => {
                    self.previous = p;
                    self.dispatch()
                },
                _ => (InjectPhase::Done, unexpected),
            },
            InjectPhase::WritingClipboardOnly => match event {
                InjectEvent::ClipboardWritten(r) => match r {
                    Ok(_) => (InjectPhase::Done, self.finish_ok(InjectResult::ClipboardOnly)),
                    Err(err) => (
                        InjectPhase::Done,
                        InjectAction::Finish { result: Err(err), restore_clipboard: None },
                    ),
                },
                _ => (InjectPhase::Done, unexpected),
            },
            InjectPhase::WritingClipboardBeforeTyping => match event {
                InjectEvent::ClipboardWritten(_) => (
                    InjectPhase::Typing,
                    InjectAction::TypeText { target_pid: self.target_pid },
                ),
                _ => (InjectPhase::Done, unexpected),
            },
            InjectPhase::Typing => match event {
                InjectEvent::Typed(r) => match r {
                    Ok(_) => (InjectPhase::Done, self.finish_ok(InjectResult::DirectTyped)),
                    Err(err) => (
                        InjectPhase::Done,
                        InjectAction::Finish { result: Err(err), restore_clipboard: None },
                    ),
                },
                _ => (InjectPhase::Done, unexpected),
            },
            InjectPhase::Pasting => match event {
                InjectEvent::Pasted(r) => match r {
                    Ok(_) => (InjectPhase::Done, self.finish_ok(InjectResult::Pasted)),
                    Err(err) => (
                        InjectPhase::Done,
                        InjectAction::Finish { result: Err(err), restore_clipboard: None },
                    ),
                },
                _ => (InjectPhase::Done, unexpected),
            },
            InjectPhase::AutoPasting => match event {
                InjectEvent::Pasted(r) => match r {
                    Ok(_) => (InjectPhase::Done, self.finish_ok(InjectResult::Pasted)),
                    Err(paste_error) => (
                        InjectPhase::AutoInserting { paste_error },
                        InjectAction::InsertViaAccessibility,
                    ),
                },
                _ => (InjectPhase::Done, unexpected),
            },
            InjectPhase::AutoInserting { paste_error } => match event {
                InjectEvent::AxInserted(r) => match r {
                    Ok(applied) => if applied {
                        (InjectPhase::Done, self.finish_ok(InjectResult::Accessibility))
                    } else {
                        (
                            InjectPhase::AutoTyping { paste_error, ax_error: None },
                            InjectAction::TypeText { target_pid: self.target_pid },
                        )
                    },
                    Err(ax_error) => (
                        InjectPhase::AutoTyping { paste_error, ax_error: Some(ax_error) },
                        InjectAction::TypeText { target_pid: self.target_pid },
                    ),
                },
                _ => (InjectPhase::Done, unexpected),
            },
            InjectPhase::AutoTyping { paste_error, ax_error } => match event {
                InjectEvent::Typed(r) => match r {
                    Ok(_) => (InjectPhase::Done, self.finish_ok(InjectResult::DirectTyped)),
                    Err(type_error) => (
                        InjectPhase::SavingTranscript { paste_error, ax_error, type_error },
                        InjectAction::WriteClipboard,
                    ),
                },
                _ => (InjectPhase::Done, unexpected),
            },
            InjectPhase::SavingTranscript { paste_error, ax_error, type_error } => match event {
                InjectEvent::ClipboardWritten(r) => match r {
                    Ok(_) => (
                        InjectPhase::CheckingTrustForFailure { paste_error, ax_error, type_error },
                        InjectAction::CheckAccessibility,
                    ),
                    Err(err) => (
                        InjectPhase::Done,
                        InjectAction::Finish { result: Err(err), restore_clipboard: None },
                    ),
                },
                _ => (InjectPhase::Done, unexpected),
            },
            InjectPhase::CheckingTrustForFailure { paste_error, ax_error, type_error } => match event {
                InjectEvent::Accessibility(trusted) => {
                    let ax = match &ax_error {
                        Some(e) => Some(e),
                        None => None,
                    };
                    let err = automatic_injection_failed(trusted, &paste_error, ax, &type_error);
                    (InjectPhase::Done, InjectAction::Finish { result: Err(err), restore_clipboard: None })
                },
                _ => (InjectPhase::Done, unexpected),
            },
            InjectPhase::Done => (InjectPhase::Done, unexpected),
        };
        self.phase = next;
        action
    }
}

// ---------------------------------------------------------------------------
// Capturing the selected text
// ---------------------------------------------------------------------------

/// The placeholder put on the clipboard before ⌘C, made unique by the time
/// `nanos` (nanoseconds since the Unix epoch).
pub open spec fn selection_sentinel_of(nanos: nat) -> Seq<char> {
    "__oto_selection_"@ + decimal_nat(nanos) + "__"@
}

/// The placeholder put on the clipboard before ⌘C.
pub fn selection_sentinel(nanos: u128) -> (s: String)
    ensures
        s@ == selection_sentinel_of(nanos as nat),
{
    String::from_str("__oto_selection_").concat(decimal_u128(nanos).as_str()).concat("__")
}

/// The text of the error when ⌘C copied nothing.
pub open spec fn no_selection_text() -> Seq<char> {
    "No selected text found — select text in the target app first"@
}

/// What the outside world reports back to a capture.
#[derive(Debug)]
pub enum CaptureEvent {
    /// The capture starts.
    Started,
    /// The selection read through Accessibility.
    AxSelection(OtoResult<Option<String>>),
    /// What the clipboard held before (none where it could not be read).
    PreviousClipboard(Option<String>),
    /// The time, in nanoseconds since the Unix epoch.
    Clock(u128),
    /// The outcome of putting the placeholder on the clipboard.
    SentinelWritten(OtoResult<()>),
    /// The process of the captured focus target, where there is one.
    FocusTarget(Option<i32>),
    /// The outcome of simulating ⌘C.
    Copied(OtoResult<()>),
    /// The requested pause is over.
    Slept,
    /// What the clipboard holds after ⌘C.
    Selection(OtoResult<String>),
}

/// What the outside world is to do next.
#[derive(Debug)]
pub enum CaptureAction {
    /// Read the focused field's selection through Accessibility.
    ReadAxSelection,
    /// Read the clipboard's text, to give it back later.
    ReadPreviousClipboard,
    /// Read the time.
    ReadClock,
    /// Put this placeholder on the clipboard.
    WriteSentinel(String),
    /// Capture the frontmost application other than Oto.
    CaptureFocusTarget,
    /// Simulate ⌘C in `target_pid`.
    Copy { target_pid: Option<i32> },
    /// Pause.
    Sleep(u64),
    /// Read what the clipboard holds now.
    ReadSelection,
    /// Stop with `result`, after putting `restore_clipboard` back on the
    /// clipboard where it holds text (ignoring a failure to do so).
    Finish { result: OtoResult<String>, restore_clipboard: Option<String> },
}

/// Where a capture stands.
#[derive(Debug)]
pub enum CapturePhase {
    Start,
    ReadingAxSelection,
    ReadingPrevious,
    ReadingClock,
    WritingSentinel,
    FindingTarget,
    Copying,
    Waiting,
    ReadingSelection,
    Done,
}

/// Capturing the text selected in the focused application: through
/// Accessibility where possible, else through ⌘C and the clipboard, which
/// is given back afterwards.
#[derive(Debug)]
pub struct Capture {
    pub previous: Option<String>,
    pub sentinel: String,
    pub phase: CapturePhase,
}

/// The event `e` is the one the phase waits for.
pub open spec fn capture_fits(phase: CapturePhase, e: CaptureEvent) -> bool {
    match phase {
        CapturePhase::Start => e is Started,
        CapturePhase::ReadingAxSelection => e is AxSelection,
        CapturePhase::ReadingPrevious => e is PreviousClipboard,
        CapturePhase::ReadingClock => e is Clock,
        CapturePhase::WritingSentinel => e is SentinelWritten,
        CapturePhase::FindingTarget => e is FocusTarget,
        CapturePhase::Copying => e is Copied,
        CapturePhase::Waiting => e is Slept,
        CapturePhase::ReadingSelection => e is Selection,
        CapturePhase::Done => false,
    }
}

/// One step of a capture: after `e` in `s`, the capture is `s2` and the
/// action is `a`.
pub open spec fn capture_step(s: Capture, e: CaptureEvent, s2: Capture, a: CaptureAction) -> bool {
    if !capture_fits(s.phase, e) {
        &&& s2.phase is Done
        &&& a matches CaptureAction::Finish { result: Err(err), restore_clipboard: None }
        &&& err.text() == unexpected_text()
    } else {
        match e {
            CaptureEvent::Started => s2.previous == s.previous && s2.sentinel == s.sentinel
                && s2.phase is ReadingAxSelection && a is ReadAxSelection,
            CaptureEvent::AxSelection(r) => s2.previous == s.previous && s2.sentinel == s.sentinel
                && match r {
                Err(err) => s2.phase is Done && a == (CaptureAction::Finish {
                    result: Err(err),
                    restore_clipboard: None,
                }),
                Ok(Some(sel)) => s2.phase is Done && a == (CaptureAction::Finish {
                    result: Ok(sel),
                    restore_clipboard: None,
                }),
                Ok(None) => s2.phase is ReadingPrevious && a is ReadPreviousClipboard,
            },
            CaptureEvent::PreviousClipboard(p) => s2.previous == p && s2.sentinel == s.sentinel
                && s2.phase is ReadingClock && a is ReadClock,
            CaptureEvent::Clock(nanos) => s2.previous == s.previous && s2.sentinel@
                == selection_sentinel_of(nanos as nat) && s2.phase is WritingSentinel && a
                == CaptureAction::WriteSentinel(s2.sentinel),
            CaptureEvent::SentinelWritten(r) => s2.previous == s.previous && s2.sentinel
                == s.sentinel && match r {
                Err(err) => s2.phase is Done && a == (CaptureAction::Finish {
                    result: Err(err),
                    restore_clipboard: None,
                }),
                Ok(_) => s2.phase is FindingTarget && a is CaptureFocusTarget,
            },
            CaptureEvent::FocusTarget(pid) => s2.previous == s.previous && s2.sentinel
                == s.sentinel && s2.phase is Copying && a == (CaptureAction::Copy {
                target_pid: pid,
            }),
            CaptureEvent::Copied(r) => s2.previous == s.previous && s2.sentinel == s.sentinel
                && match r {
                Err(err) => s2.phase is Done && a == (CaptureAction::Finish {
                    result: Err(err),
                    restore_clipboard: s.previous,
                }),
                Ok(_) => s2.phase is Waiting && a == CaptureAction::Sleep(160),
            },
            CaptureEvent::Slept => s2.previous == s.previous && s2.sentinel == s.sentinel
                && s2.phase is ReadingSelection && a is ReadSelection,
            CaptureEvent::Selection(r) => s2.phase is Done && match r {
                Err(err) => a == (CaptureAction::Finish {
                    result: Err(err),
                    restore_clipboard: None,
                }),
                Ok(sel) => if sel@ == s.sentinel@ || is_blank_seq(sel@) {
                    a matches CaptureAction::Finish { result: Err(err), restore_clipboard }
                        && err.text() == no_selection_text() && restore_clipboard == s.previous
                } else {
                    a == (CaptureAction::Finish { result: Ok(sel), restore_clipboard: s.previous })
                },
            },
        }
    }
}

impl Capture {
    /// A capture, not started yet.
    pub fn new() -> (c: Capture)
        ensures
            c.previous is None,
            c.phase is Start,
    {
        Capture { previous: None, sentinel: String::new(), phase: CapturePhase::Start }
    }

    /// Takes in `event` and says what to do next (see `capture_step`).
    pub fn step(&mut self, event: CaptureEvent) -> (a: CaptureAction)
        ensures
            capture_step(*old(self), event, *final(self), a),
    {
        let mut phase = CapturePhase::Done;
        std::mem::swap(&mut phase, &mut self.phase);
        let unexpected = CaptureAction::Finish {
            result: Err(unexpected_event()),
            restore_clipboard: None,
        };
        let (next, action) = match (phase, event) {
            (CapturePhase::Start, CaptureEvent::Started) => (
                CapturePhase::ReadingAxSelection,
                CaptureAction::ReadAxSelection,
            ),
            (CapturePhase::ReadingAxSelection, CaptureEvent::AxSelection(r)) => match r {
                Err(err) => (
                    CapturePhase::Done,
                    CaptureAction::Finish { result: Err(err), restore_clipboard: None },
                ),
                Ok(Some(sel)) => (
                    CapturePhase::Done,
                    CaptureAction::Finish { result: Ok(sel), restore_clipboard: None },
                ),
                Ok(None) => (CapturePhase::ReadingPrevious, CaptureAction::ReadPreviousClipboard),
            },
            (CapturePhase::ReadingPrevious, CaptureEvent::PreviousClipboard(p)) => {
                self.previous = p;
                (CapturePhase::ReadingClock, CaptureAction::ReadClock)
            },
            (CapturePhase::ReadingClock, CaptureEvent::Clock(nanos)) => {
                self.sentinel = selection_sentinel(nanos);
                (CapturePhase::WritingSentinel, CaptureAction::WriteSentinel(self.sentinel.clone()))
            },
            (CapturePhase::WritingSentinel, CaptureEvent::SentinelWritten(r)) => match r {
                Err(err) => (
                    CapturePhase::Done,
                    CaptureAction::Finish { result: Err(err), restore_clipboard: None },
                ),
                Ok(_) => (CapturePhase::FindingTarget, CaptureAction::CaptureFocusTarget),
            },
            (CapturePhase::FindingTarget, CaptureEvent::FocusTarget(pid)) => (
                CapturePhase::Copying,
                CaptureAction::Copy { target_pid: pid },
            ),
            (CapturePhase::Copying, CaptureEvent::Copied(r)) => match r {
                Err(err) => (
                    CapturePhase::Done,
                    CaptureAction::Finish {
                        result: Err(err),
                        restore_clipboard: self.previous.clone(),
                    },
                ),
                Ok(_) => (CapturePhase::Waiting, CaptureAction::Sleep(160)),
            },
            (CapturePhase::Waiting, CaptureEvent::Slept) => (
                CapturePhase::ReadingSelection,
                CaptureAction::ReadSelection,
            ),
            (CapturePhase::ReadingSelection, CaptureEvent::Selection(r)) => match r {
                Err(err) => (
                    CapturePhase::Done,
                    CaptureAction::Finish { result: Err(err), restore_clipboard: None },
                ),
                Ok(sel) => {
                    if sel == self.sentinel || is_blank(sel.as_str()) {
                        (
                            CapturePhase::Done,
                            CaptureAction::Finish {
                                result: Err(
                                    OtoError::Message(
                                        owned(
                                            "No selected text found — select text in the target app first",
                                        ),
                                    ),
                                ),
                                restore_clipboard: self.previous.clone(),
                            },
                        )
                    } else {
                        (
                            CapturePhase::Done,
                            CaptureAction::Finish {
                                result: Ok(sel),
                                restore_clipboard: self.previous.clone(),
                            },
                        )
                    }
                },
            },
            (_, _) => (CapturePhase::Done, unexpected),
        };
        self.phase = next;
        action
    }
}

/// Once the clipboard has been read back after ⌘C, a capture never returns
/// the placeholder it put there, nor a blank text, and it gives the
/// previous clipboard back.
pub proof fn lemma_capture_never_returns_sentinel(
    s: Capture,
    e: CaptureEvent,
    s2: Capture,
    a: CaptureAction,
)
    requires
        capture_step(s, e, s2, a),
        s.phase is ReadingSelection,
        e matches CaptureEvent::Selection(Ok(_)),
    ensures
        a matches CaptureAction::Finish { result, restore_clipboard } && restore_clipboard
            == s.previous && (result matches Ok(t) ==> t@ != s.sentinel@ && !is_blank_seq(t@)),
{
}

// ---------------------------------------------------------------------------
// Laws
// ---------------------------------------------------------------------------

/// The phase belongs to the injection's mode.
pub open spec fn phase_fits_mode(s: Injection) -> bool {
    match s.phase {
        InjectPhase::WritingClipboardOnly => s.mode == InjectionMode::ClipboardOnly,
        InjectPhase::WritingClipboardBeforeTyping => s.mode == InjectionMode::DirectType,
        InjectPhase::Typing => s.mode == InjectionMode::DirectType,
        InjectPhase::Pasting => s.mode == InjectionMode::ClipboardPaste,
        InjectPhase::AutoPasting => s.mode == InjectionMode::Auto,
        InjectPhase::AutoInserting { .. } => s.mode == InjectionMode::Auto,
        InjectPhase::AutoTyping { .. } => s.mode == InjectionMode::Auto,
        InjectPhase::SavingTranscript { .. } => s.mode == InjectionMode::Auto,
        InjectPhase::CheckingTrustForFailure { .. } => s.mode == InjectionMode::Auto,
        _ => true,
    }
}

/// Every step keeps the phase within the injection's mode, and a delivery
/// reports "clipboard only" exactly in clipboard-only mode: in particular
/// the automatic mode never announces success when the text only reached
/// the clipboard.
pub proof fn lemma_result_matches_mode(s: Injection, e: InjectEvent, s2: Injection, a: InjectAction)
    requires
        phase_fits_mode(s),
        inject_step(s, e, s2, a),
    ensures
        phase_fits_mode(s2),
        a matches InjectAction::Finish { result: Ok(kind), .. } ==> (kind
            == InjectResult::ClipboardOnly <==> s.mode == InjectionMode::ClipboardOnly),
{
}

/// The clipboard is only read for a later restore when a restore was asked
/// for, and never in clipboard-only mode.
pub proof fn lemma_no_snapshot_in_clipboard_only(
    s: Injection,
    e: InjectEvent,
    s2: Injection,
    a: InjectAction,
)
    requires
        inject_step(s, e, s2, a),
    ensures
        a is ReadClipboard ==> s.restore_clipboard && s.mode != InjectionMode::ClipboardOnly,
{
}

/// The previous clipboard is only put back after a delivery that succeeded
/// other than through the clipboard alone, and only when it differs from the
/// transcript; a failed injection leaves the clipboard (and the transcript
/// on it) alone.
pub proof fn lemma_restore_only_after_delivery(
    s: Injection,
    e: InjectEvent,
    s2: Injection,
    a: InjectAction,
)
    requires
        inject_step(s, e, s2, a),
    ensures
        a matches InjectAction::Finish { result, restore_clipboard: Some(p) } ==> (result matches Ok(
            kind,
        ) && kind != InjectResult::ClipboardOnly && p@ != s.text@),
{
}

/// Before reporting that every automatic route failed, the injection has
/// put the transcript on the clipboard: the final trust check is only
/// reached from a successful clipboard write after typing failed.
pub proof fn lemma_failure_keeps_transcript(
    s: Injection,
    e: InjectEvent,
    s2: Injection,
    a: InjectAction,
)
    requires
        inject_step(s, e, s2, a),
    ensures
        s2.phase is CheckingTrustForFailure ==> s.phase is SavingTranscript && e matches InjectEvent::ClipboardWritten(Ok(_)),
        s2.phase is SavingTranscript ==> a is WriteClipboard,
{
}

/// A successful finish reports a delivery that happened: the injection
/// finishes with `Ok(kind)` only on the event that reported that very
/// delivery a success (a paste for `Pasted`, typing for `DirectTyped`, an
/// applied Accessibility insert for `Accessibility`, a clipboard write for
/// `ClipboardOnly`).
pub proof fn lemma_success_only_on_success(s: Injection, e: InjectEvent, s2: Injection, a: InjectAction)
    requires
        inject_step(s, e, s2, a),
    ensures
        (match a {
            InjectAction::Finish { result: Ok(kind), .. } => match kind {
                InjectResult::Pasted => e matches InjectEvent::Pasted(Ok(_)),
                InjectResult::DirectTyped => e matches InjectEvent::Typed(Ok(_)),
                InjectResult::Accessibility => (e matches InjectEvent::AxInserted(Ok(applied))
                    && applied),
                InjectResult::ClipboardOnly => e matches InjectEvent::ClipboardWritten(Ok(_)),
            },
            _ => true,
        }),
{
}

/// A failed paste is never reported as a delivery: in clipboard-and-paste
/// mode the paste's error is the injection's result and the clipboard is
/// left alone; in the automatic mode the injection goes on to insert
/// through Accessibility.
pub proof fn lemma_failed_paste_is_not_a_delivery(
    s: Injection,
    err: OtoError,
    s2: Injection,
    a: InjectAction,
)
    requires
        inject_step(s, InjectEvent::Pasted(Err(err)), s2, a),
    ensures
        !(a matches InjectAction::Finish { result: Ok(_), .. }),
        s.phase is Pasting ==> (a == (InjectAction::Finish {
            result: Err(err),
            restore_clipboard: None,
        }) && s2.phase is Done),
        s.phase is AutoPasting ==> (a is InsertViaAccessibility && s2.phase == (
        InjectPhase::AutoInserting { paste_error: err })),
{
}

/// An error that ends a delivery is the error the system reported, and the
/// clipboard is then left alone: a failed clipboard write (in clipboard-only
/// mode, or while saving the transcript), a failed paste in
/// clipboard-and-paste mode and failed typing in direct-typing mode each
/// end the injection with exactly that error.
pub proof fn lemma_reported_error_is_the_result(
    s: Injection,
    e: InjectEvent,
    err: OtoError,
    s2: Injection,
    a: InjectAction,
)
    requires
        inject_step(s, e, s2, a),
        (s.phase is WritingClipboardOnly && e == InjectEvent::ClipboardWritten(Err(err))) || (
        s.phase is Pasting && e == InjectEvent::Pasted(Err(err))) || (s.phase is Typing && e
            == InjectEvent::Typed(Err(err))) || (s.phase is SavingTranscript && e
            == InjectEvent::ClipboardWritten(Err(err))),
    ensures
        a == (InjectAction::Finish { result: Err(err), restore_clipboard: None }),
        s2.phase is Done,
{
}

/// Key events and pastes are always aimed at the process of the captured
/// focus target (none where no target was captured).
pub proof fn lemma_deliveries_aim_at_the_target(
    s: Injection,
    e: InjectEvent,
    s2: Injection,
    a: InjectAction,
)
    requires
        inject_step(s, e, s2, a),
    ensures
        (a matches InjectAction::PasteFromClipboard { target_pid } ==> target_pid == s.target_pid),
        (a matches InjectAction::TypeText { target_pid } ==> target_pid == s.target_pid),
{
}

/// Each mode delivers the way it says: pasting happens only in the
/// clipboard-and-paste and automatic modes, typing only in the
/// direct-typing and automatic modes, an Accessibility insert only in the
/// automatic mode, and clipboard-only delivery never pastes, types or
/// inserts.
pub proof fn lemma_actions_fit_the_mode(s: Injection, e: InjectEvent, s2: Injection, a: InjectAction)
    requires
        inject_step(s, e, s2, a),
        phase_fits_mode(s),
    ensures
        a is PasteFromClipboard ==> s.mode == InjectionMode::ClipboardPaste || s.mode
            == InjectionMode::Auto,
        a is TypeText ==> s.mode == InjectionMode::DirectType || s.mode == InjectionMode::Auto,
        a is InsertViaAccessibility ==> s.mode == InjectionMode::Auto,
{
}

/// A capture returns text only when it was really selected: either the
/// selection Accessibility reported, or what ⌘C put on the clipboard when
/// that is neither the placeholder nor blank.
pub proof fn lemma_capture_returns_a_selection(
    s: Capture,
    e: CaptureEvent,
    s2: Capture,
    a: CaptureAction,
)
    requires
        capture_step(s, e, s2, a),
    ensures
        (match a {
            CaptureAction::Finish { result: Ok(t), .. } => (e == CaptureEvent::AxSelection(
                Ok(Some(t)),
            ) && s.phase is ReadingAxSelection) || (e == CaptureEvent::Selection(Ok(t))
                && s.phase is ReadingSelection && t@ != s.sentinel@ && !is_blank_seq(t@)),
            _ => true,
        }),
{
}

/// A failed ⌘C ends the capture with that error and gives the previous
/// clipboard back; a selection read through Accessibility leaves the
/// clipboard untouched.
pub proof fn lemma_capture_failures_and_clipboard(
    s: Capture,
    err: OtoError,
    s2: Capture,
    a: CaptureAction,
)
    requires
        capture_step(s, CaptureEvent::Copied(Err(err)), s2, a),
        s.phase is Copying,
    ensures
        a == (CaptureAction::Finish { result: Err(err), restore_clipboard: s.previous }),
{
}

/// A selection read through Accessibility is returned as it is, and the
/// clipboard is never touched on that path.
pub proof fn lemma_capture_ax_selection_first(
    s: Capture,
    sel: String,
    s2: Capture,
    a: CaptureAction,
)
    requires
        capture_step(s, CaptureEvent::AxSelection(Ok(Some(sel))), s2, a),
        s.phase is ReadingAxSelection,
    ensures
        a == (CaptureAction::Finish { result: Ok(sel), restore_clipboard: None }),
{
}

} // verus!
