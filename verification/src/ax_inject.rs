//! Inserting text into the focused field through the Accessibility API.
//!
//! Chromium, Electron and many web views accept `AXSelectedText` and
//! `AXValue` writes with success without changing the field. So insertion
//! is only trusted for native text roles, and only after reading the field
//! back. The reads and writes go through the system outside the library; the
//! library decides, step by step, what to read or write next and whether
//! the text was applied.

use vstd::prelude::*;

use crate::error::{OtoError, OtoResult};
use crate::focus::text_or_empty;
use crate::text::{contains, contains_seq, eq_ignore_ascii_case, eq_ignore_ascii_case_seq, owned, trim, trim_seq};

verus! {

/// Roles where settable text is usually real (not a web content shell).
pub const INSERTABLE_ROLES: [&'static str; 5] = [
    "AXTextField",
    "AXTextArea",
    "AXComboBox",
    "AXSearchField",
    "AXSecureTextField",
];

/// The role is one of the insertable roles, in any ASCII case.
pub open spec fn insertable_role(role: Seq<char>) -> bool {
    ||| eq_ignore_ascii_case_seq(role, "AXTextField"@)
    ||| eq_ignore_ascii_case_seq(role, "AXTextArea"@)
    ||| eq_ignore_ascii_case_seq(role, "AXComboBox"@)
    ||| eq_ignore_ascii_case_seq(role, "AXSearchField"@)
    ||| eq_ignore_ascii_case_seq(role, "AXSecureTextField"@)
}

/// Whether an element with `role` takes inserted text for real.
pub fn role_is_insertable(role: &str) -> (b: bool)
    ensures
        b == insertable_role(role@),
{
    eq_ignore_ascii_case(role, "AXTextField") || eq_ignore_ascii_case(role, "AXTextArea")
        || eq_ignore_ascii_case(role, "AXComboBox") || eq_ignore_ascii_case(role, "AXSearchField")
        || eq_ignore_ascii_case(role, "AXSecureTextField")
}

/// An attribute of the focused element.
#[derive(Debug, Clone, Copy, PartialEq, Eq, Structural)]
pub enum AxAttribute {
    Role,
    Value,
    SelectedText,
}

/// What the outside world reports back to the insertion.
#[derive(Debug, Clone)]
pub enum AxEvent {
    /// The insertion starts; `trusted` is whether the process holds
    /// Accessibility trust.
    Began { trusted: bool },
    /// Whether a focused element was found.
    FocusedElement { found: bool },
    /// The string value of the attribute that was read, if it has one.
    Read(Option<String>),
    /// Whether the write of the text was reported a success.
    Wrote { success: bool },
}

/// What the outside world is to do next.
#[derive(Debug, Clone, Copy, PartialEq, Eq, Structural)]
pub enum AxAction {
    /// Look up the system-wide focused element.
    FindFocusedElement,
    /// Read an attribute of the focused element as a string.
    Read(AxAttribute),
    /// Write the text to an attribute of the focused element.
    WriteText(AxAttribute),
    /// Stop: release the element if asked, and report whether the text was
    /// applied.
    Finish { applied: bool, release_element: bool },
}

/// Where the insertion stands.
#[derive(Debug, Clone)]
pub enum AxPhase {
    Start,
    FindingElement,
    ReadingRole,
    ReadingValueBefore,
    ReadingSelectionBefore { before: Option<String> },
    SettingSelection { before: Option<String>, selected_before: Option<String> },
    ReadingValueAfter { before: Option<String>, selected_before: Option<String> },
    ReadingSelectionAfter {
        before: Option<String>,
        selected_before: Option<String>,
        after: Option<String>,
    },
    SettingValue { before: Option<String>, selected_before: Option<String> },
    ReadingValueAfterSet,
    Done,
}

/// After writing the selection: the text counts as applied when the value
/// changed or holds the text, or a non-empty selection changed, or the
/// selection now is the text.
pub open spec fn selection_applied(
    text: Seq<char>,
    before: Seq<char>,
    after: Seq<char>,
    selected_before: Seq<char>,
    selected_after: Seq<char>,
) -> bool {
    ||| after != before
    ||| contains_seq(after, text)
    ||| (selected_before.len() > 0 && selected_after != selected_before)
    ||| selected_after == text
}

/// The whole value may be overwritten only when the field was empty or
/// entirely selected: never clobber a long document with the transcript.
pub open spec fn value_overwrite_allowed(before: Seq<char>, selected_before: Seq<char>) -> bool {
    before.len() == 0 || (before.len() > 0 && selected_before == before)
}

/// After overwriting the value: the text counts as applied when the value
/// is or holds the text.
pub open spec fn value_applied(text: Seq<char>, after: Seq<char>) -> bool {
    after == text || contains_seq(after, text)
}

/// Whether the element is held (and must be released) in `phase`.
pub open spec fn holds_element(phase: AxPhase) -> bool {
    !(phase is Start || phase is FindingElement || phase is Done)
}

/// Once the selection write did not apply: overwrite the value where that
/// is allowed, else give up.
pub open spec fn ax_fallback(before: Option<String>, selected_before: Option<String>) -> (
    AxPhase,
    AxAction,
) {
    if value_overwrite_allowed(text_or_empty(before), text_or_empty(selected_before)) {
        (AxPhase::SettingValue { before, selected_before }, AxAction::WriteText(AxAttribute::Value))
    } else {
        (AxPhase::Done, AxAction::Finish { applied: false, release_element: true })
    }
}

/// One step of inserting `text`: the next phase and action after `event`
/// in `phase`.
pub open spec fn ax_next(text: Seq<char>, phase: AxPhase, event: AxEvent) -> (AxPhase, AxAction) {
    let give_up = (
        AxPhase::Done,
        AxAction::Finish { applied: false, release_element: holds_element(phase) },
    );
    match phase {
        AxPhase::Start => match event {
            AxEvent::Began { trusted } => if text.len() == 0 || !trusted {
                (AxPhase::Done, AxAction::Finish { applied: false, release_element: false })
            } else {
                (AxPhase::FindingElement, AxAction::FindFocusedElement)
            },
            _ => give_up,
        },
        AxPhase::FindingElement => match event {
            AxEvent::FocusedElement { found } => if found {
                (AxPhase::ReadingRole, AxAction::Read(AxAttribute::Role))
            } else {
                (AxPhase::Done, AxAction::Finish { applied: false, release_element: false })
            },
            _ => give_up,
        },
        AxPhase::ReadingRole => match event {
            AxEvent::Read(role) => if insertable_role(text_or_empty(role)) {
                (AxPhase::ReadingValueBefore, AxAction::Read(AxAttribute::Value))
            } else {
                (AxPhase::Done, AxAction::Finish { applied: false, release_element: true })
            },
            _ => give_up,
        },
        AxPhase::ReadingValueBefore => match event {
            AxEvent::Read(before) => (
                AxPhase::ReadingSelectionBefore { before },
                AxAction::Read(AxAttribute::SelectedText),
            ),
            _ => give_up,
        },
        AxPhase::ReadingSelectionBefore { before } => match event {
            AxEvent::Read(selected_before) => (
                AxPhase::SettingSelection { before, selected_before },
                AxAction::WriteText(AxAttribute::SelectedText),
            ),
            _ => give_up,
        },
        AxPhase::SettingSelection { before, selected_before } => match event {
            AxEvent::Wrote { success } => if success {
                (
                    AxPhase::ReadingValueAfter { before, selected_before },
                    AxAction::Read(AxAttribute::Value),
                )
            } else {
                ax_fallback(before, selected_before)
            },
            _ => give_up,
        },
        AxPhase::ReadingValueAfter { before, selected_before } => match event {
            AxEvent::Read(after) => (
                AxPhase::ReadingSelectionAfter { before, selected_before, after },
                AxAction::Read(AxAttribute::SelectedText),
            ),
            _ => give_up,
        },
        AxPhase::ReadingSelectionAfter { before, selected_before, after } => match event {
            AxEvent::Read(selected_after) => if selection_applied(
                text,
                text_or_empty(before),
                text_or_empty(after),
                text_or_empty(selected_before),
                text_or_empty(selected_after),
            ) {
                (AxPhase::Done, AxAction::Finish { applied: true, release_element: true })
            } else {
                ax_fallback(before, selected_before)
            },
            _ => give_up,
        },
        AxPhase::SettingValue { .. } => match event {
            AxEvent::Wrote { success } => if success {
                (AxPhase::ReadingValueAfterSet, AxAction::Read(AxAttribute::Value))
            } else {
                (AxPhase::Done, AxAction::Finish { applied: false, release_element: true })
            },
            _ => give_up,
        },
        AxPhase::ReadingValueAfterSet => match event {
            AxEvent::Read(after) => (
                AxPhase::Done,
                AxAction::Finish {
                    applied: value_applied(text, text_or_empty(after)),
                    release_element: true,
                },
            ),
            _ => give_up,
        },
        AxPhase::Done => give_up,
    }
}

/// An insertion of `text` into the focused field, in progress.
#[derive(Debug, Clone)]
pub struct AxInsert {
    pub text: String,
    pub phase: AxPhase,
}

fn text_of(o: &Option<String>) -> (s: String)
    ensures
        s@ == text_or_empty(*o),
{
    match o {
        Some(s) => s.clone(),
        None => String::new(),
    }
}

fn holds(phase: &AxPhase) -> (b: bool)
    ensures
        b == holds_element(*phase),
{
    match phase {
        AxPhase::Start | AxPhase::FindingElement | AxPhase::Done => false,
        _ => true,
    }
}

fn fallback(before: Option<String>, selected_before: Option<String>) -> (r: (AxPhase, AxAction))
    ensures
        r == ax_fallback(before, selected_before),
{
    let b = text_of(&before);
    let sb = text_of(&selected_before);
    let nb = b.as_str().unicode_len();
    if nb == 0 || (nb > 0 && sb == b) {
        (AxPhase::SettingValue { before, selected_before }, AxAction::WriteText(AxAttribute::Value))
    } else {
        (AxPhase::Done, AxAction::Finish { applied: false, release_element: true })
    }
}

impl AxInsert {
    /// An insertion of `text`, not started yet.
    pub fn new(text: String) -> (a: AxInsert)
        ensures
            a.text == text,
            a.phase is Start,
    {
        AxInsert { text, phase: AxPhase::Start }
    }

    /// Takes in `event` and says what to do next (see `ax_next`).
    pub fn step(&mut self, event: AxEvent) -> (action: AxAction)
        ensures
            final(self).text == old(self).text,
            (final(self).phase, action) == ax_next(old(self).text@, old(self).phase, event),
    {
        let mut phase = AxPhase::Done;
        std::mem::swap(&mut phase, &mut self.phase);
        let ghost old_phase = phase;
        let give_up = AxAction::Finish { applied: false, release_element: holds(&phase) };
        let (next, action) = match phase {
            AxPhase::Start => match event {
                AxEvent::Began { trusted } => if self.text.as_str().unicode_len() == 0
                    || !trusted {
                    (AxPhase::Done, AxAction::Finish { applied: false, release_element: false })
                } else {
                    (AxPhase::FindingElement, AxAction::FindFocusedElement)
                },
                _ => (AxPhase::Done, give_up),
            },
            AxPhase::FindingElement => match event {
                AxEvent::FocusedElement { found } => if found {
                    (AxPhase::ReadingRole, AxAction::Read(AxAttribute::Role))
                } else {
                    (AxPhase::Done, AxAction::Finish { applied: false, release_element: false })
                },
                _ => (AxPhase::Done, give_up),
            },
            AxPhase::ReadingRole => match event {
                AxEvent::Read(role) => if role_is_insertable(text_of(&role).as_str()) {
                    (AxPhase::ReadingValueBefore, AxAction::Read(AxAttribute::Value))
                } else {
                    (AxPhase::Done, AxAction::Finish { applied: false, release_element: true })
                },
                _ => (AxPhase::Done, give_up),
            },
            AxPhase::ReadingValueBefore => match event {
                AxEvent::Read(before) => (
                    AxPhase::ReadingSelectionBefore { before },
                    AxAction::Read(AxAttribute::SelectedText),
                ),
                _ => (AxPhase::Done, give_up),
            },
            AxPhase::ReadingSelectionBefore { before } => match event {
                AxEvent::Read(selected_before) => (
                    AxPhase::SettingSelection { before, selected_before },
                    AxAction::WriteText(AxAttribute::SelectedText),
                ),
                _ => (AxPhase::Done, give_up),
            },
            AxPhase::SettingSelection { before, selected_before } => match event {
                AxEvent::Wrote { success } => if success {
                    (
                        AxPhase::ReadingValueAfter { before, selected_before },
                        AxAction::Read(AxAttribute::Value),
                    )
                } else {
                    fallback(before, selected_before)
                },
                _ => (AxPhase::Done, give_up),
            },
            AxPhase::ReadingValueAfter { before, selected_before } => match event {
                AxEvent::Read(after) => (
                    AxPhase::ReadingSelectionAfter { before, selected_before, after },
                    AxAction::Read(AxAttribute::SelectedText),
                ),
                _ => (AxPhase::Done, give_up),
            },
            AxPhase::ReadingSelectionAfter { before, selected_before, after } => match event {
                AxEvent::Read(selected_after) => {
                    let b = text_of(&before);
                    let a = text_of(&after);
                    let sb = text_of(&selected_before);
                    let sa = text_of(&selected_after);
                    let applied = a != b || contains(a.as_str(), self.text.as_str()) || (
                    sb.as_str().unicode_len() > 0 && sa != sb) || sa == self.text;
                    if applied {
                        (AxPhase::Done, AxAction::Finish { applied: true, release_element: true })
                    } else {
                        fallback(before, selected_before)
                    }
                },
                _ => (AxPhase::Done, give_up),
            },
            AxPhase::SettingValue { .. } => match event {
                AxEvent::Wrote { success } => if success {
                    (AxPhase::ReadingValueAfterSet, AxAction::Read(AxAttribute::Value))
                } else {
                    (AxPhase::Done, AxAction::Finish { applied: false, release_element: true })
                },
                _ => (AxPhase::Done, give_up),
            },
            AxPhase::ReadingValueAfterSet => match event {
                AxEvent::Read(after) => {
                    let a = text_of(&after);
                    let applied = a == self.text || contains(a.as_str(), self.text.as_str());
                    (AxPhase::Done, AxAction::Finish { applied, release_element: true })
                },
                _ => (AxPhase::Done, give_up),
            },
            AxPhase::Done => (AxPhase::Done, give_up),
        };
        self.phase = next;
        action
    }
}

/// The title of the window to go by: that of the focused window where the
/// application has one, else that of its main window. Each argument is
/// none where the window is missing, and holds the window's `AXTitle`
/// otherwise.
pub open spec fn chosen_window_title(
    focused: Option<Option<String>>,
    main: Option<Option<String>>,
) -> Option<String> {
    match focused {
        Some(t) => t,
        None => match main {
            Some(t) => t,
            None => None,
        },
    }
}

/// The text of a window's title: trimmed, and none when blank.
pub open spec fn window_title_of(raw: Option<String>) -> Option<Seq<char>> {
    match raw {
        Some(t) => if trim_seq(t@).len() > 0 {
            Some(trim_seq(t@))
        } else {
            None
        },
        None => None,
    }
}

/// The title of the focused window of an application: nothing without
/// Accessibility trust; else the title of its focused window, or of its
/// main window where no window is focused (see `chosen_window_title`),
/// trimmed, and none when blank or missing, so that a missing title never
/// stops a dictation.
pub fn focused_window_title(
    trusted: bool,
    focused: Option<Option<String>>,
    main: Option<Option<String>>,
) -> (r: Option<String>)
    ensures
        !trusted ==> r is None,
        trusted ==> match window_title_of(chosen_window_title(focused, main)) {
            Some(t) => r matches Some(s) && s@ == t,
            None => r is None,
        },
{
    if !trusted {
        return None;
    }
    let raw = match focused {
        Some(t) => t,
        None => match main {
            Some(t) => t,
            None => None,
        },
    };
    match raw {
        Some(t) => {
            let s = trim(t.as_str());
            if s.as_str().unicode_len() > 0 {
                Some(s)
            } else {
                None
            }
        },
        None => None,
    }
}

/// The focused field's selection through Accessibility: nothing without
/// trust, and nothing when the selection is empty. Reading a selection
/// never fails; a field without one simply has none.
pub fn try_ax_selection(trusted: bool, selected: Option<String>) -> (r: OtoResult<Option<String>>)
    ensures
        !trusted ==> r == Ok::<Option<String>, OtoError>(None),
        trusted ==> r == Ok::<Option<String>, OtoError>(
            match selected {
                Some(s) => if s@.len() > 0 {
                    Some(s)
                } else {
                    None
                },
                None => None,
            },
        ),
{
    if !trusted {
        return Ok(None);
    }
    match selected {
        Some(s) => if s.as_str().unicode_len() > 0 {
            Ok(Some(s))
        } else {
            Ok(None)
        },
        None => Ok(None),
    }
}

/// The error when Accessibility is unavailable.
pub fn ax_unavailable_message() -> (e: OtoError)
    ensures
        e.text()
            == "macOS Accessibility is unavailable — enable Oto in System Settings → Privacy & Security → Accessibility"@,
{
    OtoError::Message(
        owned(
            "macOS Accessibility is unavailable — enable Oto in System Settings → Privacy & Security → Accessibility",
        ),
    )
}

// ---------------------------------------------------------------------------
// Laws
// ---------------------------------------------------------------------------

/// The value of the field is only ever overwritten when the field was empty
/// or entirely selected before the insertion.
pub proof fn lemma_value_overwrite_only_when_safe(text: Seq<char>, phase: AxPhase, event: AxEvent)
    ensures
        ax_next(text, phase, event).1 == AxAction::WriteText(AxAttribute::Value) ==> (
        ax_next(text, phase, event).0 matches AxPhase::SettingValue { before, selected_before }
            && value_overwrite_allowed(text_or_empty(before), text_or_empty(selected_before))),
{
}

/// Without trust, or with nothing to insert, the insertion touches nothing
/// and reports that nothing was applied.
pub proof fn lemma_untrusted_or_empty_does_nothing(text: Seq<char>, trusted: bool)
    requires
        !trusted || text.len() == 0,
    ensures
        ax_next(text, AxPhase::Start, AxEvent::Began { trusted }) == (
            AxPhase::Done,
            AxAction::Finish { applied: false, release_element: false },
        ),
{
}

/// An element is released exactly when one is held: every finish after the
/// element was found releases it, and no finish before does.
pub proof fn lemma_release_iff_held(text: Seq<char>, phase: AxPhase, event: AxEvent)
    ensures
        ax_next(text, phase, event).1 matches AxAction::Finish { release_element, .. }
            ==> release_element == holds_element(phase),
{
}

/// The phases that are only entered once the focused element's role was
/// found to be a native text role.
pub open spec fn role_checked(phase: AxPhase) -> bool {
    ||| phase is ReadingValueBefore
    ||| phase is ReadingSelectionBefore
    ||| phase is SettingSelection
    ||| phase is ReadingValueAfter
    ||| phase is ReadingSelectionAfter
    ||| phase is SettingValue
    ||| phase is ReadingValueAfterSet
}

/// The phase of an insertion of `text` after `events`, from the start.
pub open spec fn ax_phase_after(text: Seq<char>, events: Seq<AxEvent>) -> AxPhase
    decreases events.len(),
{
    if events.len() == 0 {
        AxPhase::Start
    } else {
        ax_next(text, ax_phase_after(text, events.drop_last()), events.last()).0
    }
}

/// Event `j` of `events` read the role of the focused element, and that role
/// is a native text role.
pub open spec fn read_native_role(text: Seq<char>, events: Seq<AxEvent>, j: int) -> bool {
    &&& ax_phase_after(text, events.take(j)) is ReadingRole
    &&& events[j] matches AxEvent::Read(role) && insertable_role(text_or_empty(role))
}

proof fn lemma_role_checked_step(text: Seq<char>, phase: AxPhase, event: AxEvent)
    ensures
        role_checked(ax_next(text, phase, event).0) ==> role_checked(phase) || (phase is ReadingRole
            && (event matches AxEvent::Read(role) && insertable_role(text_or_empty(role)))),
        ax_next(text, phase, event).1 matches AxAction::Finish { applied, .. } && applied
            ==> role_checked(phase),
{
}

proof fn lemma_role_checked_after(text: Seq<char>, events: Seq<AxEvent>, n: int)
    requires
        0 <= n <= events.len(),
        role_checked(ax_phase_after(text, events.take(n))),
    ensures
        exists|j: int| 0 <= j < n && #[trigger] read_native_role(text, events, j),
    decreases n,
{
    if n == 0 {
        assert(events.take(0).len() == 0);
    } else {
        let prev = events.take(n - 1);
        assert(events.take(n).drop_last() =~= prev);
        assert(events.take(n).last() == events[n - 1]);
        lemma_role_checked_step(text, ax_phase_after(text, prev), events[n - 1]);
        if role_checked(ax_phase_after(text, prev)) {
            lemma_role_checked_after(text, events, n - 1);
            let j = choose|j: int| 0 <= j < n - 1 && #[trigger] read_native_role(text, events, j);
            assert(read_native_role(text, events, j));
        } else {
            assert(read_native_role(text, events, n - 1));
        }
    }
}

/// Insertion is only ever reported applied for a native text field: when
/// the step on event `k` finishes with the text applied, an earlier event
/// read the focused element's role and found it to be a native text role.
pub proof fn lemma_applied_only_for_native_roles(text: Seq<char>, events: Seq<AxEvent>, k: int)
    requires
        0 <= k < events.len(),
        ax_next(text, ax_phase_after(text, events.take(k)), events[k]).1 matches AxAction::Finish {
            applied,
            ..
        } && applied,
    ensures
        exists|j: int| 0 <= j < k && #[trigger] read_native_role(text, events, j),
{
    lemma_role_checked_step(text, ax_phase_after(text, events.take(k)), events[k]);
    lemma_role_checked_after(text, events, k);
}

/// The value that a `Read` event brought back (none for other events).
pub open spec fn read_value(e: AxEvent) -> Option<String> {
    match e {
        AxEvent::Read(v) => v,
        _ => None,
    }
}

/// Events `j` and `j + 1` of `events` read the field's value and then its
/// selection, before anything was written.
pub open spec fn read_before_write(text: Seq<char>, events: Seq<AxEvent>, j: int) -> bool {
    &&& 0 <= j
    &&& j + 1 < events.len()
    &&& ax_phase_after(text, events.take(j)) is ReadingValueBefore
    &&& events[j] is Read
    &&& events[j + 1] is Read
}

/// The field's value is overwritten only where it was empty, or entirely
/// selected, when it was read before the insertion: a step whose action
/// writes the value is taken from a phase that holds the value and the
/// selection read before, and the value was empty or equal to the
/// selection.
pub proof fn lemma_value_written_only_over_empty_or_selected(
    text: Seq<char>,
    phase: AxPhase,
    event: AxEvent,
)
    ensures
        ax_next(text, phase, event).1 == AxAction::WriteText(AxAttribute::Value) ==> (match phase {
            AxPhase::SettingSelection { before, selected_before } => text_or_empty(before).len()
                == 0 || text_or_empty(selected_before) == text_or_empty(before),
            AxPhase::ReadingSelectionAfter { before, selected_before, .. } => text_or_empty(
                before,
            ).len() == 0 || text_or_empty(selected_before) == text_or_empty(before),
            _ => false,
        }),
{
}

proof fn lemma_carried_reads(text: Seq<char>, events: Seq<AxEvent>, n: int)
    requires
        0 <= n <= events.len(),
    ensures
        (match ax_phase_after(text, events.take(n)) {
            AxPhase::ReadingSelectionBefore { before } => 1 <= n && ax_phase_after(
                text,
                events.take(n - 1),
            ) is ReadingValueBefore && events[n - 1] is Read && read_value(events[n - 1])
                == before,
            AxPhase::SettingSelection { before, selected_before } => exists|j: int|
                #[trigger] read_before_write(text, events, j) && j + 1 < n && read_value(events[j])
                    == before && read_value(events[j + 1]) == selected_before,
            AxPhase::ReadingValueAfter { before, selected_before } => exists|j: int|
                #[trigger] read_before_write(text, events, j) && j + 1 < n && read_value(events[j])
                    == before && read_value(events[j + 1]) == selected_before,
            AxPhase::ReadingSelectionAfter { before, selected_before, .. } => exists|j: int|
                #[trigger] read_before_write(text, events, j) && j + 1 < n && read_value(events[j])
                    == before && read_value(events[j + 1]) == selected_before,
            AxPhase::SettingValue { before, selected_before } => exists|j: int|
                #[trigger] read_before_write(text, events, j) && j + 1 < n && read_value(events[j])
                    == before && read_value(events[j + 1]) == selected_before,
            _ => true,
        }),
    decreases n,
{
    if n > 0 {
        lemma_carried_reads(text, events, n - 1);
        let prev = events.take(n - 1);
        assert(events.take(n).drop_last() =~= prev);
        assert(events.take(n).last() == events[n - 1]);
        let p = ax_phase_after(text, prev);
        let e = events[n - 1];
        assert(ax_phase_after(text, events.take(n)) == ax_next(text, p, e).0);
        match p {
            AxPhase::ReadingSelectionBefore { before } => {
                if e is Read {
                    assert(read_before_write(text, events, n - 2));
                }
            },
            _ => {},
        }
    }
}

/// Across a whole insertion: when the step on event `k` writes the text
/// over the field's value, an earlier pair of events read the value and
/// then the selection, and that value was empty or equal to that selection.
pub proof fn lemma_value_overwrite_needs_empty_or_selected_field(
    text: Seq<char>,
    events: Seq<AxEvent>,
    k: int,
)
    requires
        0 <= k < events.len(),
        ax_next(text, ax_phase_after(text, events.take(k)), events[k]).1 == AxAction::WriteText(
            AxAttribute::Value,
        ),
    ensures
        exists|j: int|
            #[trigger] read_before_write(text, events, j) && j + 1 < k && (text_or_empty(
                read_value(events[j]),
            ).len() == 0 || text_or_empty(read_value(events[j + 1])) == text_or_empty(
                read_value(events[j]),
            )),
{
    lemma_value_written_only_over_empty_or_selected(
        text,
        ax_phase_after(text, events.take(k)),
        events[k],
    );
    lemma_carried_reads(text, events, k);
}

/// The text is reported applied only when reading the field back shows
/// it: after the selection write, the value changed or holds the text, or
/// a non-empty selection changed, or the selection now is the text; after
/// overwriting the value, the value is or holds the text.
pub proof fn lemma_applied_only_when_read_back(text: Seq<char>, phase: AxPhase, event: AxEvent)
    ensures
        ax_next(text, phase, event).1 matches AxAction::Finish { applied, .. } && applied ==> (
        match phase {
            AxPhase::ReadingSelectionAfter { before, selected_before, after } => {
                let b = text_or_empty(before);
                let a = text_or_empty(after);
                let sb = text_or_empty(selected_before);
                let sa = text_or_empty(read_value(event));
                &&& event is Read
                &&& (a != b || (exists|i: int|
                    0 <= i && i + text.len() <= a.len() && #[trigger] a.subrange(i, i + text.len())
                        == text) || (sb.len() > 0 && sa != sb) || sa == text)
            },
            AxPhase::ReadingValueAfterSet => {
                let a = text_or_empty(read_value(event));
                &&& event is Read
                &&& (a == text || exists|i: int|
                    0 <= i && i + text.len() <= a.len() && #[trigger] a.subrange(i, i + text.len())
                        == text)
            },
            _ => false,
        }),
{
}

} // verus!
