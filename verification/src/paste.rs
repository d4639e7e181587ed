//! Keyboard simulation for paste, copy and typing, and the Accessibility
//! trust status that all of them need.
//!
//! The library decides which key events to send, where to send them, in
//! which order the delivery routes are tried and what the user is told when
//! they fail; posting the events and asking macOS for trust happen outside.

use vstd::prelude::*;

use crate::error::{OtoError, OtoResult};
use crate::paths::{display_name, display_name_of, is_bundled_app, is_bundled_path, opt_str_view};
use crate::text::{join, join_seq, owned, trim, trim_seq, views};

verus! {

// ---------------------------------------------------------------------------
// The running process
// ---------------------------------------------------------------------------

/// What the running process knows about its own executable.
#[derive(Debug, Clone)]
pub struct ProcessIdentity {
    /// `std::env::current_exe()`, as text.
    pub current_exe: Option<String>,
    /// The executable's canonical path (its plain path where it cannot be
    /// canonicalized), as text.
    pub executable_path: Option<String>,
}

/// The view of an optional string.
pub open spec fn opt_string_view(o: Option<String>) -> Option<Seq<char>> {
    match o {
        Some(s) => Some(s@),
        None => None,
    }
}

/// `o.unwrap_or_default()` for an optional string.
pub open spec fn or_empty(o: Option<String>) -> Seq<char> {
    match o {
        Some(s) => s@,
        None => Seq::empty(),
    }
}

/// An optional string as a string slice.
pub fn opt_as_str(o: &Option<String>) -> (r: Option<&str>)
    ensures
        opt_str_view(r) == opt_string_view(*o),
{
    match o {
        Some(s) => Some(s.as_str()),
        None => None,
    }
}

/// `o.clone().unwrap_or_default()` for an optional string.
pub fn string_or_empty(o: &Option<String>) -> (s: String)
    ensures
        s@ == or_empty(*o),
{
    match o {
        Some(s) => s.clone(),
        None => String::new(),
    }
}

impl ProcessIdentity {
    /// The name under which the program shows up.
    pub open spec fn display_name_spec(self) -> Seq<char> {
        display_name_of(opt_string_view(self.current_exe))
    }

    /// Whether the program runs from an application bundle.
    pub open spec fn bundled_spec(self) -> bool {
        self.current_exe matches Some(p) && is_bundled_path(p@)
    }
}

// ---------------------------------------------------------------------------
// Accessibility trust
// ---------------------------------------------------------------------------

/// The bundle identifier of the application.
pub const BUNDLE_ID: &'static str = "dev.oto.mac";

/// `"trusted"` when the process holds Accessibility trust, else `"not-trusted"`.
pub fn accessibility_status(trusted: bool) -> (s: &'static str)
    ensures
        trusted ==> s@ == "trusted"@,
        !trusted ==> s@ == "not-trusted"@,
{
    if trusted {
        "trusted"
    } else {
        "not-trusted"
    }
}

/// Accessibility trust and how to grant it.
#[derive(Debug, Clone)]
pub struct AccessibilityStatus {
    pub trusted: bool,
    pub bundled: bool,
    pub display_name: String,
    pub executable_path: String,
    pub bundle_id: String,
    pub guidance: String,
}

/// How to grant Accessibility trust, for the given state.
pub open spec fn guidance_of(
    trusted: bool,
    bundled: bool,
    name: Seq<char>,
    path: Seq<char>,
) -> Seq<char> {
    if trusted {
        "Accessibility is granted. Oto will paste with ⌘V into the focused app."@
    } else if bundled {
        "Accessibility is required for insertion. Unlock Accessibility settings, click +, add “"@
            + name + ".app”, enable the toggle, then quit and reopen Oto."@
    } else {
        "Dev binary — add this path with + in Accessibility:\n"@ + path
    }
}

/// The Accessibility status of a process that is `trusted` or not.
pub fn accessibility_status_detail(trusted: bool, who: &ProcessIdentity) -> (s: AccessibilityStatus)
    ensures
        s.trusted == trusted,
        s.bundled == who.bundled_spec(),
        s.display_name@ == who.display_name_spec(),
        s.executable_path@ == or_empty(who.executable_path),
        s.bundle_id@ == BUNDLE_ID@,
        s.guidance@ == guidance_of(trusted, s.bundled, s.display_name@, s.executable_path@),
{
    let bundled = is_bundled_app(opt_as_str(&who.current_exe));
    let name = display_name(opt_as_str(&who.current_exe));
    let path = string_or_empty(&who.executable_path);
    let guidance = if trusted {
        owned("Accessibility is granted. Oto will paste with ⌘V into the focused app.")
    } else if bundled {
        String::from_str(
            "Accessibility is required for insertion. Unlock Accessibility settings, click +, add “",
        ).concat(name.as_str()).concat(".app”, enable the toggle, then quit and reopen Oto.")
    } else {
        String::from_str("Dev binary — add this path with + in Accessibility:\n").concat(
            path.as_str(),
        )
    };
    AccessibilityStatus {
        trusted,
        bundled,
        display_name: name,
        executable_path: path,
        bundle_id: owned(BUNDLE_ID),
        guidance,
    }
}

/// What asking for Accessibility trust comes to.
#[derive(Debug, Clone, Copy, PartialEq, Eq, Structural)]
pub enum PromptDecision {
    /// Trust is already held: nothing to ask.
    AlreadyTrusted,
    /// The system dialog was already shown in this session: do not nag.
    AlreadyPrompted,
    /// Open the settings pane and show the system trust dialog.
    OpenSettingsAndPrompt,
}

/// The decision, and whether the dialog has been shown this session
/// afterwards, for a process that is `trusted` or not when the dialog has
/// (`prompted`) or has not been shown before.
pub open spec fn prompt_step(trusted: bool, prompted: bool) -> (PromptDecision, bool) {
    if trusted {
        (PromptDecision::AlreadyTrusted, prompted)
    } else if prompted {
        (PromptDecision::AlreadyPrompted, true)
    } else {
        (PromptDecision::OpenSettingsAndPrompt, true)
    }
}

/// Decides whether to show the Accessibility trust dialog (see
/// `prompt_step`); `prompted_this_session` records whether it has been.
pub fn ensure_accessibility_prompt(trusted: bool, prompted_this_session: &mut bool) -> (d:
    PromptDecision)
    ensures
        (d, *final(prompted_this_session)) == prompt_step(trusted, *old(prompted_this_session)),
{
    if trusted {
        return PromptDecision::AlreadyTrusted;
    }
    let was = *prompted_this_session;
    *prompted_this_session = true;
    if was {
        PromptDecision::AlreadyPrompted
    } else {
        PromptDecision::OpenSettingsAndPrompt
    }
}

/// Once shown, the dialog stays shown for the session: no call forgets it.
pub proof fn lemma_prompt_remembered(trusted: bool, prompted: bool)
    ensures
        prompted ==> prompt_step(trusted, prompted).1,
{
}

/// The trust dialog is shown at most once per session: after any call made
/// without trust, no later call shows it again.
pub proof fn lemma_prompt_at_most_once(first: bool, later: Seq<bool>, prompted: bool)
    requires
        !first,
    ensures
        forall|i: int|
            0 <= i < later.len() ==> (#[trigger] prompt_step(
                later[i],
                prompted_after(later.take(i), prompt_step(first, prompted).1),
            )).0 != PromptDecision::OpenSettingsAndPrompt,
{
    assert forall|i: int| 0 <= i < later.len() implies (#[trigger] prompt_step(
        later[i],
        prompted_after(later.take(i), prompt_step(first, prompted).1),
    )).0 != PromptDecision::OpenSettingsAndPrompt by {
        lemma_prompted_stays(later.take(i), true);
    }
}

/// Whether the dialog has been shown after calls with the trust states
/// `calls`, starting from `prompted`.
pub open spec fn prompted_after(calls: Seq<bool>, prompted: bool) -> bool
    decreases calls.len(),
{
    if calls.len() == 0 {
        prompted
    } else {
        prompt_step(calls.last(), prompted_after(calls.drop_last(), prompted)).1
    }
}

proof fn lemma_prompted_stays(calls: Seq<bool>, prompted: bool)
    requires
        prompted,
    ensures
        prompted_after(calls, prompted),
    decreases calls.len(),
{
    if calls.len() > 0 {
        lemma_prompted_stays(calls.drop_last(), prompted);
    }
}

/// The text of the error for an `action` that needs Accessibility trust.
pub open spec fn not_trusted_text(action: Seq<char>, who: ProcessIdentity) -> Seq<char> {
    let path = match who.executable_path {
        Some(p) => p@,
        None => "(unknown path)"@,
    };
    "Accessibility permission required for "@ + action
        + ". Open System Settings → Privacy & Security → Accessibility, unlock, click +, add “"@
        + who.display_name_spec() + "” ("@ + path
        + "), enable the toggle, then quit and reopen Oto."@
}

/// The error for an `action` that needs Accessibility trust.
pub fn not_trusted_message(action: &str, who: &ProcessIdentity) -> (e: OtoError)
    ensures
        e.text() == not_trusted_text(action@, *who),
{
    let path = match &who.executable_path {
        Some(p) => p.clone(),
        None => owned("(unknown path)"),
    };
    let name = display_name(opt_as_str(&who.current_exe));
    OtoError::Message(
        String::from_str("Accessibility permission required for ").concat(action).concat(
            ". Open System Settings → Privacy & Security → Accessibility, unlock, click +, add “",
        ).concat(name.as_str()).concat("” (").concat(path.as_str()).concat(
            "), enable the toggle, then quit and reopen Oto.",
        ),
    )
}

// ---------------------------------------------------------------------------
// Key events
// ---------------------------------------------------------------------------

/// Virtual key code of `C`.
pub const KEY_C: u16 = 8;

/// Virtual key code of `V`.
pub const KEY_V: u16 = 9;

/// A key on the keyboard.
#[derive(Debug, Clone, Copy, PartialEq, Eq, Structural)]
pub enum Key {
    /// A key given by its virtual key code.
    Code(u16),
    Command,
    Control,
    Shift,
    /// The ⌥ key.
    Alt,
    RightCommand,
    RightControl,
    RightShift,
    /// The right ⌥ key.
    RightAlt,
}

/// One synthetic key event and the pause that follows it.
#[derive(Debug, Clone, Copy, PartialEq, Eq, Structural)]
pub struct KeyStroke {
    pub key: Key,
    pub down: bool,
    /// Whether the event carries the ⌘ modifier flag (else no flags).
    pub command: bool,
    pub pause_after_ms: u64,
}

/// Where key events are posted.
#[derive(Debug, Clone, Copy, PartialEq, Eq, Structural)]
pub enum KeyTarget {
    /// To one process.
    Process(i32),
    /// To the session's event stream, once.
    Session,
}

/// Events go to the process `pid` when it is a real one (positive), else
/// to the session.
pub open spec fn key_target_of(pid: Option<i32>) -> KeyTarget {
    match pid {
        Some(p) => if p > 0 {
            KeyTarget::Process(p)
        } else {
            KeyTarget::Session
        },
        None => KeyTarget::Session,
    }
}

/// Where key events for `pid` go (see `key_target_of`).
pub fn key_target(pid: Option<i32>) -> (t: KeyTarget)
    ensures
        t == key_target_of(pid),
{
    match pid {
        Some(p) => if p > 0 {
            KeyTarget::Process(p)
        } else {
            KeyTarget::Session
        },
        None => KeyTarget::Session,
    }
}

/// ⌘ + `key`: ⌘ down, key down, key up, ⌘ up, each followed by its pause.
pub open spec fn command_chord_spec(key: u16) -> Seq<KeyStroke> {
    seq![
        KeyStroke { key: Key::Command, down: true, command: true, pause_after_ms: 20 },
        KeyStroke { key: Key::Code(key), down: true, command: true, pause_after_ms: 30 },
        KeyStroke { key: Key::Code(key), down: false, command: true, pause_after_ms: 20 },
        KeyStroke { key: Key::Command, down: false, command: false, pause_after_ms: 0 },
    ]
}

/// The events of ⌘ + `key`.
pub fn command_chord(key: u16) -> (v: Vec<KeyStroke>)
    ensures
        v@ == command_chord_spec(key),
{
    let mut v = Vec::new();
    v.push(KeyStroke { key: Key::Command, down: true, command: true, pause_after_ms: 20 });
    v.push(KeyStroke { key: Key::Code(key), down: true, command: true, pause_after_ms: 30 });
    v.push(KeyStroke { key: Key::Code(key), down: false, command: true, pause_after_ms: 20 });
    v.push(KeyStroke { key: Key::Command, down: false, command: false, pause_after_ms: 0 });
    assert(v@ =~= command_chord_spec(key));
    v
}

/// The modifiers that a push-to-talk chord may leave held.
pub open spec fn modifier_keys() -> Seq<Key> {
    seq![
        Key::Command,
        Key::Control,
        Key::Shift,
        Key::Alt,
        Key::RightCommand,
        Key::RightControl,
        Key::RightShift,
        Key::RightAlt,
    ]
}

/// Releasing leftover modifiers: one key-up per modifier, all to one
/// target, then a pause.
#[derive(Debug, Clone)]
pub struct ModifierRelease {
    pub target: KeyTarget,
    pub strokes: Vec<KeyStroke>,
    pub pause_after_ms: u64,
}

/// The release of leftover modifiers before a synthetic chord.
pub open spec fn is_modifier_release(r: ModifierRelease, pid: Option<i32>) -> bool {
    &&& r.target == key_target_of(pid)
    &&& r.strokes@.len() == modifier_keys().len()
    &&& forall|i: int|
        0 <= i < r.strokes@.len() ==> #[trigger] r.strokes@[i] == (KeyStroke {
            key: modifier_keys()[i],
            down: false,
            command: false,
            pause_after_ms: 0,
        })
    &&& r.pause_after_ms == 40
}

fn key_up(key: Key) -> (s: KeyStroke)
    ensures
        s == (KeyStroke { key, down: false, command: false, pause_after_ms: 0 }),
{
    KeyStroke { key, down: false, command: false, pause_after_ms: 0 }
}

/// Releases leftover modifiers from the push-to-talk chord, toward `pid`.
pub fn release_modifiers(pid: Option<i32>) -> (r: ModifierRelease)
    ensures
        is_modifier_release(r, pid),
{
    let mut strokes = Vec::new();
    strokes.push(key_up(Key::Command));
    strokes.push(key_up(Key::Control));
    strokes.push(key_up(Key::Shift));
    strokes.push(key_up(Key::Alt));
    strokes.push(key_up(Key::RightCommand));
    strokes.push(key_up(Key::RightControl));
    strokes.push(key_up(Key::RightShift));
    strokes.push(key_up(Key::RightAlt));
    ModifierRelease { target: key_target(pid), strokes, pause_after_ms: 40 }
}

// ---------------------------------------------------------------------------
// Trying delivery routes in order
// ---------------------------------------------------------------------------

/// Tries `count` routes in order until one works, remembering why each
/// failed one failed.
#[derive(Debug, Clone)]
pub struct Fallback {
    pub count: usize,
    pub failures: Vec<String>,
}

/// What to do next.
#[derive(Debug, Clone, Copy, PartialEq, Eq, Structural)]
pub enum FallbackStep {
    /// Try the route with this index and report the outcome.
    Try(usize),
    /// A route worked.
    Succeeded,
    /// Every route failed.
    Exhausted,
}

impl Fallback {
    /// The routes tried so far all failed, and one may still be pending.
    pub open spec fn wf(self) -> bool {
        self.failures@.len() <= self.count
    }

    /// A chain of `count` routes, none tried yet.
    pub fn new(count: usize) -> (f: Fallback)
        ensures
            f.count == count,
            f.failures@.len() == 0,
    {
        Fallback { count, failures: Vec::new() }
    }

    /// The first step: try the first route, if there is one.
    pub fn start(&self) -> (s: FallbackStep)
        requires
            self.failures@.len() == 0,
        ensures
            self.count > 0 ==> s == FallbackStep::Try(0),
            self.count == 0 ==> s == FallbackStep::Exhausted,
    {
        if self.count > 0 {
            FallbackStep::Try(0)
        } else {
            FallbackStep::Exhausted
        }
    }

    /// Records the outcome of the pending try (the route with index
    /// `failures.len()`) and says what to do next: stop on success; on
    /// failure remember why and try the next route, or give up after the
    /// last one.
    pub fn record(&mut self, outcome: Result<(), String>) -> (s: FallbackStep)
        requires
            old(self).failures@.len() < old(self).count,
        ensures
            final(self).count == old(self).count,
            final(self).wf(),
            outcome is Ok ==> s == FallbackStep::Succeeded && final(self).failures@ == old(
                self,
            ).failures@,
            outcome matches Err(e) ==> final(self).failures@ == old(self).failures@.push(e),
            outcome is Err && final(self).failures@.len() < final(self).count ==> s
                == FallbackStep::Try(final(self).failures@.len() as usize),
            outcome is Err && final(self).failures@.len() == final(self).count ==> s
                == FallbackStep::Exhausted,
    {
        match outcome {
            Ok(()) => FallbackStep::Succeeded,
            Err(e) => {
                self.failures.push(e);
                if self.failures.len() < self.count {
                    FallbackStep::Try(self.failures.len())
                } else {
                    FallbackStep::Exhausted
                }
            },
        }
    }
}

// ---------------------------------------------------------------------------
// Paste and copy
// ---------------------------------------------------------------------------

/// A way of delivering ⌘V or ⌘C.
#[derive(Debug, Clone, Copy, PartialEq, Eq, Structural)]
pub enum ChordRoute {
    /// Key events posted to the target process.
    Process(i32),
    /// Key events posted once to the session event stream.
    Session,
    /// `System Events` keystroke through AppleScript.
    AppleScript,
}

/// The routes for a chord aimed at `pid`, most reliable first: straight to
/// the process when it is known, then the session, then AppleScript.
pub open spec fn chord_routes_spec(pid: Option<i32>) -> Seq<ChordRoute> {
    match key_target_of(pid) {
        KeyTarget::Process(p) => seq![ChordRoute::Process(p), ChordRoute::Session, ChordRoute::AppleScript],
        KeyTarget::Session => seq![ChordRoute::Session, ChordRoute::AppleScript],
    }
}

/// The routes for a chord aimed at `pid` (see `chord_routes_spec`).
pub fn chord_routes(pid: Option<i32>) -> (v: Vec<ChordRoute>)
    ensures
        v@ == chord_routes_spec(pid),
{
    let mut v = Vec::new();
    match key_target(pid) {
        KeyTarget::Process(p) => v.push(ChordRoute::Process(p)),
        KeyTarget::Session => {},
    }
    v.push(ChordRoute::Session);
    v.push(ChordRoute::AppleScript);
    assert(v@ =~= chord_routes_spec(pid));
    v
}

/// How to deliver one ⌘ chord.
#[derive(Debug, Clone)]
pub struct ChordPlan {
    /// Leftover modifiers to release first.
    pub release: ModifierRelease,
    /// Pause after the release.
    pub settle_ms: u64,
    /// The key pressed with ⌘.
    pub key: u16,
    /// The routes to try, in order (see `Fallback`).
    pub routes: Vec<ChordRoute>,
    /// Pause after a route that worked.
    pub success_pause_ms: u64,
}

/// The plan for ⌘`key` aimed at `pid`.
pub open spec fn is_chord_plan(
    p: ChordPlan,
    pid: Option<i32>,
    key: u16,
    settle_ms: u64,
    success_pause_ms: u64,
) -> bool {
    &&& is_modifier_release(p.release, pid)
    &&& p.settle_ms == settle_ms
    &&& p.key == key
    &&& p.routes@ == chord_routes_spec(pid)
    &&& p.success_pause_ms == success_pause_ms
}

/// How to simulate ⌘V into `target_pid`, or why it cannot be done.
pub fn simulate_paste_to(trusted: bool, target_pid: Option<i32>, who: &ProcessIdentity) -> (r:
    OtoResult<ChordPlan>)
    ensures
        !trusted ==> (r matches Err(e) && e.text() == not_trusted_text(
            "paste simulation (⌘V)"@,
            *who,
        )),
        trusted ==> (r matches Ok(p) && is_chord_plan(p, target_pid, KEY_V, 50, 40)),
{
    if !trusted {
        return Err(not_trusted_message("paste simulation (⌘V)", who));
    }
    Ok(
        ChordPlan {
            release: release_modifiers(target_pid),
            settle_ms: 50,
            key: KEY_V,
            routes: chord_routes(target_pid),
            success_pause_ms: 40,
        },
    )
}

/// How to simulate ⌘V into whatever has focus.
pub fn simulate_paste(trusted: bool, who: &ProcessIdentity) -> (r: OtoResult<ChordPlan>)
    ensures
        !trusted ==> (r matches Err(e) && e.text() == not_trusted_text(
            "paste simulation (⌘V)"@,
            *who,
        )),
        trusted ==> (r matches Ok(p) && is_chord_plan(p, None, KEY_V, 50, 40)),
{
    simulate_paste_to(trusted, None, who)
}

/// How to simulate ⌘C in `target_pid`, or why it cannot be done.
pub fn simulate_copy_to(trusted: bool, target_pid: Option<i32>, who: &ProcessIdentity) -> (r:
    OtoResult<ChordPlan>)
    ensures
        !trusted ==> (r matches Err(e) && e.text() == not_trusted_text(
            "copy simulation (⌘C)"@,
            *who,
        )),
        trusted ==> (r matches Ok(p) && is_chord_plan(p, target_pid, KEY_C, 40, 0)),
{
    if !trusted {
        return Err(not_trusted_message("copy simulation (⌘C)", who));
    }
    Ok(
        ChordPlan {
            release: release_modifiers(target_pid),
            settle_ms: 40,
            key: KEY_C,
            routes: chord_routes(target_pid),
            success_pause_ms: 0,
        },
    )
}

/// How to simulate ⌘C in whatever has focus.
pub fn simulate_copy(trusted: bool, who: &ProcessIdentity) -> (r: OtoResult<ChordPlan>)
    ensures
        !trusted ==> (r matches Err(e) && e.text() == not_trusted_text(
            "copy simulation (⌘C)"@,
            *who,
        )),
        trusted ==> (r matches Ok(p) && is_chord_plan(p, None, KEY_C, 40, 0)),
{
    simulate_copy_to(trusted, None, who)
}

/// The label under which a failed paste route is reported.
pub open spec fn paste_route_label(route: ChordRoute) -> Seq<char> {
    match route {
        ChordRoute::Process(_) => "pid-post: "@,
        ChordRoute::Session => "global: "@,
        ChordRoute::AppleScript => "osascript: "@,
    }
}

/// How the failure `e` of paste route `route` is reported.
pub fn paste_failure_entry(route: ChordRoute, e: &OtoError) -> (s: String)
    ensures
        s@ == paste_route_label(route) + e.text(),
{
    let label = match route {
        ChordRoute::Process(_) => "pid-post: ",
        ChordRoute::Session => "global: ",
        ChordRoute::AppleScript => "osascript: ",
    };
    String::from_str(label).concat(e.to_text().as_str())
}

/// The error once every paste route failed, listing why each did.
pub fn paste_failure(failures: &Vec<String>) -> (e: OtoError)
    ensures
        e.text() == "all paste methods failed: "@ + join_seq(views(failures@), "; "@),
{
    OtoError::Message(String::from_str("all paste methods failed: ").concat(
        join(failures, "; ").as_str(),
    ))
}

/// The error once every copy route failed: that of the last route.
pub fn copy_failure(failures: &Vec<String>) -> (e: OtoError)
    requires
        failures@.len() > 0,
    ensures
        e.text() == failures@.last()@,
{
    OtoError::Message(failures[failures.len() - 1].clone())
}

/// The AppleScript that presses ⌘V.
pub const PASTE_SCRIPT: &'static str =
    "\ntell application \"System Events\"\n    keystroke \"v\" using {command down}\nend tell\n";

/// The AppleScript that presses ⌘C.
pub const COPY_SCRIPT: &'static str =
    "\ntell application \"System Events\"\n    keystroke \"c\" using {command down}\nend tell\n";

/// The error when `osascript` could not be started for `action`
/// (`paste` or `copy`); `reason` is why.
pub fn osascript_start_failure(action: &str, reason: &str) -> (e: OtoError)
    ensures
        e.text() == "osascript "@ + action@ + " failed to start: "@ + reason@,
{
    OtoError::Message(String::from_str("osascript ").concat(action).concat(
        " failed to start: ",
    ).concat(reason))
}

/// The error when the paste script failed: what it wrote to standard
/// error, trimmed, or its exit status where it wrote nothing.
pub fn osascript_paste_failure(stderr: &str, status: &str) -> (e: OtoError)
    ensures
        e.text() == "osascript paste failed: "@ + (if trim_seq(stderr@).len() == 0 {
            status@
        } else {
            trim_seq(stderr@)
        }),
{
    let err = trim(stderr);
    let detail = if err.as_str().unicode_len() == 0 {
        owned(status)
    } else {
        err
    };
    OtoError::Message(String::from_str("osascript paste failed: ").concat(detail.as_str()))
}

/// The error when the copy script failed: what it wrote to standard error,
/// trimmed.
pub fn osascript_copy_failure(stderr: &str) -> (e: OtoError)
    ensures
        e.text() == "osascript copy failed: "@ + trim_seq(stderr@),
{
    OtoError::Message(String::from_str("osascript copy failed: ").concat(trim(stderr).as_str()))
}

// ---------------------------------------------------------------------------
// Typing
// ---------------------------------------------------------------------------

/// How to type a text key by key.
#[derive(Debug, Clone)]
pub struct TypePlan {
    pub release: ModifierRelease,
    pub settle_ms: u64,
    /// Where each character's key-down and key-up go.
    pub target: KeyTarget,
    /// The characters to type, in order.
    pub chars: Vec<char>,
    /// Pause after each character.
    pub pause_per_char_ms: u64,
}

/// The characters that are typed for `text`: all but carriage returns.
pub open spec fn typed_chars(text: Seq<char>) -> Seq<char> {
    text.filter(|c: char| c != '\r')
}

/// How to type `text` into `target_pid`, or why it cannot be done: an
/// empty text cannot be typed, and typing needs Accessibility trust.
pub fn simulate_type_to(
    text: &str,
    trusted: bool,
    target_pid: Option<i32>,
    who: &ProcessIdentity,
) -> (r: OtoResult<TypePlan>)
    ensures
        text@.len() == 0 ==> (r matches Err(e) && e.text() == "cannot type empty text"@),
        text@.len() > 0 && !trusted ==> (r matches Err(e) && e.text() == not_trusted_text(
            "typing"@,
            *who,
        )),
        text@.len() > 0 && trusted ==> (r matches Ok(p) && {
            &&& is_modifier_release(p.release, target_pid)
            &&& p.settle_ms == 40
            &&& p.target == key_target_of(target_pid)
            &&& p.chars@ == typed_chars(text@)
            &&& p.pause_per_char_ms == 6
        }),
{
    let v = crate::text::chars_of(text);
    if v.len() == 0 {
        return Err(OtoError::Message(owned("cannot type empty text")));
    }
    if !trusted {
        return Err(not_trusted_message("typing", who));
    }
    let mut chars: Vec<char> = Vec::new();
    let mut i: usize = 0;
    while i < v.len()
        invariant
            v@ == text@,
            i <= v.len(),
            chars@ == typed_chars(v@.subrange(0, i as int)),
        decreases v.len() - i,
    {
        let c = v[i];
        assert(v@.subrange(0, i + 1).drop_last() =~= v@.subrange(0, i as int));
        assert(typed_chars(v@.subrange(0, i + 1)) == if c != '\r' {
            typed_chars(v@.subrange(0, i as int)).push(c)
        } else {
            typed_chars(v@.subrange(0, i as int))
        }) by {
            reveal(Seq::filter);
        }
        if c != '\r' {
            chars.push(c);
        }
        i = i + 1;
    }
    assert(v@.subrange(0, v.len() as int) =~= v@);
    Ok(
        TypePlan {
            release: release_modifiers(target_pid),
            settle_ms: 40,
            target: key_target(target_pid),
            chars,
            pause_per_char_ms: 6,
        },
    )
}

/// How to type `text` into whatever has focus (see `simulate_type_to`).
pub fn simulate_type(text: &str, trusted: bool, who: &ProcessIdentity) -> (r: OtoResult<TypePlan>)
    ensures
        text@.len() == 0 ==> (r matches Err(e) && e.text() == "cannot type empty text"@),
        text@.len() > 0 && !trusted ==> (r matches Err(e) && e.text() == not_trusted_text(
            "typing"@,
            *who,
        )),
        text@.len() > 0 && trusted ==> (r matches Ok(p) && {
            &&& is_modifier_release(p.release, None)
            &&& p.target == KeyTarget::Session
            &&& p.chars@ == typed_chars(text@)
        }),
{
    simulate_type_to(text, trusted, None, who)
}

// ---------------------------------------------------------------------------
// Settings panes and Finder
// ---------------------------------------------------------------------------

/// The Accessibility pane, in the address forms of older and newer macOS.
pub const ACCESSIBILITY_PANE_URLS: [&'static str; 2] = [
    "x-apple.systempreferences:com.apple.preference.security?Privacy_Accessibility",
    "x-apple.systempreferences:com.apple.settings.PrivacySecurity.extension?Privacy_Accessibility",
];

/// The general Privacy & Security pane, opened when the Accessibility pane
/// cannot be.
pub const SECURITY_PANE_URL: &'static str = "x-apple.systempreferences:com.apple.preference.security";

/// Why opening `url` failed when `open` exited with `status`.
pub fn open_exit_failure(url: &str, status: &str) -> (s: String)
    ensures
        s@ == "open "@ + url@ + " exited with "@ + status@,
{
    String::from_str("open ").concat(url).concat(" exited with ").concat(status)
}

/// The error once no address of the Accessibility pane could be opened;
/// `last` is why the last one failed.
pub fn accessibility_settings_failure(last: Option<String>) -> (e: OtoError)
    ensures
        e.text() == "could not open Accessibility settings: "@ + match last {
            Some(l) => l@,
            None => "unknown error"@,
        },
{
    let reason = match last {
        Some(l) => l,
        None => owned("unknown error"),
    };
    OtoError::Message(String::from_str("could not open Accessibility settings: ").concat(
        reason.as_str(),
    ))
}

/// The path to reveal in Finder: the executable's, or the error that it is
/// unknown.
pub fn reveal_target(executable_path: Option<String>) -> (r: OtoResult<String>)
    ensures
        executable_path matches Some(p) ==> r == Ok::<String, OtoError>(p),
        executable_path is None ==> (r matches Err(e) && e.text()
            == "could not resolve Oto executable path"@),
{
    match executable_path {
        Some(p) => Ok(p),
        None => Err(OtoError::Message(owned("could not resolve Oto executable path"))),
    }
}

/// The error when Finder could not be opened; `reason` is why.
pub fn reveal_start_failure(reason: &str) -> (e: OtoError)
    ensures
        e.text() == "open Finder failed: "@ + reason@,
{
    OtoError::Message(String::from_str("open Finder failed: ").concat(reason))
}

/// The error when `open -R` exited with `status`.
pub fn reveal_exit_failure(status: &str) -> (e: OtoError)
    ensures
        e.text() == "open Finder failed with status "@ + status@,
{
    OtoError::Message(String::from_str("open Finder failed with status ").concat(status))
}

// ---------------------------------------------------------------------------
// Laws
// ---------------------------------------------------------------------------

/// The routes for a chord: straight to the process first exactly when a
/// real (positive) process is known, then the session event stream once,
/// then AppleScript last.
pub proof fn lemma_route_order(pid: Option<i32>)
    ensures
        (pid matches Some(p) && p > 0) ==> chord_routes_spec(pid) == seq![
            ChordRoute::Process(pid->0),
            ChordRoute::Session,
            ChordRoute::AppleScript,
        ],
        !(pid matches Some(p) && p > 0) ==> chord_routes_spec(pid) == seq![
            ChordRoute::Session,
            ChordRoute::AppleScript,
        ],
{
}

/// ⌘ + key holds ⌘ around the key: ⌘ goes down first and up last, the key
/// goes down and then up in between, and every event but the final ⌘-up
/// carries the ⌘ flag.
pub proof fn lemma_command_chord_shape(key: u16)
    ensures
        command_chord_spec(key).len() == 4,
        command_chord_spec(key)[0].key == Key::Command && command_chord_spec(key)[0].down,
        command_chord_spec(key)[1].key == Key::Code(key) && command_chord_spec(key)[1].down,
        command_chord_spec(key)[2].key == Key::Code(key) && !command_chord_spec(key)[2].down,
        command_chord_spec(key)[3].key == Key::Command && !command_chord_spec(key)[3].down,
        command_chord_spec(key)[0].command && command_chord_spec(key)[1].command
            && command_chord_spec(key)[2].command && !command_chord_spec(key)[3].command,
{
}

/// Releasing leftover modifiers sends only key-ups without flags, one for
/// each of the eight modifier keys (⌘, ⌃, ⇧, ⌥ and their right-hand
/// twins), all to the one target of `pid`.
pub proof fn lemma_release_is_key_ups(r: ModifierRelease, pid: Option<i32>)
    requires
        is_modifier_release(r, pid),
    ensures
        r.strokes@.len() == 8,
        forall|i: int| 0 <= i < 8 ==> !(#[trigger] r.strokes@[i]).down && !r.strokes@[i].command,
        r.strokes@[0].key == Key::Command,
        r.strokes@[1].key == Key::Control,
        r.strokes@[2].key == Key::Shift,
        r.strokes@[3].key == Key::Alt,
        r.strokes@[4].key == Key::RightCommand,
        r.strokes@[5].key == Key::RightControl,
        r.strokes@[6].key == Key::RightShift,
        r.strokes@[7].key == Key::RightAlt,
        (pid matches Some(p) && p > 0) ==> r.target == KeyTarget::Process(pid->0),
        !(pid matches Some(p) && p > 0) ==> r.target == KeyTarget::Session,
{
    assert(r.strokes@[0] == r.strokes@[0]);
}

/// Typing never sends a carriage return, and types a text without one
/// exactly as it is.
pub proof fn lemma_typed_chars(text: Seq<char>)
    ensures
        forall|i: int| 0 <= i < typed_chars(text).len() ==> #[trigger] typed_chars(text)[i] != '\r',
        (forall|i: int| 0 <= i < text.len() ==> #[trigger] text[i] != '\r') ==> typed_chars(text)
            == text,
    decreases text.len(),
{
    reveal(Seq::filter);
    if text.len() > 0 {
        lemma_typed_chars(text.drop_last());
        if forall|i: int| 0 <= i < text.len() ==> #[trigger] text[i] != '\r' {
            assert forall|i: int| 0 <= i < text.drop_last().len() implies #[trigger] text.drop_last()[i]
                != '\r' by {
                assert(text.drop_last()[i] == text[i]);
            }
            assert(text.last() == text[text.len() - 1]);
            assert(text.drop_last().push(text.last()) =~= text);
        }
    }
}

} // verus!
