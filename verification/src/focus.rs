//! Which application should receive injected text, and how to find it
//! again.
//!
//! The list of running applications is read from the system outside the
//! library; the library decides which of them is the dictation target.

use vstd::prelude::*;

use crate::text::{
    ascii_lower_seq, decimal_i64, decimal_int, eq_ignore_ascii_case, eq_ignore_ascii_case_seq,
    owned, starts_with, starts_with_seq,
};

verus! {

/// A running application, as the system describes it.
#[derive(Debug, Clone)]
pub struct RunningApp {
    pub pid: i32,
    /// Localized name, where it has one.
    pub name: Option<String>,
    /// Bundle identifier, where it has one.
    pub bundle_id: Option<String>,
    /// Whether it is the active application.
    pub active: bool,
    pub hidden: bool,
    /// Whether it is an ordinary application with a Dock icon.
    pub regular: bool,
}

/// Snapshot of the application that should receive injected text.
#[derive(Debug, Clone, Default)]
pub struct FocusTarget {
    pub pid: Option<i32>,
    pub name: Option<String>,
    pub class: Option<String>,
}

/// `o.unwrap_or_default()`, as text.
pub open spec fn text_or_empty(o: Option<String>) -> Seq<char> {
    match o {
        Some(s) => s@,
        None => Seq::empty(),
    }
}

/// The application is Oto itself: its name starts with `Oto`, or its
/// bundle identifier is one of Oto's own, in any ASCII case.
pub open spec fn is_oto(app: RunningApp) -> bool {
    let name = text_or_empty(app.name);
    let bundle = text_or_empty(app.bundle_id);
    ||| starts_with_seq(name, "Oto"@)
    ||| eq_ignore_ascii_case_seq(bundle, "dev.oto.mac"@)
    ||| eq_ignore_ascii_case_seq(bundle, "dev.oto.app"@)
}

fn text_of(o: &Option<String>) -> (s: String)
    ensures
        s@ == text_or_empty(*o),
{
    match o {
        Some(s) => s.clone(),
        None => String::new(),
    }
}

/// Whether `app` is Oto itself (see `is_oto`).
pub fn is_oto_app(app: &RunningApp) -> (b: bool)
    ensures
        b == is_oto(*app),
{
    let name = text_of(&app.name);
    let bundle = text_of(&app.bundle_id);
    starts_with(name.as_str(), "Oto") || eq_ignore_ascii_case(bundle.as_str(), "dev.oto.mac")
        || eq_ignore_ascii_case(bundle.as_str(), "dev.oto.app")
}

/// The target for `app`: its pid, with its name as name and class.
pub open spec fn is_target_of(t: FocusTarget, app: RunningApp) -> bool {
    &&& t.pid == Some(app.pid)
    &&& t.name == app.name
    &&& t.class == app.name
}

/// The target for `app`.
pub fn target_from_app(app: &RunningApp) -> (t: FocusTarget)
    ensures
        is_target_of(t, *app),
{
    FocusTarget { pid: Some(app.pid), name: app.name.clone(), class: app.name.clone() }
}

/// An application that may take over as target: not active, not Oto, and
/// a regular application.
pub open spec fn is_fallback_candidate(app: RunningApp) -> bool {
    !app.active && !is_oto(app) && app.regular
}

/// The index of the first fallback candidate among `apps`.
pub open spec fn first_fallback(apps: Seq<RunningApp>, i: int) -> bool {
    &&& 0 <= i < apps.len()
    &&& is_fallback_candidate(apps[i])
    &&& forall|j: int| 0 <= j < i ==> !is_fallback_candidate(#[trigger] apps[j])
}

/// The first running application other than Oto that could have had the
/// focus before it: not active, not Oto, regular.
pub fn previous_non_oto_app(apps: &Vec<RunningApp>) -> (r: Option<usize>)
    ensures
        r matches Some(i) ==> first_fallback(apps@, i as int),
        r is None ==> forall|j: int| 0 <= j < apps@.len() ==> !is_fallback_candidate(
            #[trigger] apps@[j],
        ),
{
    let mut i: usize = 0;
    while i < apps.len()
        invariant
            i <= apps.len(),
            forall|j: int| 0 <= j < i ==> !is_fallback_candidate(#[trigger] apps@[j]),
        decreases apps.len() - i,
    {
        let app = &apps[i];
        if !app.active && !is_oto_app(app) && app.regular {
            return Some(i);
        }
        i = i + 1;
    }
    None
}

/// The application that should receive the text: the frontmost one, unless
/// that is Oto, in which case the first fallback candidate; none where
/// there is no frontmost application or no candidate.
pub open spec fn is_captured_target(
    t: FocusTarget,
    frontmost: Option<RunningApp>,
    running: Seq<RunningApp>,
) -> bool {
    match frontmost {
        None => t.pid is None && t.name is None && t.class is None,
        Some(app) => if !is_oto(app) {
            is_target_of(t, app)
        } else if exists|i: int| first_fallback(running, i) {
            exists|i: int| first_fallback(running, i) && is_target_of(t, #[trigger] running[i])
        } else {
            t.pid is None && t.name is None && t.class is None
        },
    }
}

/// Captures the frontmost application other than Oto.
pub fn capture_focus_target(frontmost: Option<&RunningApp>, running: &Vec<RunningApp>) -> (t:
    FocusTarget)
    ensures
        is_captured_target(
            t,
            match frontmost {
                Some(a) => Some(*a),
                None => None,
            },
            running@,
        ),
{
    let app = match frontmost {
        Some(app) => app,
        None => {
            return FocusTarget { pid: None, name: None, class: None };
        },
    };
    if is_oto_app(app) {
        match previous_non_oto_app(running) {
            Some(i) => {
                let t = target_from_app(&running[i]);
                assert(first_fallback(running@, i as int) && is_target_of(t, running@[i as int]));
                return t;
            },
            None => {
                assert(!exists|i: int| first_fallback(running@, i));
                return FocusTarget { pid: None, name: None, class: None };
            },
        }
    }
    target_from_app(app)
}

/// The first running application with the target's pid; none where the
/// target has no pid.
pub fn focus_restore_index(target: &FocusTarget, running: &Vec<RunningApp>) -> (r: Option<usize>)
    ensures
        target.pid is None ==> r is None,
        r matches Some(i) ==> i < running@.len() && target.pid == Some(running@[i as int].pid)
            && forall|j: int|
            0 <= j < i ==> Some(#[trigger] running@[j].pid) != target.pid,
        target.pid is Some && r is None ==> forall|j: int|
            0 <= j < running@.len() ==> Some(#[trigger] running@[j].pid) != target.pid,
{
    let pid = match target.pid {
        Some(p) => p,
        None => {
            return None;
        },
    };
    let mut i: usize = 0;
    while i < running.len()
        invariant
            i <= running.len(),
            target.pid == Some(pid),
            forall|j: int| 0 <= j < i ==> Some(#[trigger] running@[j].pid) != target.pid,
        decreases running.len() - i,
    {
        if running[i].pid == pid {
            return Some(i);
        }
        i = i + 1;
    }
    None
}

/// How to bring a captured target back to the front: which running
/// application to activate, and whether it must be unhidden first.
#[derive(Debug, Clone, Copy, PartialEq, Eq, Structural)]
pub struct FocusRestore {
    pub index: usize,
    pub unhide: bool,
}

/// The plan for restoring `target`: the first running application with
/// its pid, unhidden first where it is hidden; none where the target has
/// no pid or no running application has it.
pub fn focus_restore_plan(target: &FocusTarget, running: &Vec<RunningApp>) -> (r: Option<
    FocusRestore,
>)
    ensures
        target.pid is None ==> r is None,
        r matches Some(p) ==> p.index < running@.len() && target.pid == Some(
            running@[p.index as int].pid,
        ) && p.unhide == running@[p.index as int].hidden && forall|j: int|
            0 <= j < p.index ==> Some(#[trigger] running@[j].pid) != target.pid,
        target.pid is Some && r is None ==> forall|j: int|
            0 <= j < running@.len() ==> Some(#[trigger] running@[j].pid) != target.pid,
{
    match focus_restore_index(target, running) {
        Some(i) => Some(FocusRestore { index: i, unhide: running[i].hidden }),
        None => None,
    }
}

/// Whether restoring the focus worked: the activation ran, or the
/// application is active anyway.
pub fn focus_restored(activated: bool, active_after: bool) -> (b: bool)
    ensures
        b == (activated || active_after),
{
    activated || active_after
}

/// A log line describing the frontmost application.
pub open spec fn focus_summary_of(frontmost: Option<RunningApp>) -> Seq<char> {
    match frontmost {
        None => "unknown"@,
        Some(app) => {
            let name = match app.name {
                Some(n) => n@,
                None => "?"@,
            };
            let bundle = match app.bundle_id {
                Some(b) => b@,
                None => "?"@,
            };
            name + " | "@ + bundle + " | pid="@ + decimal_int(app.pid as int)
        },
    }
}

/// A log line describing the frontmost application: name, bundle and pid.
pub fn active_focus_summary(frontmost: Option<&RunningApp>) -> (s: String)
    ensures
        s@ == focus_summary_of(
            match frontmost {
                Some(a) => Some(*a),
                None => None,
            },
        ),
{
    let app = match frontmost {
        Some(app) => app,
        None => {
            return owned("unknown");
        },
    };
    let name = match &app.name {
        Some(n) => n.clone(),
        None => owned("?"),
    };
    let bundle = match &app.bundle_id {
        Some(b) => b.clone(),
        None => owned("?"),
    };
    let pid = decimal_i64(app.pid as i64);
    name.concat(" | ").concat(bundle.as_str()).concat(" | pid=").concat(pid.as_str())
}

/// The captured target is never Oto itself, when there is a frontmost
/// application to go by.
pub proof fn lemma_target_is_not_oto(
    t: FocusTarget,
    frontmost: Option<RunningApp>,
    running: Seq<RunningApp>,
)
    requires
        is_captured_target(t, frontmost, running),
        t.pid is Some,
    ensures
        exists|app: RunningApp| #[trigger] is_target_of(t, app) && !is_oto(app),
{
    match frontmost {
        None => {},
        Some(app) => {
            if !is_oto(app) {
                assert(is_target_of(t, app));
            } else {
                let i = choose|i: int| first_fallback(running, i) && is_target_of(t, #[trigger] running[i]);
                assert(is_target_of(t, running[i]));
            }
        },
    }
}

/// The frontmost application is the target whenever it is not Oto: when
/// its name does not start with "Oto" and its bundle identifier is neither
/// `dev.oto.mac` nor `dev.oto.app` in any ASCII case, the target is that
/// application, with its name as name and class.
pub proof fn lemma_frontmost_non_oto_is_captured(
    t: FocusTarget,
    front: RunningApp,
    running: Seq<RunningApp>,
)
    requires
        is_captured_target(t, Some(front), running),
        !starts_with_seq(text_or_empty(front.name), "Oto"@),
        ascii_lower_seq(text_or_empty(front.bundle_id)) != ascii_lower_seq("dev.oto.mac"@),
        ascii_lower_seq(text_or_empty(front.bundle_id)) != ascii_lower_seq("dev.oto.app"@),
    ensures
        t.pid == Some(front.pid),
        t.name == front.name,
        t.class == front.name,
{
}

} // verus!
