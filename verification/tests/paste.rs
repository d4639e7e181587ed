use oto::error::OtoError;
use oto::paste::{
    accessibility_settings_failure, accessibility_status, accessibility_status_detail,
    chord_routes, command_chord, copy_failure, ensure_accessibility_prompt, key_target,
    not_trusted_message, open_exit_failure, osascript_copy_failure, osascript_paste_failure,
    osascript_start_failure, paste_failure, paste_failure_entry, release_modifiers,
    reveal_exit_failure, reveal_start_failure, reveal_target, simulate_copy, simulate_copy_to,
    simulate_paste, simulate_paste_to, simulate_type, simulate_type_to, ChordRoute, Fallback,
    FallbackStep, Key, KeyStroke, KeyTarget, ProcessIdentity, PromptDecision, KEY_C, KEY_V,
};

fn bundled() -> ProcessIdentity {
    ProcessIdentity {
        current_exe: Some("/Applications/Oto.app/Contents/MacOS/oto".into()),
        executable_path: Some("/Applications/Oto.app/Contents/MacOS/oto".into()),
    }
}

fn dev() -> ProcessIdentity {
    ProcessIdentity {
        current_exe: Some("/Users/me/oto/target/debug/oto-dev".into()),
        executable_path: None,
    }
}

fn text(e: &OtoError) -> String {
    e.to_text()
}

#[test]
fn accessibility_status_is_known() {
    for trusted in [true, false] {
        let s = accessibility_status(trusted);
        assert!(s == "trusted" || s == "not-trusted");
    }
    assert_eq!(accessibility_status(true), "trusted");
    assert_eq!(accessibility_status(false), "not-trusted");
}

#[test]
fn status_detail_for_each_state() {
    let s = accessibility_status_detail(true, &bundled());
    assert!(s.trusted && s.bundled);
    assert_eq!(s.display_name, "Oto");
    assert_eq!(s.bundle_id, "dev.oto.mac");
    assert_eq!(s.guidance, "Accessibility is granted. Oto will paste with ⌘V into the focused app.");
    let s = accessibility_status_detail(false, &bundled());
    assert_eq!(
        s.guidance,
        "Accessibility is required for insertion. Unlock Accessibility settings, click +, add “Oto.app”, enable the toggle, then quit and reopen Oto."
    );
    let s = accessibility_status_detail(false, &dev());
    assert!(!s.bundled);
    assert_eq!(s.display_name, "oto-dev");
    assert_eq!(s.executable_path, "");
    assert_eq!(s.guidance, "Dev binary — add this path with + in Accessibility:\n");
}

#[test]
fn not_trusted_message_text() {
    let e = not_trusted_message("typing", &dev());
    assert_eq!(
        text(&e),
        "Accessibility permission required for typing. Open System Settings → Privacy & Security → Accessibility, unlock, click +, add “oto-dev” ((unknown path)), enable the toggle, then quit and reopen Oto."
    );
}

#[test]
fn prompt_at_most_once_per_session() {
    let mut prompted = false;
    assert_eq!(ensure_accessibility_prompt(true, &mut prompted), PromptDecision::AlreadyTrusted);
    assert!(!prompted);
    assert_eq!(
        ensure_accessibility_prompt(false, &mut prompted),
        PromptDecision::OpenSettingsAndPrompt
    );
    assert!(prompted);
    assert_eq!(ensure_accessibility_prompt(false, &mut prompted), PromptDecision::AlreadyPrompted);
    assert_eq!(ensure_accessibility_prompt(false, &mut prompted), PromptDecision::AlreadyPrompted);
}

#[test]
fn command_chord_is_balanced() {
    let v = command_chord(KEY_V);
    assert_eq!(
        v,
        vec![
            KeyStroke { key: Key::Command, down: true, command: true, pause_after_ms: 20 },
            KeyStroke { key: Key::Code(9), down: true, command: true, pause_after_ms: 30 },
            KeyStroke { key: Key::Code(9), down: false, command: true, pause_after_ms: 20 },
            KeyStroke { key: Key::Command, down: false, command: false, pause_after_ms: 0 },
        ]
    );
    assert_eq!(KEY_C, 8);
}

#[test]
fn routes_and_targets() {
    assert_eq!(key_target(Some(42)), KeyTarget::Process(42));
    assert_eq!(key_target(Some(0)), KeyTarget::Session);
    assert_eq!(key_target(Some(-3)), KeyTarget::Session);
    assert_eq!(key_target(None), KeyTarget::Session);
    assert_eq!(
        chord_routes(Some(7)),
        vec![ChordRoute::Process(7), ChordRoute::Session, ChordRoute::AppleScript]
    );
    assert_eq!(chord_routes(None), vec![ChordRoute::Session, ChordRoute::AppleScript]);
    let r = release_modifiers(Some(7));
    assert_eq!(r.target, KeyTarget::Process(7));
    assert_eq!(r.strokes.len(), 8);
    assert!(r.strokes.iter().all(|s| !s.down && !s.command));
    assert_eq!(r.strokes[3].key, Key::Alt);
    assert_eq!(r.pause_after_ms, 40);
}

#[test]
fn paste_and_copy_plans() {
    let p = simulate_paste_to(true, Some(12), &bundled()).unwrap();
    assert_eq!(p.key, KEY_V);
    assert_eq!(p.settle_ms, 50);
    assert_eq!(p.success_pause_ms, 40);
    assert_eq!(p.routes[0], ChordRoute::Process(12));
    let p = simulate_paste(true, &bundled()).unwrap();
    assert_eq!(p.routes, vec![ChordRoute::Session, ChordRoute::AppleScript]);
    let e = simulate_paste(false, &bundled()).err().unwrap();
    assert!(text(&e).starts_with("Accessibility permission required for paste simulation (⌘V)."));
    let c = simulate_copy_to(true, Some(5), &dev()).unwrap();
    assert_eq!(c.key, KEY_C);
    assert_eq!(c.settle_ms, 40);
    let e = simulate_copy(false, &dev()).err().unwrap();
    assert!(text(&e).contains("copy simulation (⌘C)"));
}

#[test]
fn typing_plans() {
    let e = simulate_type("", true, &dev()).err().unwrap();
    assert_eq!(text(&e), "cannot type empty text");
    let e = simulate_type("", false, &dev()).err().unwrap();
    assert_eq!(text(&e), "cannot type empty text");
    let e = simulate_type("hi", false, &dev()).err().unwrap();
    assert!(text(&e).contains("required for typing"));
    let p = simulate_type_to("a\r\nb", true, Some(9), &dev()).unwrap();
    assert_eq!(p.chars, vec!['a', '\n', 'b']);
    assert_eq!(p.target, KeyTarget::Process(9));
    assert_eq!(p.pause_per_char_ms, 6);
}

#[test]
fn fallback_tries_routes_in_order() {
    let mut f = Fallback::new(3);
    assert_eq!(f.start(), FallbackStep::Try(0));
    assert_eq!(f.record(Err("a".into())), FallbackStep::Try(1));
    assert_eq!(f.record(Err("b".into())), FallbackStep::Try(2));
    assert_eq!(f.record(Err("c".into())), FallbackStep::Exhausted);
    assert_eq!(f.failures, vec!["a", "b", "c"]);
    let mut g = Fallback::new(2);
    assert_eq!(g.start(), FallbackStep::Try(0));
    assert_eq!(g.record(Ok(())), FallbackStep::Succeeded);
    assert!(g.failures.is_empty());
    assert_eq!(Fallback::new(0).start(), FallbackStep::Exhausted);
}

#[test]
fn paste_failure_messages() {
    let e1 = paste_failure_entry(ChordRoute::Process(3), &OtoError::Message("x".into()));
    let e2 = paste_failure_entry(ChordRoute::Session, &OtoError::Message("y".into()));
    let e3 = paste_failure_entry(ChordRoute::AppleScript, &OtoError::Message("z".into()));
    assert_eq!(
        text(&paste_failure(&vec![e1, e2, e3])),
        "all paste methods failed: pid-post: x; global: y; osascript: z"
    );
    assert_eq!(text(&copy_failure(&vec!["p".into(), "q".into()])), "q");
    assert_eq!(
        text(&osascript_paste_failure("  boom \n", "exit status: 1")),
        "osascript paste failed: boom"
    );
    assert_eq!(
        text(&osascript_paste_failure(" \n", "exit status: 1")),
        "osascript paste failed: exit status: 1"
    );
    assert_eq!(text(&osascript_copy_failure(" no\n")), "osascript copy failed: no");
    assert_eq!(
        text(&osascript_start_failure("paste", "not found")),
        "osascript paste failed to start: not found"
    );
    assert_eq!(open_exit_failure("u", "exit status: 1"), "open u exited with exit status: 1");
    assert_eq!(
        text(&accessibility_settings_failure(None)),
        "could not open Accessibility settings: unknown error"
    );
    assert_eq!(
        text(&accessibility_settings_failure(Some("x".into()))),
        "could not open Accessibility settings: x"
    );
    assert_eq!(reveal_target(Some("/a".into())).unwrap(), "/a");
    assert_eq!(
        text(&reveal_target(None).err().unwrap()),
        "could not resolve Oto executable path"
    );
    assert_eq!(text(&reveal_start_failure("e")), "open Finder failed: e");
    assert_eq!(text(&reveal_exit_failure("s")), "open Finder failed with status s");
}
