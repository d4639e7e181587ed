use oto::config::InjectionMode;
use oto::error::OtoError;
use oto::focus::FocusTarget;
use oto::injection::{
    automatic_injection_failed, clipboard_restore, clipboard_still_ours, paste_tooling_summary,
    read_ax_selection, selection_sentinel, Capture, CaptureAction, CaptureEvent, InjectAction,
    InjectEvent, InjectResult, Injection,
};

fn err(m: &str) -> OtoError {
    OtoError::Message(m.to_string())
}

fn finish(a: InjectAction) -> (Result<InjectResult, String>, Option<String>) {
    match a {
        InjectAction::Finish { result, restore_clipboard } => {
            (result.map_err(|e| e.to_text()), restore_clipboard)
        }
        other => panic!("expected a finish, got {other:?}"),
    }
}

#[test]
fn paste_tooling_summary_nonempty() {
    for trusted in [true, false] {
        let s = paste_tooling_summary(trusted);
        assert!(s.contains("platform=macos"));
    }
    assert_eq!(paste_tooling_summary(false), "platform=macos; accessibility=not-trusted");
}

#[test]
fn clipboard_only_mode() {
    // Clipboard-only delivery: no focus, trust already held.
    let mut inj = Injection::new("oto unit".into(), InjectionMode::ClipboardOnly, None, true);
    assert!(matches!(inj.step(InjectEvent::Started), InjectAction::CheckAccessibility));
    // The clipboard is not snapshotted: it is the delivery itself.
    assert!(matches!(inj.step(InjectEvent::Accessibility(true)), InjectAction::WriteClipboard));
    let (r, restore) = finish(inj.step(InjectEvent::ClipboardWritten(Ok(()))));
    assert_eq!(r, Ok(InjectResult::ClipboardOnly));
    assert_eq!(restore, None);

    // A clipboard that cannot be written is the error.
    let mut inj = Injection::new("oto unit".into(), InjectionMode::ClipboardOnly, None, true);
    inj.step(InjectEvent::Started);
    inj.step(InjectEvent::Accessibility(true));
    let (r, _) = finish(inj.step(InjectEvent::ClipboardWritten(Err(err("pasteboard not available")))));
    let msg = r.unwrap_err().to_lowercase();
    assert!(msg.contains("clipboard") || msg.contains("pasteboard") || msg.contains("not available"));
}

#[test]
fn auto_mode_with_focus_pastes_and_restores() {
    let focus = FocusTarget { pid: Some(77), name: Some("Notes".into()), class: None };
    let mut inj = Injection::new("hello".into(), InjectionMode::Auto, Some(&focus), true);
    assert!(matches!(inj.step(InjectEvent::Started), InjectAction::RestoreFocus));
    assert!(matches!(inj.step(InjectEvent::FocusRestored(true)), InjectAction::Sleep(280)));
    assert!(matches!(inj.step(InjectEvent::Slept), InjectAction::RestoreFocus));
    assert!(matches!(inj.step(InjectEvent::FocusRestored(false)), InjectAction::Sleep(100)));
    assert!(matches!(inj.step(InjectEvent::Slept), InjectAction::CheckAccessibility));
    assert!(matches!(inj.step(InjectEvent::Accessibility(false)), InjectAction::PromptAccessibility));
    assert!(matches!(inj.step(InjectEvent::Prompted), InjectAction::ReadClipboard));
    match inj.step(InjectEvent::ClipboardRead(Some("mine".into()))) {
        InjectAction::PasteFromClipboard { target_pid } => assert_eq!(target_pid, Some(77)),
        other => panic!("{other:?}"),
    }
    let (r, restore) = finish(inj.step(InjectEvent::Pasted(Ok(()))));
    assert_eq!(r, Ok(InjectResult::Pasted));
    assert_eq!(restore.as_deref(), Some("mine"));
}

#[test]
fn unrestored_focus_waits_less() {
    let focus = FocusTarget { pid: Some(3), ..FocusTarget::default() };
    let mut inj = Injection::new("x".into(), InjectionMode::ClipboardPaste, Some(&focus), false);
    inj.step(InjectEvent::Started);
    assert!(matches!(inj.step(InjectEvent::FocusRestored(false)), InjectAction::Sleep(120)));
    assert!(matches!(inj.step(InjectEvent::Slept), InjectAction::CheckAccessibility));
    // No snapshot when restoring the clipboard was not asked for.
    assert!(matches!(
        inj.step(InjectEvent::Accessibility(true)),
        InjectAction::PasteFromClipboard { target_pid: Some(3) }
    ));
    let (r, restore) = finish(inj.step(InjectEvent::Pasted(Ok(()))));
    assert_eq!(r, Ok(InjectResult::Pasted));
    assert_eq!(restore, None);
}

#[test]
fn auto_mode_falls_back_to_accessibility_then_typing() {
    let mut inj = Injection::new("hi".into(), InjectionMode::Auto, None, true);
    inj.step(InjectEvent::Started);
    inj.step(InjectEvent::Accessibility(true));
    inj.step(InjectEvent::ClipboardRead(Some("hi".into())));
    assert!(matches!(inj.step(InjectEvent::Pasted(Err(err("p")))), InjectAction::InsertViaAccessibility));
    let (r, restore) = finish(inj.step(InjectEvent::AxInserted(Ok(true))));
    assert_eq!(r, Ok(InjectResult::Accessibility));
    // The previous clipboard equals the transcript: nothing to give back.
    assert_eq!(restore, None);

    let mut inj = Injection::new("hi".into(), InjectionMode::Auto, None, true);
    inj.step(InjectEvent::Started);
    inj.step(InjectEvent::Accessibility(true));
    inj.step(InjectEvent::ClipboardRead(None));
    inj.step(InjectEvent::Pasted(Err(err("p"))));
    assert!(matches!(
        inj.step(InjectEvent::AxInserted(Ok(false))),
        InjectAction::TypeText { target_pid: None }
    ));
    let (r, _) = finish(inj.step(InjectEvent::Typed(Ok(()))));
    assert_eq!(r, Ok(InjectResult::DirectTyped));
}

#[test]
fn every_route_failing_is_an_error_with_the_transcript_copied() {
    let mut inj = Injection::new("hi".into(), InjectionMode::Auto, None, false);
    inj.step(InjectEvent::Started);
    inj.step(InjectEvent::Accessibility(true));
    inj.step(InjectEvent::Pasted(Err(err("no paste"))));
    inj.step(InjectEvent::AxInserted(Err(err("no ax"))));
    assert!(matches!(inj.step(InjectEvent::Typed(Err(err("no typing")))), InjectAction::WriteClipboard));
    assert!(matches!(inj.step(InjectEvent::ClipboardWritten(Ok(()))), InjectAction::CheckAccessibility));
    let (r, restore) = finish(inj.step(InjectEvent::Accessibility(true)));
    assert_eq!(
        r,
        Err("Could not insert into the focused app; the transcript was copied. Paste: no paste; Accessibility insert: no ax; direct typing: no typing".to_string())
    );
    assert_eq!(restore, None);
}

#[test]
fn direct_type_mode() {
    let mut inj = Injection::new("hi".into(), InjectionMode::DirectType, None, true);
    inj.step(InjectEvent::Started);
    inj.step(InjectEvent::Accessibility(true));
    assert!(matches!(inj.step(InjectEvent::ClipboardRead(Some("old".into()))), InjectAction::WriteClipboard));
    // A failed clipboard write does not stop typing.
    assert!(matches!(
        inj.step(InjectEvent::ClipboardWritten(Err(err("x")))),
        InjectAction::TypeText { target_pid: None }
    ));
    let (r, _) = finish(inj.step(InjectEvent::Typed(Err(err("cannot type empty text")))));
    assert_eq!(r, Err("cannot type empty text".to_string()));
}

#[test]
fn an_unexpected_event_ends_the_injection() {
    let mut inj = Injection::new("hi".into(), InjectionMode::Auto, None, true);
    let (r, _) = finish(inj.step(InjectEvent::Slept));
    assert_eq!(r, Err("unexpected event in text injection".to_string()));
}

#[test]
fn injection_failure_messages() {
    let e = automatic_injection_failed(false, &err("a"), None, &err("b"));
    assert!(e.to_text().starts_with("Accessibility permission is not granted."));
    let e = automatic_injection_failed(true, &err("a"), None, &err("b"));
    assert_eq!(
        e.to_text(),
        "Could not insert into the focused app; the transcript was copied. Paste: a; direct typing: b"
    );
}

#[test]
fn clipboard_give_back() {
    assert_eq!(clipboard_restore(Some("old".into()), "new"), Some("old".to_string()));
    assert_eq!(clipboard_restore(Some("same".into()), "same"), None);
    assert_eq!(clipboard_restore(None, "x"), None);
    assert!(clipboard_still_ours(&Ok("t".into()), "t"));
    assert!(!clipboard_still_ours(&Ok("user".into()), "t"));
    assert!(!clipboard_still_ours(&Err(err("x")), "t"));
}

#[test]
fn ax_selection_reading() {
    assert_eq!(read_ax_selection(Ok(Some("s".into()))), Some("s".to_string()));
    assert_eq!(read_ax_selection(Ok(None)), None);
    assert_eq!(read_ax_selection(Err(err("x"))), None);
}

fn capture_finish(a: CaptureAction) -> (Result<String, String>, Option<String>) {
    match a {
        CaptureAction::Finish { result, restore_clipboard } => {
            (result.map_err(|e| e.to_text()), restore_clipboard)
        }
        other => panic!("expected a finish, got {other:?}"),
    }
}

#[test]
fn capture_through_accessibility() {
    let mut c = Capture::new();
    assert!(matches!(c.step(CaptureEvent::Started), CaptureAction::ReadAxSelection));
    let (r, restore) = capture_finish(c.step(CaptureEvent::AxSelection(Ok(Some("sel".into())))));
    assert_eq!(r, Ok("sel".to_string()));
    assert_eq!(restore, None);
}

#[test]
fn capture_through_the_clipboard() {
    assert_eq!(selection_sentinel(12345), "__oto_selection_12345__");
    let run = |copied: &str| {
        let mut c = Capture::new();
        c.step(CaptureEvent::Started);
        assert!(matches!(c.step(CaptureEvent::AxSelection(Ok(None))), CaptureAction::ReadPreviousClipboard));
        assert!(matches!(c.step(CaptureEvent::PreviousClipboard(Some("prev".into()))), CaptureAction::ReadClock));
        match c.step(CaptureEvent::Clock(99)) {
            CaptureAction::WriteSentinel(s) => assert_eq!(s, "__oto_selection_99__"),
            other => panic!("{other:?}"),
        }
        assert!(matches!(c.step(CaptureEvent::SentinelWritten(Ok(()))), CaptureAction::CaptureFocusTarget));
        assert!(matches!(
            c.step(CaptureEvent::FocusTarget(Some(4))),
            CaptureAction::Copy { target_pid: Some(4) }
        ));
        assert!(matches!(c.step(CaptureEvent::Copied(Ok(()))), CaptureAction::Sleep(160)));
        assert!(matches!(c.step(CaptureEvent::Slept), CaptureAction::ReadSelection));
        capture_finish(c.step(CaptureEvent::Selection(Ok(copied.to_string()))))
    };
    assert_eq!(run("picked"), (Ok("picked".to_string()), Some("prev".to_string())));
    let none = "No selected text found — select text in the target app first".to_string();
    assert_eq!(run("__oto_selection_99__"), (Err(none.clone()), Some("prev".to_string())));
    assert_eq!(run("  \n"), (Err(none), Some("prev".to_string())));
}

#[test]
fn capture_copy_failure_gives_the_clipboard_back() {
    let mut c = Capture::new();
    c.step(CaptureEvent::Started);
    c.step(CaptureEvent::AxSelection(Ok(None)));
    c.step(CaptureEvent::PreviousClipboard(Some("prev".into())));
    c.step(CaptureEvent::Clock(1));
    c.step(CaptureEvent::SentinelWritten(Ok(())));
    c.step(CaptureEvent::FocusTarget(None));
    let (r, restore) = capture_finish(c.step(CaptureEvent::Copied(Err(err("no copy")))));
    assert_eq!(r, Err("no copy".to_string()));
    assert_eq!(restore, Some("prev".to_string()));
}
