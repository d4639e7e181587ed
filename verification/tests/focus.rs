use oto::focus::{
    active_focus_summary, capture_focus_target, focus_restore_index, focus_restore_plan,
    focus_restored, is_oto_app, previous_non_oto_app, FocusRestore, FocusTarget, RunningApp,
};

fn app(pid: i32, name: &str, bundle: &str, active: bool, regular: bool) -> RunningApp {
    RunningApp {
        pid,
        name: Some(name.to_string()),
        bundle_id: Some(bundle.to_string()),
        active,
        hidden: false,
        regular,
    }
}

#[test]
fn active_focus_summary_nonempty() {
    let s = active_focus_summary(None);
    assert!(!s.is_empty());
    let a = app(42, "Safari", "com.apple.Safari", true, true);
    let s = active_focus_summary(Some(&a));
    assert!(!s.is_empty());
}

#[test]
fn focus_summary_text() {
    assert_eq!(active_focus_summary(None), "unknown");
    let a = app(-7, "Safari", "com.apple.Safari", true, true);
    assert_eq!(active_focus_summary(Some(&a)), "Safari | com.apple.Safari | pid=-7");
    let b = RunningApp { pid: 0, name: None, bundle_id: None, active: true, hidden: false, regular: true };
    assert_eq!(active_focus_summary(Some(&b)), "? | ? | pid=0");
    let c = RunningApp { pid: i32::MIN, ..b.clone() };
    assert_eq!(active_focus_summary(Some(&c)), format!("? | ? | pid={}", i32::MIN));
}

#[test]
fn recognizes_oto() {
    assert!(is_oto_app(&app(1, "Oto", "x", true, true)));
    assert!(is_oto_app(&app(1, "x", "DEV.OTO.MAC", true, true)));
    assert!(is_oto_app(&app(1, "x", "dev.oto.app", true, true)));
    // A bundle id that merely contains "oto" is another application.
    assert!(!is_oto_app(&app(1, "Photos", "com.apple.Photos", true, true)));
    assert!(!is_oto_app(&app(1, "x", "com.example.Photo", true, true)));
    assert!(!is_oto_app(&app(1, "oto", "com.apple.Safari", true, true)));
    let none = RunningApp { pid: 1, name: None, bundle_id: None, active: false, hidden: false, regular: true };
    assert!(!is_oto_app(&none));
}

#[test]
fn capture_skips_oto() {
    let oto = app(1, "Oto", "dev.oto.mac", true, true);
    let safari = app(2, "Safari", "com.apple.Safari", false, true);
    let agent = app(3, "Agent", "com.example.agent", false, false);
    let running = vec![oto.clone(), agent.clone(), safari.clone()];
    // A frontmost app other than Oto is the target.
    let t = capture_focus_target(Some(&safari), &running);
    assert_eq!(t.pid, Some(2));
    assert_eq!(t.name.as_deref(), Some("Safari"));
    assert_eq!(t.class.as_deref(), Some("Safari"));
    // With Oto in front, the first inactive regular non-Oto app.
    assert_eq!(previous_non_oto_app(&running), Some(2));
    let t = capture_focus_target(Some(&oto), &running);
    assert_eq!(t.pid, Some(2));
    // No candidate: no target.
    let t = capture_focus_target(Some(&oto), &vec![oto.clone(), agent]);
    assert_eq!(t.pid, None);
    let t = capture_focus_target(None, &running);
    assert_eq!(t.pid, None);
}

#[test]
fn restore_finds_the_pid() {
    let running = vec![
        app(5, "A", "a", false, true),
        app(6, "B", "b", false, true),
        app(6, "C", "c", false, true),
    ];
    let t = FocusTarget { pid: Some(6), name: None, class: None };
    assert_eq!(focus_restore_index(&t, &running), Some(1));
    let t = FocusTarget { pid: Some(9), ..FocusTarget::default() };
    assert_eq!(focus_restore_index(&t, &running), None);
    assert_eq!(focus_restore_index(&FocusTarget::default(), &running), None);
}

#[test]
fn photos_in_front_is_captured() {
    let photos = app(42, "Photos", "com.apple.Photos", true, true);
    let safari = app(2, "Safari", "com.apple.Safari", false, true);
    let t = capture_focus_target(Some(&photos), &vec![photos.clone(), safari]);
    assert_eq!(t.pid, Some(42));
    assert_eq!(t.name.as_deref(), Some("Photos"));
    assert_eq!(t.class.as_deref(), Some("Photos"));
}

#[test]
fn restore_plan_unhides_hidden_apps() {
    let mut hidden = app(6, "B", "b", false, true);
    hidden.hidden = true;
    let running = vec![app(5, "A", "a", false, true), hidden];
    let t = FocusTarget { pid: Some(6), name: None, class: None };
    assert_eq!(focus_restore_plan(&t, &running), Some(FocusRestore { index: 1, unhide: true }));
    let t = FocusTarget { pid: Some(5), name: None, class: None };
    assert_eq!(focus_restore_plan(&t, &running), Some(FocusRestore { index: 0, unhide: false }));
    assert_eq!(focus_restore_plan(&FocusTarget::default(), &running), None);
    assert!(focus_restored(true, false));
    assert!(focus_restored(false, true));
    assert!(!focus_restored(false, false));
}
