use oto::ax_inject::{
    ax_unavailable_message, focused_window_title, role_is_insertable, try_ax_selection,
    AxAction, AxAttribute, AxEvent, AxInsert,
};

fn run(text: &str, events: Vec<AxEvent>) -> Vec<AxAction> {
    let mut a = AxInsert::new(text.to_string());
    events.into_iter().map(|e| a.step(e)).collect()
}

fn read(s: &str) -> AxEvent {
    AxEvent::Read(Some(s.to_string()))
}

#[test]
fn roles() {
    assert!(role_is_insertable("AXTextField"));
    assert!(role_is_insertable("axtextarea"));
    assert!(role_is_insertable("AXSECURETEXTFIELD"));
    assert!(!role_is_insertable("AXWebArea"));
    assert!(!role_is_insertable(""));
}

#[test]
fn nothing_without_trust_or_text() {
    let acts = run("hi", vec![AxEvent::Began { trusted: false }]);
    assert_eq!(acts, vec![AxAction::Finish { applied: false, release_element: false }]);
    let acts = run("", vec![AxEvent::Began { trusted: true }]);
    assert_eq!(acts, vec![AxAction::Finish { applied: false, release_element: false }]);
}

#[test]
fn web_roles_are_left_to_paste() {
    let acts = run(
        "hi",
        vec![
            AxEvent::Began { trusted: true },
            AxEvent::FocusedElement { found: true },
            read("AXWebArea"),
        ],
    );
    assert_eq!(
        acts,
        vec![
            AxAction::FindFocusedElement,
            AxAction::Read(AxAttribute::Role),
            AxAction::Finish { applied: false, release_element: true },
        ]
    );
}

#[test]
fn selection_write_that_changes_the_value_applies() {
    let acts = run(
        "hi",
        vec![
            AxEvent::Began { trusted: true },
            AxEvent::FocusedElement { found: true },
            read("AXTextField"),
            read("abc"),
            read(""),
            AxEvent::Wrote { success: true },
            read("abchi"),
            read(""),
        ],
    );
    assert_eq!(acts.last(), Some(&AxAction::Finish { applied: true, release_element: true }));
    assert_eq!(acts[4], AxAction::WriteText(AxAttribute::SelectedText));
}

#[test]
fn a_long_document_is_never_overwritten() {
    // The selection write is reported a success but changes nothing, and the
    // field holds text that is not selected: give up rather than clobber it.
    let acts = run(
        "hi",
        vec![
            AxEvent::Began { trusted: true },
            AxEvent::FocusedElement { found: true },
            read("AXTextArea"),
            read("a long document"),
            read(""),
            AxEvent::Wrote { success: true },
            read("a long document"),
            read(""),
        ],
    );
    assert_eq!(acts.last(), Some(&AxAction::Finish { applied: false, release_element: true }));
    assert!(!acts.contains(&AxAction::WriteText(AxAttribute::Value)));
}

#[test]
fn an_empty_field_gets_its_value_set() {
    let acts = run(
        "hi",
        vec![
            AxEvent::Began { trusted: true },
            AxEvent::FocusedElement { found: true },
            read("AXTextField"),
            AxEvent::Read(None),
            AxEvent::Read(None),
            AxEvent::Wrote { success: false },
            AxEvent::Wrote { success: true },
            read("hi"),
        ],
    );
    assert_eq!(acts[5], AxAction::WriteText(AxAttribute::Value));
    assert_eq!(acts.last(), Some(&AxAction::Finish { applied: true, release_element: true }));
}

#[test]
fn a_fully_selected_field_may_be_replaced() {
    let acts = run(
        "hi",
        vec![
            AxEvent::Began { trusted: true },
            AxEvent::FocusedElement { found: true },
            read("AXTextField"),
            read("old"),
            read("old"),
            AxEvent::Wrote { success: true },
            read("old"),
            read("old"),
            AxEvent::Wrote { success: true },
            read("zzz"),
        ],
    );
    assert_eq!(acts[7], AxAction::WriteText(AxAttribute::Value));
    assert_eq!(acts.last(), Some(&AxAction::Finish { applied: false, release_element: true }));
}

#[test]
fn titles_and_selection() {
    let title = |t: &str| Some(Some(t.to_string()));
    assert_eq!(focused_window_title(true, title("  Inbox  "), None), Some("Inbox".to_string()));
    assert_eq!(focused_window_title(true, title("   "), None), None);
    assert_eq!(focused_window_title(true, None, None), None);
    // Without trust, nothing.
    assert_eq!(focused_window_title(false, title("Inbox"), None), None);
    // The focused window wins; the main window only stands in for a missing one.
    assert_eq!(focused_window_title(true, title("Draft"), title("Main")), Some("Draft".to_string()));
    assert_eq!(focused_window_title(true, None, title(" Main ")), Some("Main".to_string()));
    // A focused window without a title is not replaced by the main window.
    assert_eq!(focused_window_title(true, Some(None), title("Main")), None);
    assert_eq!(try_ax_selection(false, Some("x".into())).unwrap(), None);
    assert_eq!(try_ax_selection(true, Some("x".into())).unwrap(), Some("x".to_string()));
    assert_eq!(try_ax_selection(true, Some("".into())).unwrap(), None);
    assert!(ax_unavailable_message().to_text().starts_with("macOS Accessibility is unavailable"));
}
