use oto::config::{AppConfig, Mode, ModeMatch};
use oto::hotkeys::{bindings_for_chords, desired_bindings, Binding, PRIMARY_ID};

#[test]
fn desired_bindings_start_with_the_primary_hotkey() {
    let cfg = AppConfig {
        hotkey: "Ctrl+Shift+Space".into(),
        ..AppConfig::default()
    };
    let bindings = desired_bindings(&cfg, |h| h.to_string());
    assert_eq!(bindings.len(), 1);
    assert_eq!(bindings[0].id, PRIMARY_ID);
    assert!(bindings[0].mode_id.is_none());
}

#[test]
fn each_enabled_mode_with_a_chord_gets_a_binding() {
    let cfg = AppConfig {
        hotkey: "Ctrl+Shift+Space".into(),
        modes: vec![
            Mode {
                hotkey: "Ctrl+Shift+J".into(),
                ..Mode::new("code".into(), "Code".into())
            },
            // No chord — matched by window only.
            Mode {
                match_rule: ModeMatch {
                    app_classes: vec!["slack".into()],
                    title_contains: String::new(),
                },
                ..Mode::new("chat".into(), "Chat".into())
            },
            Mode {
                enabled: false,
                hotkey: "Ctrl+Shift+K".into(),
                ..Mode::new("off".into(), "Off".into())
            },
        ],
        ..AppConfig::default()
    };
    let bindings = desired_bindings(&cfg, |h| h.to_string());
    assert_eq!(bindings.len(), 2);
    assert_eq!(bindings[1].id, "mode:code");
    assert_eq!(bindings[1].mode_id.as_deref(), Some("code"));
    assert!(bindings[1].label.contains("Code"));
}

#[test]
fn a_mode_reusing_the_primary_chord_is_skipped() {
    let cfg = AppConfig {
        hotkey: "Ctrl+Shift+Space".into(),
        modes: vec![Mode {
            hotkey: "Ctrl+Shift+Space".into(),
            ..Mode::new("dupe".into(), "Dupe".into())
        }],
        ..AppConfig::default()
    };
    assert_eq!(desired_bindings(&cfg, |h| h.to_string()).len(), 1);
}

#[test]
fn a_blank_mode_chord_is_not_a_binding() {
    let cfg = AppConfig {
        modes: vec![Mode {
            hotkey: "   ".into(),
            ..Mode::new("blank".into(), "Blank".into())
        }],
        ..AppConfig::default()
    };
    let bindings = desired_bindings(&cfg, |h| h.trim().to_string());
    assert_eq!(bindings.len(), 1);
}

#[test]
fn primary_binding_fields() {
    let b = Binding::primary("Alt+D".to_string());
    assert_eq!(b.id, "dictation");
    assert_eq!(b.hotkey, "Alt+D");
    assert_eq!(b.mode_id, None);
    assert_eq!(b.label, "Start or stop Oto dictation");
}

#[test]
fn mode_binding_fields_and_order() {
    let cfg = AppConfig {
        hotkey: "ctrl+space".into(),
        modes: vec![
            Mode {
                hotkey: "ctrl+j".into(),
                ..Mode::new("mail".into(), "Mail".into())
            },
            Mode {
                hotkey: "ctrl+k".into(),
                ..Mode::new("notes".into(), "Notes".into())
            },
        ],
        ..AppConfig::default()
    };
    let bindings = desired_bindings(&cfg, |h| h.to_uppercase());
    assert_eq!(bindings.len(), 3);
    assert_eq!(bindings[0].hotkey, "CTRL+SPACE");
    assert_eq!(bindings[1].id, "mode:mail");
    assert_eq!(bindings[1].hotkey, "CTRL+J");
    assert_eq!(bindings[1].label, "Oto dictation — Mail");
    assert_eq!(bindings[2].id, "mode:notes");
    assert_eq!(bindings[2].mode_id.as_deref(), Some("notes"));
}

#[test]
fn two_modes_on_one_chord_keep_the_first() {
    let modes = vec![
        Mode::new("a".into(), "A".into()),
        Mode::new("b".into(), "B".into()),
    ];
    let chords = vec!["ctrl+j".to_string(), "ctrl+j".to_string()];
    let bindings = bindings_for_chords("ctrl+space".to_string(), &modes, &chords);
    assert_eq!(bindings.len(), 2);
    assert_eq!(bindings[1].id, "mode:a");
    // No two bindings share a chord.
    for i in 0..bindings.len() {
        for j in (i + 1)..bindings.len() {
            assert_ne!(bindings[i].hotkey, bindings[j].hotkey);
        }
    }
}

#[test]
fn normalization_can_merge_chords() {
    // Chords that differ only before normalization collide after it.
    let cfg = AppConfig {
        hotkey: "Ctrl+Shift+Space".into(),
        modes: vec![Mode {
            hotkey: "ctrl+shift+space".into(),
            ..Mode::new("dupe".into(), "Dupe".into())
        }],
        ..AppConfig::default()
    };
    assert_eq!(desired_bindings(&cfg, |h| h.to_lowercase()).len(), 1);
    assert_eq!(desired_bindings(&cfg, |h| h.to_string()).len(), 2);
}
