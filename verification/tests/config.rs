use oto::config::{
    config_source, config_text_for_save, first_run_config, load_config, AppConfig, ConfigSource,
    InjectionMode, Mode,
};
use oto::error::OtoError;

#[test]
fn empty_or_missing_config_falls_back_to_defaults() {
    // Only the absent file is treated as a first run.
    let fresh = load_config(None, None).unwrap();
    assert!(!fresh.onboarding_complete);
    assert_eq!(
        fresh,
        AppConfig {
            onboarding_complete: false,
            ..AppConfig::default()
        }
    );
    // A truncated write is a damaged config, not a new install.
    assert_eq!(load_config(Some("   \n"), None).unwrap(), AppConfig::default());
}

#[test]
fn an_existing_config_never_reopens_onboarding() {
    // A document is what it decodes to; decoding fills a missing
    // `onboarding_complete` with the default, which is true.
    let raw = r#"{"hotkey":"Ctrl+Shift+Space"}"#;
    assert_eq!(config_source(Some(raw)), ConfigSource::Document);
    let decoded = AppConfig {
        hotkey: "Ctrl+Shift+Space".into(),
        ..AppConfig::default()
    };
    assert!(load_config(Some(raw), Some(Ok(decoded))).unwrap().onboarding_complete);
}

#[test]
fn a_document_that_does_not_decode_is_an_error() {
    let err = load_config(Some("{"), Some(Err(OtoError::Message("bad json".into()))));
    match err {
        Err(OtoError::Message(m)) => assert_eq!(m, "bad json"),
        Ok(_) => panic!("expected an error"),
    }
}

#[test]
fn config_sources() {
    assert_eq!(config_source(None), ConfigSource::Missing);
    assert_eq!(config_source(Some("")), ConfigSource::Blank);
    assert_eq!(config_source(Some(" \t\r\n\u{a0}\u{3000}")), ConfigSource::Blank);
    assert_eq!(config_source(Some(" {} ")), ConfigSource::Document);
}

#[test]
fn defaults() {
    let d = AppConfig::default();
    assert_eq!(d.hotkey, "Ctrl+Shift+Space");
    assert!(d.modes.is_empty());
    assert!(d.dictionary.is_empty());
    assert!(d.polish_enabled);
    assert_eq!(d.injection_mode, InjectionMode::Auto);
    assert!(d.onboarding_complete);
    let f = first_run_config();
    assert!(!f.onboarding_complete);
    let m = Mode::new("x".into(), "X".into());
    assert!(m.enabled);
    assert!(m.hotkey.is_empty());
}

#[test]
fn a_config_with_an_api_key_is_never_written() {
    let raw = "{\n  \"hotkey\": \"x\",\n  \"api_key\": \"SECRET-REDACTED\"\n}".to_string();
    match config_text_for_save(raw) {
        Err(OtoError::Message(m)) => {
            assert_eq!(m, "refusing to write config that contains api_key")
        }
        Ok(_) => panic!("must refuse"),
    }
    let ok = "{\"hotkey\":\"x\"}".to_string();
    assert_eq!(config_text_for_save(ok.clone()).unwrap(), ok);
}
