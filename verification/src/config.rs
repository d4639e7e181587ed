//! The application configuration and the rules for reading and writing it.
//!
//! Reading the file and decoding the JSON happen outside the library; what
//! the library decides is what a given piece of text on disk means.

use vstd::prelude::*;

use crate::error::{OtoError, OtoResult};
use crate::text::{
    contains, contains_seq, is_blank, is_blank_seq, is_white_space, owned, trim_start_seq,
};

verus! {

/// How dictated text is delivered to the target application.
#[derive(Debug, Clone, Copy, PartialEq, Eq, Structural)]
pub enum InjectionMode {
    /// Clipboard and paste first, then Accessibility, then typing.
    Auto,
    /// Clipboard and a synthetic paste only.
    ClipboardPaste,
    /// Type the text key by key.
    DirectType,
    /// Leave the text on the clipboard for the user to paste.
    ClipboardOnly,
}

/// Which windows a mode applies to.
#[derive(Debug, Clone, PartialEq, Eq)]
pub struct ModeMatch {
    pub app_classes: Vec<String>,
    pub title_contains: String,
}

/// A dictation mode: a named variant of dictation with its own chord.
#[derive(Debug, Clone, PartialEq, Eq)]
pub struct Mode {
    pub id: String,
    pub name: String,
    pub enabled: bool,
    /// Chord that starts dictation in this mode; empty for none.
    pub hotkey: String,
    pub match_rule: ModeMatch,
}

/// The persisted application configuration.
#[derive(Debug, Clone, PartialEq, Eq)]
pub struct AppConfig {
    /// Chord for ordinary dictation.
    pub hotkey: String,
    pub modes: Vec<Mode>,
    pub dictionary: Vec<String>,
    pub polish_enabled: bool,
    pub injection_mode: InjectionMode,
    /// False only until the first-run wizard has been completed.
    pub onboarding_complete: bool,
}

/// The chord bound for dictation when none has been chosen.
pub const DEFAULT_HOTKEY: &'static str = "Ctrl+Shift+Space";

impl ModeMatch {
    /// A rule that matches no window.
    pub open spec fn is_empty_rule(self) -> bool {
        self.app_classes@.len() == 0 && self.title_contains@.len() == 0
    }
}

impl Default for ModeMatch {
    fn default() -> (m: ModeMatch)
        ensures
            m.is_empty_rule(),
    {
        ModeMatch { app_classes: Vec::new(), title_contains: String::new() }
    }
}

impl Mode {
    /// An enabled mode with no chord and no window rule.
    pub fn new(id: String, name: String) -> (m: Mode)
        ensures
            m.id == id,
            m.name == name,
            m.enabled,
            m.hotkey@.len() == 0,
            m.match_rule.is_empty_rule(),
    {
        Mode { id, name, enabled: true, hotkey: String::new(), match_rule: ModeMatch::default() }
    }
}

/// The configuration every field of which has its default value, except
/// that `onboarding_complete` is `onboarded`.
pub open spec fn is_default_config_with(c: AppConfig, onboarded: bool) -> bool {
    &&& c.hotkey@ == DEFAULT_HOTKEY@
    &&& c.modes@.len() == 0
    &&& c.dictionary@.len() == 0
    &&& c.polish_enabled
    &&& c.injection_mode == InjectionMode::Auto
    &&& c.onboarding_complete == onboarded
}

/// The default configuration.
pub open spec fn is_default_config(c: AppConfig) -> bool {
    is_default_config_with(c, true)
}

fn config_with_onboarding(onboarded: bool) -> (c: AppConfig)
    ensures
        is_default_config_with(c, onboarded),
{
    AppConfig {
        hotkey: owned(DEFAULT_HOTKEY),
        modes: Vec::new(),
        dictionary: Vec::new(),
        polish_enabled: true,
        injection_mode: InjectionMode::Auto,
        onboarding_complete: onboarded,
    }
}

impl Default for AppConfig {
    fn default() -> (c: AppConfig)
        ensures
            is_default_config(c),
    {
        config_with_onboarding(true)
    }
}

/// The configuration of a first run: the defaults, with the onboarding
/// wizard still to be shown.
pub fn first_run_config() -> (c: AppConfig)
    ensures
        is_default_config_with(c, false),
{
    config_with_onboarding(false)
}

/// What the text found at the configuration path calls for.
#[derive(Debug, Clone, Copy, PartialEq, Eq, Structural)]
pub enum ConfigSource {
    /// No file: the one true first run.
    Missing,
    /// A file with nothing but whitespace: a damaged write, not a new install.
    Blank,
    /// A document to decode.
    Document,
}

/// What `raw`, the contents of the configuration file or `None` where
/// there is no file, calls for.
pub open spec fn config_source_of(raw: Option<Seq<char>>) -> ConfigSource {
    match raw {
        None => ConfigSource::Missing,
        Some(t) => if is_blank_seq(t) {
            ConfigSource::Blank
        } else {
            ConfigSource::Document
        },
    }
}

/// The view of an optional string slice.
pub open spec fn opt_view(raw: Option<&str>) -> Option<Seq<char>> {
    match raw {
        None => None,
        Some(t) => Some(t@),
    }
}

/// Classifies the contents of the configuration file.
pub fn config_source(raw: Option<&str>) -> (s: ConfigSource)
    ensures
        s == config_source_of(opt_view(raw)),
{
    match raw {
        None => ConfigSource::Missing,
        Some(t) => if is_blank(t) {
            ConfigSource::Blank
        } else {
            ConfigSource::Document
        },
    }
}

/// The configuration that the contents `raw` of the configuration file
/// stand for. `parsed` is the decoded document, which is only consulted
/// (and only needed) when `raw` is a document.
///
/// A missing file gives the first-run configuration; a blank file the
/// defaults with onboarding complete; a document what it decodes to, or
/// the error that decoding it gave.
pub fn load_config(raw: Option<&str>, parsed: Option<OtoResult<AppConfig>>) -> (r: OtoResult<
    AppConfig,
>)
    requires
        config_source_of(opt_view(raw)) == ConfigSource::Document ==> parsed is Some,
    ensures
        config_source_of(opt_view(raw)) == ConfigSource::Missing ==> (r matches Ok(c)
            && is_default_config_with(c, false)),
        config_source_of(opt_view(raw)) == ConfigSource::Blank ==> (r matches Ok(c)
            && is_default_config(c)),
        config_source_of(opt_view(raw)) == ConfigSource::Document ==> r == parsed.unwrap(),
{
    match config_source(raw) {
        ConfigSource::Missing => Ok(first_run_config()),
        ConfigSource::Blank => Ok(AppConfig::default()),
        ConfigSource::Document => match parsed {
            Some(r) => r,
            None => Ok(AppConfig::default()),
        },
    }
}

/// The word that must never reach the configuration file.
pub const FORBIDDEN_KEY: &'static str = "api_key";

/// The serialized configuration `raw`, if it may be written to disk: a
/// document that mentions `api_key` is refused.
pub fn config_text_for_save(raw: String) -> (r: OtoResult<String>)
    ensures
        contains_seq(raw@, FORBIDDEN_KEY@) <==> r is Err,
        r matches Ok(t) ==> t == raw,
        r matches Err(e) ==> e.text() == "refusing to write config that contains api_key"@,
{
    if contains(raw.as_str(), FORBIDDEN_KEY) {
        Err(OtoError::Message(owned("refusing to write config that contains api_key")))
    } else {
        Ok(raw)
    }
}

/// The defaults, spelled out: dictation on Ctrl+Shift+Space, no modes, an
/// empty dictionary, polishing on, automatic delivery.
pub proof fn lemma_default_config_fields(c: AppConfig, onboarded: bool)
    requires
        is_default_config_with(c, onboarded),
    ensures
        c.hotkey@ == "Ctrl+Shift+Space"@,
        c.modes@.len() == 0,
        c.dictionary@.len() == 0,
        c.polish_enabled,
        c.injection_mode == InjectionMode::Auto,
        c.onboarding_complete == onboarded,
{
}

/// Only a missing file counts as missing (the one case `load_config` treats
/// as a first run), and a file of nothing but whitespace counts as blank
/// (a damaged write, loaded as the defaults with onboarding complete).
pub proof fn lemma_only_missing_file_is_first_run(raw: Option<Seq<char>>)
    ensures
        config_source_of(raw) == ConfigSource::Missing <==> raw is None,
        (raw matches Some(t) && (forall|i: int| 0 <= i < t.len() ==> is_white_space(#[trigger] t[i])))
            ==> config_source_of(raw) == ConfigSource::Blank,
{
    match raw {
        Some(t) => {
            if forall|i: int| 0 <= i < t.len() ==> is_white_space(#[trigger] t[i]) {
                lemma_all_white_space_is_blank(t);
            }
        },
        None => {},
    }
}

proof fn lemma_all_white_space_is_blank(t: Seq<char>)
    requires
        forall|i: int| 0 <= i < t.len() ==> is_white_space(#[trigger] t[i]),
    ensures
        trim_start_seq(t).len() == 0,
        is_blank_seq(t),
    decreases t.len(),
{
    if t.len() > 0 {
        assert forall|i: int| 0 <= i < t.drop_first().len() implies is_white_space(
            #[trigger] t.drop_first()[i],
        ) by {
            assert(t.drop_first()[i] == t[i + 1]);
        }
        assert(is_white_space(t[0]));
        lemma_all_white_space_is_blank(t.drop_first());
    }
}

} // verus!
