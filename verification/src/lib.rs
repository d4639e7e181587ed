//! The decisions behind Oto's macOS dictation plumbing: which hotkeys to
//! bind, how dictated text reaches the focused application, what the
//! permission report says, and how the configuration file is read.

use vstd::prelude::*;

pub mod ax_inject;
pub mod config;
pub mod error;
pub mod focus;
pub mod hotkeys;
pub mod injection;
pub mod paste;
pub mod permissions;
pub mod paths;
pub mod text;

verus! {

} // verus!
