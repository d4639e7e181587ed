//! The library's error type.

use vstd::prelude::*;

verus! {

/// An error with a message meant for the user.
#[derive(Debug, Clone)]
pub enum OtoError {
    Message(String),
}

/// The result type used throughout the library.
pub type OtoResult<T> = Result<T, OtoError>;

impl OtoError {
    /// The text that the error shows.
    pub open spec fn text(self) -> Seq<char> {
        match self {
            OtoError::Message(m) => m@,
        }
    }

    /// An error that shows `m`.
    pub fn message(m: String) -> (e: OtoError)
        ensures
            e.text() == m@,
    {
        OtoError::Message(m)
    }

    /// The text that the error shows, as a string.
    pub fn to_text(&self) -> (s: String)
        ensures
            s@ == self.text(),
    {
        match self {
            OtoError::Message(m) => m.clone(),
        }
    }
}

} // verus!
