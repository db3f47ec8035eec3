//! What can go wrong on the emission path.

use vstd::prelude::*;

verus! {

/// Why an emission or a registry lookup was refused. A refused call
/// publishes nothing.
#[derive(Clone, Copy, Debug, PartialEq, Eq, Structural)]
pub enum EventError {
    /// A free-text field cannot be interned: it is longer than a symbol may
    /// be, or holds a character outside the symbol alphabet.
    EncodingError,
    /// The requested identifier names no entry of the topic registry.
    UnknownTopic,
}

impl EventError {
    /// A short description of the error.
    pub fn message(&self) -> (text: &'static str)
        ensures
            text@ == (match *self {
                EventError::EncodingError => "field cannot be interned as a symbol"@,
                EventError::UnknownTopic => "identifier is not in the topic registry"@,
            }),
    {
        match self {
            EventError::EncodingError => "field cannot be interned as a symbol",
            EventError::UnknownTopic => "identifier is not in the topic registry",
        }
    }
}

} // verus!
