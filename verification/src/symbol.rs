//! Symbols: short strings over a restricted alphabet.
//!
//! A symbol holds at most 32 characters, each a letter, a digit or an
//! underscore. Free text becomes a symbol by interning, which fails on any
//! other text.

use vstd::prelude::*;
use vstd::string::*;
use crate::error::EventError;

verus! {

/// The longest text a symbol can hold.
pub const MAX_SYMBOL_LEN: usize = 32;

/// The symbol alphabet: `a-z`, `A-Z`, `0-9` and `_`.
pub open spec fn is_symbol_char(c: char) -> bool {
    c == '_' || ('0' <= c && c <= '9') || ('A' <= c && c <= 'Z') || ('a' <= c && c <= 'z')
}

/// The texts that can be interned.
pub open spec fn is_symbol_text(s: Seq<char>) -> bool {
    &&& s.len() <= MAX_SYMBOL_LEN
    &&& forall|i: int| 0 <= i < s.len() ==> is_symbol_char(#[trigger] s[i])
}

/// Whether `text` can be interned.
pub fn is_internable(text: &str) -> (ok: bool)
    ensures
        ok == is_symbol_text(text@),
{
    if !text.is_ascii() {
        proof {
            let i = choose|i: int| 0 <= i < text@.len() && !('\0' <= #[trigger] text@[i] <= '\u{7f}');
            assert(!is_symbol_char(text@[i]));
        }
        return false;
    }
    proof {
        is_ascii_spec_bytes(text);
    }
    let bytes = text.as_bytes();
    let n: usize = bytes.len();
    if n > MAX_SYMBOL_LEN {
        return false;
    }
    let mut i: usize = 0;
    while i < n
        invariant
            i <= n,
            n == bytes@.len(),
            n == text@.len(),
            n <= MAX_SYMBOL_LEN,
            is_ascii(text),
            forall|j: int| 0 <= j < n ==> bytes@[j] == text@[j] as u8,
            forall|j: int| 0 <= j < i ==> is_symbol_char(#[trigger] text@[j]),
        decreases n - i,
    {
        let b: u8 = bytes[i];
        let ok = b == 95 || (48 <= b && b <= 57) || (65 <= b && b <= 90) || (97 <= b && b <= 122);
        proof {
            let c = text@[i as int];
            assert('\0' <= c <= '\u{7f}');
            assert(b == c as u8);
            assert(ok == is_symbol_char(c));
        }
        if !ok {
            return false;
        }
        i = i + 1;
    }
    true
}

/// An interned text: a string known to fit the symbol rules.
#[derive(Debug, PartialEq, Eq)]
pub struct SymbolText {
    text: String,
}

impl View for SymbolText {
    type V = Seq<char>;

    closed spec fn view(&self) -> Seq<char> {
        self.text@
    }
}

impl SymbolText {
    #[verifier::type_invariant]
    spec fn well_formed(self) -> bool {
        is_symbol_text(self.text@)
    }

    /// Interns `text`. Succeeds exactly on the texts of at most 32
    /// characters drawn from the symbol alphabet; the symbol then holds
    /// `text` unchanged.
    pub fn new(text: &str) -> (r: Result<SymbolText, EventError>)
        ensures
            (match r {
                Ok(s) => is_symbol_text(text@) && s@ == text@,
                Err(e) => !is_symbol_text(text@) && e == EventError::EncodingError,
            }),
    {
        if is_internable(text) {
            Ok(SymbolText { text: text.to_owned() })
        } else {
            Err(EventError::EncodingError)
        }
    }

    /// The text that was interned.
    pub fn as_str(&self) -> (text: &str)
        ensures
            text@ == self@,
            is_symbol_text(text@),
    {
        proof {
            use_type_invariant(self);
        }
        self.text.as_str()
    }
}

impl Clone for SymbolText {
    /// A second symbol holding the same text.
    fn clone(&self) -> (copy: Self)
        ensures
            copy == *self,
    {
        proof {
            use_type_invariant(self);
        }
        SymbolText { text: self.text.clone() }
    }
}

} // verus!
