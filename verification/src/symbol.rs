//! A symbol that owns its text.

use vstd::prelude::*;
use crate::text::{owned_text, str_eq};

verus! {

/// A resolved symbol: text, or the one symbol whose text is unknown (`$0`).
#[derive(Debug, Clone, PartialEq, Eq, PartialOrd, Ord, Hash)]
pub struct Symbol {
    text: Option<String>,
}

impl View for Symbol {
    type V = Option<Seq<char>>;

    /// The text of the symbol, if it is known.
    closed spec fn view(&self) -> Option<Seq<char>> {
        match self.text {
            Some(text) => Some(text@),
            None => None,
        }
    }
}

impl Symbol {
    /// A symbol with the given text.
    pub fn owned(text: &str) -> (symbol: Symbol)
        ensures
            symbol@ == Some(text@),
    {
        Symbol { text: Some(owned_text(text)) }
    }

    /// A symbol with the text of the given string.
    pub fn from_string(text: String) -> (symbol: Symbol)
        ensures
            symbol@ == Some(text@),
    {
        Symbol { text: Some(text) }
    }

    /// The symbol whose text is unknown.
    pub fn unknown_text() -> (symbol: Symbol)
        ensures
            symbol@ is None,
    {
        Symbol { text: None }
    }

    /// Returns the text of the symbol, if it is known.
    pub fn text(&self) -> (text: Option<&str>)
        ensures
            text is Some == self@ is Some,
            text is Some ==> text->Some_0@ == self@->Some_0,
    {
        match &self.text {
            Some(text) => Some(text.as_str()),
            None => None,
        }
    }

    /// Reports whether the symbol has the given text.
    pub fn has_text(&self, text: &str) -> (b: bool)
        ensures
            b == (self@ == Some(text@)),
    {
        match &self.text {
            Some(own) => str_eq(own.as_str(), text),
            None => false,
        }
    }

    /// Returns a copy of the symbol.
    pub fn duplicate(&self) -> (symbol: Symbol)
        ensures
            symbol@ == self@,
    {
        match &self.text {
            Some(text) => Symbol { text: Some(owned_text(text.as_str())) },
            None => Symbol { text: None },
        }
    }
}

} // verus!
