//! A symbol that borrows its text.

use vstd::prelude::*;
use crate::symbol::Symbol;

verus! {

/// A reference to a resolved symbol. Like a [`Symbol`], it has text or stands
/// for the symbol with unknown text.
///
/// In the derived order, unknown text comes before all known text, and known
/// texts compare as strings do.
#[derive(Debug, Clone, Copy, PartialEq, Eq, PartialOrd, Ord, Hash)]
pub struct SymbolRef<'a> {
    text: Option<&'a str>,
}

impl<'a> View for SymbolRef<'a> {
    type V = Option<Seq<char>>;

    /// The text of the symbol, if it is known.
    closed spec fn view(&self) -> Option<Seq<char>> {
        match self.text {
            Some(text) => Some(text@),
            None => None,
        }
    }
}

impl<'a> SymbolRef<'a> {
    /// If this symbol has known text, returns it.
    pub fn text(&self) -> (text: Option<&'a str>)
        ensures
            text is Some == self@ is Some,
            text is Some ==> text->Some_0@ == self@->Some_0,
    {
        self.text
    }

    /// Constructs a `SymbolRef` with unknown text.
    pub fn with_unknown_text() -> (symbol: SymbolRef<'a>)
        ensures
            symbol@ is None,
    {
        SymbolRef { text: None }
    }

    /// Constructs a `SymbolRef` with the specified text.
    pub fn with_text(text: &'a str) -> (symbol: SymbolRef<'a>)
        ensures
            symbol@ == Some(text@),
    {
        SymbolRef { text: Some(text) }
    }

    /// Constructs a `SymbolRef` with the given text, or with unknown text when
    /// there is none.
    pub fn from_optional_text(text: Option<&'a str>) -> (symbol: SymbolRef<'a>)
        ensures
            symbol@ == match text {
                Some(t) => Some(t@),
                None => None,
            },
    {
        SymbolRef { text }
    }

    /// Returns a symbol that owns a copy of the text.
    pub fn to_owned(&self) -> (symbol: Symbol)
        ensures
            symbol@ == self@,
    {
        match self.text {
            Some(text) => Symbol::owned(text),
            None => Symbol::unknown_text(),
        }
    }
}

impl<'a> From<&'a str> for SymbolRef<'a> {
    fn from(text: &'a str) -> (symbol: Self) {
        SymbolRef { text: Some(text) }
    }
}

impl<'a> vstd::std_specs::convert::FromSpecImpl<&'a str> for SymbolRef<'a> {
    open spec fn obeys_from_spec() -> bool {
        true
    }

    closed spec fn from_spec(text: &'a str) -> SymbolRef<'a> {
        SymbolRef { text: Some(text) }
    }
}

impl<'a> From<Option<&'a str>> for SymbolRef<'a> {
    fn from(text: Option<&'a str>) -> (symbol: Self) {
        SymbolRef { text }
    }
}

impl<'a> vstd::std_specs::convert::FromSpecImpl<Option<&'a str>> for SymbolRef<'a> {
    open spec fn obeys_from_spec() -> bool {
        true
    }

    closed spec fn from_spec(text: Option<&'a str>) -> SymbolRef<'a> {
        SymbolRef { text }
    }
}

/// A symbol made from a text has that text, and one made from no text has
/// unknown text.
pub proof fn lemma_symbol_ref_from(text: Option<&str>)
    ensures
        <SymbolRef as vstd::std_specs::convert::FromSpec<Option<&str>>>::from_spec(text)@
            == match text {
            Some(t) => Some(t@),
            None => None,
        },
        text is Some ==> <SymbolRef as vstd::std_specs::convert::FromSpec<&str>>::from_spec(
            text->Some_0,
        )@ == Some(text->Some_0@),
{
}

/// Implemented by the types that can be viewed as a symbol without copying
/// their text.
pub trait AsSymbolRef {
    /// The text that the value stands for as a symbol.
    spec fn symbol_text(&self) -> Option<Seq<char>>;

    fn as_symbol_ref(&self) -> (symbol: SymbolRef<'_>)
        ensures
            symbol@ == self.symbol_text(),
    ;
}

impl AsSymbolRef for &str {
    open spec fn symbol_text(&self) -> Option<Seq<char>> {
        Some(self@)
    }

    fn as_symbol_ref(&self) -> (symbol: SymbolRef<'_>) {
        SymbolRef::with_text(*self)
    }
}

impl AsSymbolRef for String {
    open spec fn symbol_text(&self) -> Option<Seq<char>> {
        Some(self@)
    }

    fn as_symbol_ref(&self) -> (symbol: SymbolRef<'_>) {
        SymbolRef::with_text(self.as_str())
    }
}

impl AsSymbolRef for Symbol {
    open spec fn symbol_text(&self) -> Option<Seq<char>> {
        self@
    }

    fn as_symbol_ref(&self) -> (symbol: SymbolRef<'_>) {
        match self.text() {
            Some(text) => SymbolRef::with_text(text),
            None => SymbolRef::with_unknown_text(),
        }
    }
}

} // verus!
