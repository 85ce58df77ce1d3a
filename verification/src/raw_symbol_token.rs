//! A symbol as it stands in a stream, before any symbol table is consulted.

use vstd::prelude::*;
use crate::text::owned_text;
use crate::types::SymbolId;

verus! {

/// A symbol token encountered in a text or binary Ion stream: a symbol ID or
/// text, never both.
#[derive(Debug, Clone, PartialEq, Eq)]
pub enum RawSymbolToken {
    SymbolId(SymbolId),
    Text(String),
}

/// What a raw symbol token holds, as a mathematical value.
pub enum RawSymbolTokenView {
    SymbolId(nat),
    Text(Seq<char>),
}

impl View for RawSymbolToken {
    type V = RawSymbolTokenView;

    open spec fn view(&self) -> RawSymbolTokenView {
        match self {
            RawSymbolToken::SymbolId(sid) => RawSymbolTokenView::SymbolId(*sid as nat),
            RawSymbolToken::Text(text) => RawSymbolTokenView::Text(text@),
        }
    }
}

impl RawSymbolToken {
    /// Returns the symbol ID, if the token is one.
    pub fn local_sid(&self) -> (sid: Option<SymbolId>)
        ensures
            sid == match self {
                RawSymbolToken::SymbolId(s) => Some(*s),
                RawSymbolToken::Text(_) => None,
            },
    {
        match self {
            RawSymbolToken::SymbolId(s) => Some(*s),
            RawSymbolToken::Text(_t) => None,
        }
    }

    /// Returns the text, if the token is text.
    pub fn text(&self) -> (text: Option<&str>)
        ensures
            text is Some == self is Text,
            text is Some ==> self@ == RawSymbolTokenView::Text(text->Some_0@),
    {
        match self {
            RawSymbolToken::SymbolId(_s) => None,
            RawSymbolToken::Text(t) => Some(t.as_str()),
        }
    }

    /// The token for a symbol ID.
    pub fn from_symbol_id(symbol_id: SymbolId) -> (token: RawSymbolToken)
        ensures
            token == RawSymbolToken::SymbolId(symbol_id),
    {
        RawSymbolToken::SymbolId(symbol_id)
    }

    /// The token for a text.
    pub fn from_text(text: &str) -> (token: RawSymbolToken)
        ensures
            token@ == RawSymbolTokenView::Text(text@),
    {
        RawSymbolToken::Text(owned_text(text))
    }
}

impl From<SymbolId> for RawSymbolToken {
    fn from(symbol_id: SymbolId) -> (token: Self) {
        RawSymbolToken::SymbolId(symbol_id)
    }
}

impl vstd::std_specs::convert::FromSpecImpl<SymbolId> for RawSymbolToken {
    open spec fn obeys_from_spec() -> bool {
        true
    }

    open spec fn from_spec(symbol_id: SymbolId) -> RawSymbolToken {
        RawSymbolToken::SymbolId(symbol_id)
    }
}

impl From<String> for RawSymbolToken {
    fn from(text: String) -> (token: Self) {
        RawSymbolToken::Text(text)
    }
}

impl vstd::std_specs::convert::FromSpecImpl<String> for RawSymbolToken {
    open spec fn obeys_from_spec() -> bool {
        true
    }

    open spec fn from_spec(text: String) -> RawSymbolToken {
        RawSymbolToken::Text(text)
    }
}

} // verus!
