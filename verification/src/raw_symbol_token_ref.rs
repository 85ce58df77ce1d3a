//! A borrowed symbol token.

use vstd::prelude::*;
use crate::raw_symbol_token::{RawSymbolToken, RawSymbolTokenView};
use crate::result::{IonError, IonResult};
use crate::symbol::Symbol;
use crate::symbol_ref::SymbolRef;
use crate::symbol_table::SymbolTable;
use crate::text::{owned_text, str_eq};
use crate::types::SymbolId;

verus! {

/// Like [`RawSymbolToken`], but the `Text` variant borrows its text.
#[derive(Debug, Clone, Copy, PartialEq, Eq)]
pub enum RawSymbolTokenRef<'a> {
    SymbolId(SymbolId),
    Text(&'a str),
}

impl<'a> View for RawSymbolTokenRef<'a> {
    type V = RawSymbolTokenView;

    open spec fn view(&self) -> RawSymbolTokenView {
        match self {
            RawSymbolTokenRef::SymbolId(sid) => RawSymbolTokenView::SymbolId(*sid as nat),
            RawSymbolTokenRef::Text(text) => RawSymbolTokenView::Text(text@),
        }
    }
}

impl<'a> RawSymbolTokenRef<'a> {
    /// Reports whether the token is the given symbol ID or the given text.
    pub fn matches(&self, sid: SymbolId, text: &str) -> (b: bool)
        ensures
            b == (self@ == RawSymbolTokenView::SymbolId(sid as nat) || self@
                == RawSymbolTokenView::Text(text@)),
    {
        match self {
            RawSymbolTokenRef::SymbolId(s) => *s == sid,
            RawSymbolTokenRef::Text(t) => str_eq(t, text),
        }
    }

    /// Resolves the token in `symbol_table`. Text resolves to itself. A symbol
    /// ID resolves to the table's entry, which may have unknown text; an ID
    /// that the table does not hold is a decoding error.
    pub fn resolve<'b>(&'b self, symbol_table: &'b SymbolTable) -> (r: IonResult<SymbolRef<'b>>)
        ensures
            match self@ {
                RawSymbolTokenView::SymbolId(sid) => if sid < symbol_table@.len() {
                    r is Ok && r->Ok_0@ == symbol_table@[sid as int]
                } else {
                    r == Err::<SymbolRef<'b>, IonError>(IonError::Decoding)
                },
                RawSymbolTokenView::Text(text) => r is Ok && r->Ok_0@ == Some(text),
            },
    {
        match self {
            RawSymbolTokenRef::SymbolId(sid) => match symbol_table.symbol_for(*sid) {
                Some(symbol) => Ok(SymbolRef::from_optional_text(symbol.text())),
                None => Err(IonError::Decoding),
            },
            RawSymbolTokenRef::Text(text) => Ok(SymbolRef::with_text(text)),
        }
    }

    /// Returns the text, if the token is text.
    pub fn text(&self) -> (text: Option<&'a str>)
        ensures
            text is Some == self is Text,
            text is Some ==> self@ == RawSymbolTokenView::Text(text->Some_0@),
    {
        match self {
            RawSymbolTokenRef::SymbolId(_) => None,
            RawSymbolTokenRef::Text(t) => Some(t),
        }
    }

    /// Returns a token that owns a copy of the text.
    pub fn to_owned(&self) -> (token: RawSymbolToken)
        ensures
            token@ == self@,
    {
        match self {
            RawSymbolTokenRef::SymbolId(sid) => RawSymbolToken::SymbolId(*sid),
            RawSymbolTokenRef::Text(text) => RawSymbolToken::Text(owned_text(text)),
        }
    }

    /// Reports whether this token and an owned one hold the same. Tokens are
    /// compared as they stand: a symbol ID never equals text.
    pub fn eq_token(&self, other: &RawSymbolToken) -> (b: bool)
        ensures
            b == (self@ == other@),
    {
        match (self, other) {
            (RawSymbolTokenRef::Text(t1), RawSymbolToken::Text(t2)) => str_eq(t1, t2.as_str()),
            (RawSymbolTokenRef::SymbolId(sid1), RawSymbolToken::SymbolId(sid2)) => *sid1 == *sid2,
            _ => false,
        }
    }
}

/// Implemented by types that can be viewed as a [`RawSymbolTokenRef`] without
/// allocations.
pub trait AsRawSymbolTokenRef {
    /// The token that the value stands for.
    spec fn token_view(&self) -> RawSymbolTokenView;

    fn as_raw_symbol_token_ref(&self) -> (token: RawSymbolTokenRef<'_>)
        ensures
            token@ == self.token_view(),
    ;
}

impl<'a> AsRawSymbolTokenRef for RawSymbolTokenRef<'a> {
    open spec fn token_view(&self) -> RawSymbolTokenView {
        self@
    }

    fn as_raw_symbol_token_ref(&self) -> (token: RawSymbolTokenRef<'_>) {
        match self {
            RawSymbolTokenRef::SymbolId(sid) => RawSymbolTokenRef::SymbolId(*sid),
            RawSymbolTokenRef::Text(text) => RawSymbolTokenRef::Text(text),
        }
    }
}

impl AsRawSymbolTokenRef for SymbolId {
    open spec fn token_view(&self) -> RawSymbolTokenView {
        RawSymbolTokenView::SymbolId(*self as nat)
    }

    fn as_raw_symbol_token_ref(&self) -> (token: RawSymbolTokenRef<'_>) {
        RawSymbolTokenRef::SymbolId(*self)
    }
}

impl AsRawSymbolTokenRef for String {
    open spec fn token_view(&self) -> RawSymbolTokenView {
        RawSymbolTokenView::Text(self@)
    }

    fn as_raw_symbol_token_ref(&self) -> (token: RawSymbolTokenRef<'_>) {
        RawSymbolTokenRef::Text(self.as_str())
    }
}

impl AsRawSymbolTokenRef for &str {
    open spec fn token_view(&self) -> RawSymbolTokenView {
        RawSymbolTokenView::Text(self@)
    }

    fn as_raw_symbol_token_ref(&self) -> (token: RawSymbolTokenRef<'_>) {
        RawSymbolTokenRef::Text(*self)
    }
}

impl AsRawSymbolTokenRef for Symbol {
    open spec fn token_view(&self) -> RawSymbolTokenView {
        match self@ {
            Some(text) => RawSymbolTokenView::Text(text),
            None => RawSymbolTokenView::SymbolId(0),
        }
    }

    fn as_raw_symbol_token_ref(&self) -> (token: RawSymbolTokenRef<'_>) {
        match self.text() {
            Some(text) => RawSymbolTokenRef::Text(text),
            None => RawSymbolTokenRef::SymbolId(0),
        }
    }
}

impl AsRawSymbolTokenRef for RawSymbolToken {
    open spec fn token_view(&self) -> RawSymbolTokenView {
        self@
    }

    fn as_raw_symbol_token_ref(&self) -> (token: RawSymbolTokenRef<'_>) {
        match self {
            RawSymbolToken::SymbolId(sid) => RawSymbolTokenRef::SymbolId(*sid),
            RawSymbolToken::Text(text) => RawSymbolTokenRef::Text(text.as_str()),
        }
    }
}

} // verus!
