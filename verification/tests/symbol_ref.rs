use ion_core::raw_symbol_token::RawSymbolToken;
use ion_core::raw_symbol_token_ref::{AsRawSymbolTokenRef, RawSymbolTokenRef};
use ion_core::symbol::Symbol;
use ion_core::symbol_ref::{AsSymbolRef, SymbolRef};
use ion_core::symbol_table::SymbolTable;

#[test]
fn symbol_ref_with_text() {
    let symbol_ref = SymbolRef::with_text("foo");
    assert_eq!(Some("foo"), symbol_ref.text());
}

#[test]
fn symbol_ref_with_unknown_text() {
    let symbol_ref = SymbolRef::with_unknown_text();
    assert_eq!(None, symbol_ref.text());
}

#[test]
fn str_as_symbol_ref() {
    let symbol_ref: SymbolRef = "foo".as_symbol_ref();
    assert_eq!(Some("foo"), symbol_ref.text());
}

#[test]
fn symbol_as_symbol_ref() {
    let symbol = Symbol::owned("foo");
    let symbol_ref: SymbolRef = symbol.as_symbol_ref();
    assert_eq!(Some("foo"), symbol_ref.text());
}

#[test]
fn symbol_with_unknown_text_as_symbol_ref() {
    let symbol = Symbol::unknown_text();
    let symbol_ref: SymbolRef = symbol.as_symbol_ref();
    assert_eq!(None, symbol_ref.text());
}

#[test]
fn symbol_ref_orders_unknown_text_first() {
    let unknown = SymbolRef::with_unknown_text();
    let bar = SymbolRef::with_text("bar");
    let foo = SymbolRef::with_text("foo");
    assert!(unknown < bar);
    assert!(bar < foo);
    assert_eq!(unknown, SymbolRef::with_unknown_text());
}

#[test]
fn symbol_ref_to_owned_keeps_text() {
    assert_eq!(SymbolRef::with_text("foo").to_owned(), Symbol::owned("foo"));
    assert_eq!(
        SymbolRef::with_unknown_text().to_owned(),
        Symbol::unknown_text()
    );
}

#[test]
fn raw_symbol_token_accessors() {
    let sid = RawSymbolToken::SymbolId(7);
    let text = RawSymbolToken::from_text("symbols");
    assert_eq!(sid.local_sid(), Some(7));
    assert_eq!(sid.text(), None);
    assert_eq!(text.local_sid(), None);
    assert_eq!(text.text(), Some("symbols"));
}

#[test]
fn raw_symbol_token_ref_matches_either_form() {
    assert!(RawSymbolTokenRef::SymbolId(7).matches(7, "symbols"));
    assert!(RawSymbolTokenRef::Text("symbols").matches(7, "symbols"));
    assert!(!RawSymbolTokenRef::SymbolId(6).matches(7, "symbols"));
    assert!(!RawSymbolTokenRef::Text("imports").matches(7, "symbols"));
}

#[test]
fn raw_symbol_tokens_compare_as_they_stand() {
    // `$7` and "symbols" resolve to the same symbol, and are different tokens.
    let sid = RawSymbolTokenRef::SymbolId(7);
    assert!(sid.eq_token(&RawSymbolToken::SymbolId(7)));
    assert!(!sid.eq_token(&RawSymbolToken::from_text("symbols")));
    assert_eq!(sid.to_owned(), RawSymbolToken::SymbolId(7));
    assert_eq!(
        RawSymbolTokenRef::Text("foo").to_owned(),
        RawSymbolToken::from_text("foo")
    );
}

#[test]
fn raw_symbol_token_ref_resolves_in_the_table() {
    let mut table = SymbolTable::new();
    let foo = table.intern("foo".to_string());
    let token = RawSymbolTokenRef::SymbolId(foo);
    assert_eq!(token.resolve(&table).unwrap().text(), Some("foo"));
    let zero = RawSymbolTokenRef::SymbolId(0);
    assert_eq!(zero.resolve(&table).unwrap().text(), None);
    let missing = RawSymbolTokenRef::SymbolId(99);
    assert!(missing.resolve(&table).is_err());
    let text = RawSymbolTokenRef::Text("bar");
    assert_eq!(text.resolve(&table).unwrap().text(), Some("bar"));
}

#[test]
fn values_view_as_raw_symbol_tokens() {
    assert_eq!(
        7usize.as_raw_symbol_token_ref(),
        RawSymbolTokenRef::SymbolId(7)
    );
    assert_eq!(
        "foo".as_raw_symbol_token_ref(),
        RawSymbolTokenRef::Text("foo")
    );
    assert_eq!(
        "foo".to_string().as_raw_symbol_token_ref(),
        RawSymbolTokenRef::Text("foo")
    );
    assert_eq!(
        Symbol::owned("foo").as_raw_symbol_token_ref(),
        RawSymbolTokenRef::Text("foo")
    );
    assert_eq!(
        Symbol::unknown_text().as_raw_symbol_token_ref(),
        RawSymbolTokenRef::SymbolId(0)
    );
}

#[test]
fn symbol_refs_and_tokens_are_made_from_plain_values() {
    assert_eq!(SymbolRef::from("foo"), SymbolRef::with_text("foo"));
    assert_eq!(SymbolRef::from(Some("foo")), SymbolRef::with_text("foo"));
    assert_eq!(SymbolRef::from(None), SymbolRef::with_unknown_text());
    assert_eq!(
        ion_core::raw_symbol_token::RawSymbolToken::from(7usize),
        ion_core::raw_symbol_token::RawSymbolToken::SymbolId(7)
    );
    assert_eq!(
        ion_core::raw_symbol_token::RawSymbolToken::from("foo".to_string()),
        ion_core::raw_symbol_token::RawSymbolToken::Text("foo".to_string())
    );
}
