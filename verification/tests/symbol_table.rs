use ion_core::symbol_table::SymbolTable;
use ion_core::symbol_table_directive::SymbolTableDirective;

const SYSTEM_SYMBOLS: [&str; 9] = [
    "$ion",
    "$ion_1_0",
    "$ion_symbol_table",
    "name",
    "version",
    "imports",
    "symbols",
    "max_id",
    "$ion_shared_symbol_table",
];

fn texts(table: &SymbolTable) -> Vec<Option<String>> {
    table
        .symbols()
        .iter()
        .map(|symbol| symbol.text().map(|text| text.to_string()))
        .collect()
}

#[test]
fn new_table_holds_the_system_symbols() {
    let table = SymbolTable::new();
    assert_eq!(table.len(), 10);
    assert_eq!(table.text_for(0), None);
    for (index, text) in SYSTEM_SYMBOLS.iter().enumerate() {
        assert_eq!(table.text_for(index + 1), Some(*text));
        assert_eq!(table.sid_for(text), Some(index + 1));
    }
    assert_eq!(table.text_for(10), None);
}

#[test]
fn intern_twice_returns_the_same_id() {
    let mut table = SymbolTable::new();
    let first = table.intern("foo".to_string());
    let second = table.intern("foo".to_string());
    assert_eq!(first, 10);
    assert_eq!(second, 10);
    assert_eq!(table.len(), 11);
}

#[test]
fn intern_of_a_system_symbol_returns_its_id() {
    let mut table = SymbolTable::new();
    assert_eq!(table.intern("symbols".to_string()), 7);
    assert_eq!(table.len(), 10);
}

#[test]
fn reset_restores_the_system_symbols() {
    let mut table = SymbolTable::new();
    table.intern("foo".to_string());
    table.intern("bar".to_string());
    assert_eq!(table.len(), 12);
    table.reset();
    assert_eq!(texts(&table), texts(&SymbolTable::new()));
    assert_eq!(table.sid_for("foo"), None);
}

#[test]
fn symbols_tail_starts_at_the_given_id() {
    let mut table = SymbolTable::new();
    table.intern("foo".to_string());
    table.intern("bar".to_string());
    let tail = table.symbols_tail(10);
    assert_eq!(tail.len(), 2);
    assert_eq!(tail[0].text(), Some("foo"));
    assert_eq!(tail[1].text(), Some("bar"));
    assert_eq!(table.symbols_tail(12).len(), 0);
}

#[test]
fn placeholder_takes_an_id_without_text() {
    let mut table = SymbolTable::new();
    let id = table.add_placeholder();
    assert_eq!(id, 10);
    assert_eq!(table.text_for(10), None);
    assert!(table.symbol_for(10).is_some());
    assert_eq!(table.intern("foo".to_string()), 11);
}

#[test]
fn directive_that_appends_keeps_the_table() {
    let mut table = SymbolTable::new();
    table.intern("foo".to_string());
    table.apply(&SymbolTableDirective {
        is_append: true,
        symbols: vec![Some("bar".to_string()), None, Some("foo".to_string())],
    });
    assert_eq!(table.len(), 13);
    assert_eq!(table.text_for(10), Some("foo"));
    assert_eq!(table.text_for(11), Some("bar"));
    assert_eq!(table.text_for(12), None);
}

#[test]
fn directive_that_does_not_append_resets_first() {
    let mut table = SymbolTable::new();
    table.intern("foo".to_string());
    table.apply(&SymbolTableDirective {
        is_append: false,
        symbols: vec![Some("bar".to_string())],
    });
    assert_eq!(table.len(), 11);
    assert_eq!(table.text_for(10), Some("bar"));
    assert_eq!(table.sid_for("foo"), None);
}
