//! Constants fixed by the Ion 1.0 specification.

use vstd::prelude::*;

verus! {

/// The number of entries in the system symbol table, `$0` included.
pub const SYSTEM_SYMBOL_COUNT: usize = 10;

/// The text of the system symbol with the given ID. ID 0 is listed as `$0`.
pub open spec fn system_symbol_text(id: int) -> Seq<char> {
    if id == 0 {
        "$0"@
    } else if id == 1 {
        "$ion"@
    } else if id == 2 {
        "$ion_1_0"@
    } else if id == 3 {
        "$ion_symbol_table"@
    } else if id == 4 {
        "name"@
    } else if id == 5 {
        "version"@
    } else if id == 6 {
        "imports"@
    } else if id == 7 {
        "symbols"@
    } else if id == 8 {
        "max_id"@
    } else {
        "$ion_shared_symbol_table"@
    }
}

/// The system symbols in ID order, as a sequence of texts.
pub open spec fn system_symbols() -> Seq<Seq<char>> {
    Seq::new(SYSTEM_SYMBOL_COUNT as nat, |id: int| system_symbol_text(id))
}

/// Returns the text of the system symbol with the given ID.
pub fn system_symbol(id: usize) -> (text: &'static str)
    requires
        id < SYSTEM_SYMBOL_COUNT,
    ensures
        text@ == system_symbol_text(id as int),
{
    if id == 0 {
        "$0"
    } else if id == 1 {
        "$ion"
    } else if id == 2 {
        "$ion_1_0"
    } else if id == 3 {
        "$ion_symbol_table"
    } else if id == 4 {
        "name"
    } else if id == 5 {
        "version"
    } else if id == 6 {
        "imports"
    } else if id == 7 {
        "symbols"
    } else if id == 8 {
        "max_id"
    } else {
        "$ion_shared_symbol_table"
    }
}

/// Symbol IDs of the system symbols that the readers and writers refer to.
pub const ION_SYMBOL_TABLE: usize = 3;

pub const IMPORTS: usize = 6;

pub const SYMBOLS: usize = 7;

} // verus!
