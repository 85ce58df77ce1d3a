//! The table that maps symbol IDs to text and back.

use vstd::prelude::*;
use crate::constants::{system_symbol, system_symbol_text, SYSTEM_SYMBOL_COUNT};
use crate::symbol::Symbol;

use crate::types::SymbolId;

verus! {

/// The entries that a table holds after a reset: unknown text at ID 0, then
/// the system symbols.
pub open spec fn system_entries() -> Seq<Option<Seq<char>>> {
    Seq::new(
        SYSTEM_SYMBOL_COUNT as nat,
        |id: int|
            if id == 0 {
                None
            } else {
                Some(system_symbol_text(id))
            },
    )
}

/// The lowest ID of `entries` that holds `text`, if any does.
pub open spec fn first_id_of(entries: Seq<Option<Seq<char>>>, text: Seq<char>) -> Option<int>
    decreases entries.len(),
{
    if entries.len() == 0 {
        None
    } else {
        match first_id_of(entries.drop_last(), text) {
            Some(id) => Some(id),
            None => if entries.last() == Some(text) {
                Some(entries.len() - 1)
            } else {
                None
            },
        }
    }
}

/// What `first_id_of` finds holds the text, and no lower ID does.
pub proof fn lemma_first_id_of(entries: Seq<Option<Seq<char>>>, text: Seq<char>)
    ensures
        match first_id_of(entries, text) {
            Some(id) => 0 <= id < entries.len() && entries[id] == Some(text) && forall|j: int|
                0 <= j < id ==> entries[j] != Some(text),
            None => forall|j: int| 0 <= j < entries.len() ==> entries[j] != Some(text),
        },
    decreases entries.len(),
{
    if entries.len() > 0 {
        let head = entries.drop_last();
        lemma_first_id_of(head, text);
        match first_id_of(head, text) {
            Some(id) => {
                assert(entries[id] == head[id]);
                assert forall|j: int| 0 <= j < id implies entries[j] != Some(text) by {
                    assert(entries[j] == head[j]);
                }
            },
            None => {
                assert forall|j: int| 0 <= j < head.len() implies entries[j] != Some(text) by {
                    assert(entries[j] == head[j]);
                }
            },
        }
    }
}

/// Entries appended to a table do not move the first ID of a text that the
/// table holds.
pub proof fn lemma_first_id_of_push(
    entries: Seq<Option<Seq<char>>>,
    entry: Option<Seq<char>>,
    text: Seq<char>,
)
    ensures
        first_id_of(entries, text) is Some ==> first_id_of(entries.push(entry), text)
            == first_id_of(entries, text),
        first_id_of(entries, text) is None && entry == Some(text) ==> first_id_of(
            entries.push(entry),
            text,
        ) == Some(entries.len() as int),
        first_id_of(entries, text) is None && entry != Some(text) ==> first_id_of(
            entries.push(entry),
            text,
        ) is None,
{
    assert(entries.push(entry).drop_last() =~= entries);
}

/// An ordered list of symbols. A symbol's ID is its position in the list. ID
/// 0 always stands for unknown text.
#[derive(Debug)]
pub struct SymbolTable {
    symbols_by_id: Vec<Symbol>,
}

impl View for SymbolTable {
    type V = Seq<Option<Seq<char>>>;

    /// The text of each entry, by ID; `None` where the text is unknown.
    closed spec fn view(&self) -> Seq<Option<Seq<char>>> {
        Seq::new(self.symbols_by_id@.len(), |id: int| self.symbols_by_id@[id]@)
    }
}

impl SymbolTable {
    /// The table starts with the system symbols.
    pub open spec fn wf(&self) -> bool {
        &&& self@.len() >= SYSTEM_SYMBOL_COUNT
        &&& self@.take(SYSTEM_SYMBOL_COUNT as int) == system_entries()
    }

    /// Constructs a table that holds the system symbols.
    pub fn new() -> (table: SymbolTable)
        ensures
            table@ == system_entries(),
            table.wf(),
    {
        let mut symbol_table = SymbolTable { symbols_by_id: Vec::new() };
        symbol_table.initialize();
        assert(symbol_table@.take(SYSTEM_SYMBOL_COUNT as int) =~= symbol_table@);
        symbol_table
    }

    fn initialize(&mut self)
        requires
            old(self)@.len() == 0,
        ensures
            final(self)@ == system_entries(),
    {
        self.symbols_by_id.push(Symbol::unknown_text());
        let mut id: usize = 1;
        while id < SYSTEM_SYMBOL_COUNT
            invariant
                1 <= id <= SYSTEM_SYMBOL_COUNT,
                self.symbols_by_id@.len() == id,
                forall|j: int| 0 <= j < id ==> #[trigger] self.symbols_by_id@[j]@
                    == system_entries()[j],
            decreases SYSTEM_SYMBOL_COUNT - id,
        {
            self.symbols_by_id.push(Symbol::owned(system_symbol(id)));
            id += 1;
        }
        assert(self@ =~= system_entries());
    }

    /// Empties the table and fills it with the system symbols again.
    pub fn reset(&mut self)
        ensures
            final(self)@ == system_entries(),
            final(self).wf(),
    {
        self.symbols_by_id.clear();
        assert(self@.len() == 0);
        self.initialize();
        assert(self@.take(SYSTEM_SYMBOL_COUNT as int) =~= self@);
    }

    /// Returns the ID of `text`. When the table holds the text, that is the
    /// lowest ID that does, and the table stays as it is; otherwise the text is
    /// appended and gets the next ID.
    pub fn intern(&mut self, text: String) -> (id: SymbolId)
        ensures
            id == interned_id(old(self)@, text@),
            final(self)@ == after_interning(old(self)@, text@),
            first_id_of(final(self)@, text@) == Some(id as int),
            old(self).wf() ==> final(self).wf(),
    {
        proof {
            lemma_first_id_of_push(self@, Some(text@), text@);
            lemma_first_id_of(self@, text@);
        }
        let found = self.sid_for(text.as_str());
        match found {
            Some(id) => {
                assert(first_id_of(self@, text@) == Some(id as int));
                assert(self@ == old(self)@);
                return id;
            },
            None => {},
        }
        let id = self.symbols_by_id.len();
        let ghost before = self@;
        self.symbols_by_id.push(Symbol::from_string(text));
        assert(self@ =~= before.push(Some(text@)));
        proof {
            if before.len() >= SYSTEM_SYMBOL_COUNT {
                assert(self@.take(SYSTEM_SYMBOL_COUNT as int) =~= before.take(
                    SYSTEM_SYMBOL_COUNT as int,
                ));
            }
        }
        id
    }

    /// Appends a symbol with unknown text, which takes the next ID.
    pub fn add_placeholder(&mut self) -> (id: SymbolId)
        ensures
            id == old(self)@.len(),
            final(self)@ == old(self)@.push(None),
            old(self).wf() ==> final(self).wf(),
    {
        let id = self.symbols_by_id.len();
        let ghost before = self@;
        self.symbols_by_id.push(Symbol::unknown_text());
        assert(self@ =~= before.push(None));
        proof {
            if before.len() >= SYSTEM_SYMBOL_COUNT {
                assert(self@.take(SYSTEM_SYMBOL_COUNT as int) =~= before.take(
                    SYSTEM_SYMBOL_COUNT as int,
                ));
            }
        }
        id
    }

    /// Returns the lowest ID that holds `text`, if any does.
    pub fn sid_for(&self, text: &str) -> (sid: Option<SymbolId>)
        ensures
            match sid {
                Some(id) => first_id_of(self@, text@) == Some(id as int),
                None => first_id_of(self@, text@) is None,
            },
    {
        let mut id: usize = 0;
        proof {
            lemma_first_id_of(self@, text@);
        }
        while id < self.symbols_by_id.len()
            invariant
                id <= self.symbols_by_id@.len(),
                forall|j: int| 0 <= j < id ==> self@[j] != Some(text@),
            decreases self.symbols_by_id@.len() - id,
        {
            if self.symbols_by_id[id].has_text(text) {
                proof {
                    lemma_first_id_of(self@, text@);
                    assert(self@[id as int] == Some(text@));
                    let found = first_id_of(self@, text@);
                    assert(found is Some);
                    let k = found->Some_0;
                    assert(self@[k] == Some(text@));
                    assert(k == id);
                }
                return Some(id);
            }
            assert(self@[id as int] != Some(text@));
            id += 1;
        }
        proof {
            lemma_first_id_of(self@, text@);
            let found = first_id_of(self@, text@);
            if found is Some {
                assert(self@[found->Some_0] == Some(text@));
            }
        }
        None
    }

    /// Returns the text of the symbol with the given ID: `None` for an ID
    /// that the table does not hold, and for one whose text is unknown.
    pub fn text_for(&self, sid: SymbolId) -> (text: Option<&str>)
        ensures
            match text {
                Some(t) => sid < self@.len() && self@[sid as int] == Some(t@),
                None => sid >= self@.len() || self@[sid as int] is None,
            },
    {
        if sid < self.symbols_by_id.len() {
            self.symbols_by_id[sid].text()
        } else {
            None
        }
    }

    /// Returns the symbol with the given ID, if the table holds it.
    pub fn symbol_for(&self, sid: SymbolId) -> (symbol: Option<&Symbol>)
        ensures
            symbol is Some == (sid < self@.len()),
            symbol is Some ==> symbol->Some_0@ == self@[sid as int],
    {
        if sid < self.symbols_by_id.len() {
            Some(&self.symbols_by_id[sid])
        } else {
            None
        }
    }

    /// Returns the symbols in ID order.
    pub fn symbols(&self) -> (symbols: &[Symbol])
        ensures
            symbols@.len() == self@.len(),
            forall|id: int| 0 <= id < self@.len() ==> #[trigger] symbols@[id]@ == self@[id],
    {
        self.symbols_by_id.as_slice()
    }

    /// Returns the symbols from ID `start` on.
    pub fn symbols_tail(&self, start: usize) -> (symbols: &[Symbol])
        requires
            start <= self@.len(),
        ensures
            symbols@.len() == self@.len() - start,
            forall|id: int|
                0 <= id < self@.len() - start ==> #[trigger] symbols@[id]@ == self@[start + id],
    {
        vstd::slice::slice_subrange(self.symbols_by_id.as_slice(), start, self.symbols_by_id.len())
    }

    /// Returns the number of symbols, `$0` included.
    pub fn len(&self) -> (len: usize)
        ensures
            len == self@.len(),
    {
        self.symbols_by_id.len()
    }
}

/// Implemented by those who want to hear of changes to a symbol table.
pub trait SymbolTableEventHandler {
    /// Called after the table was reset.
    fn on_reset(&mut self, symbol_table: &SymbolTable);

    /// Called after symbols were appended, with the ID of the first of them.
    fn on_append(&mut self, symbol_table: &SymbolTable, starting_id: usize);
}

/// The ID that interning `text` in the table `entries` returns: the lowest ID
/// that holds the text, or the next free ID when none does.
pub open spec fn interned_id(entries: Seq<Option<Seq<char>>>, text: Seq<char>) -> int {
    match first_id_of(entries, text) {
        Some(id) => id,
        None => entries.len() as int,
    }
}

/// The table `entries` after `text` was interned: as it was when it held the
/// text, and with the text appended otherwise.
pub open spec fn after_interning(entries: Seq<Option<Seq<char>>>, text: Seq<char>) -> Seq<
    Option<Seq<char>>,
> {
    if first_id_of(entries, text) is Some {
        entries
    } else {
        entries.push(Some(text))
    }
}

/// Interning a text a second time returns the ID that the first time
/// returned, and leaves the table as the first time left it.
pub proof fn lemma_intern_twice(entries: Seq<Option<Seq<char>>>, text: Seq<char>)
    ensures
        interned_id(after_interning(entries, text), text) == interned_id(entries, text),
        after_interning(after_interning(entries, text), text) == after_interning(entries, text),
{
    lemma_first_id_of_push(entries, Some(text), text);
}

} // verus!
