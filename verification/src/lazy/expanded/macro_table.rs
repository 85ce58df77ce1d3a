//! The table of the macros that an Ion 1.1 stream can invoke.

use vstd::prelude::*;
use crate::text::{owned_text, str_eq};

verus! {

/// The kinds of macros that the system defines. The library recognizes them
/// and evaluates none.
#[derive(Debug, Clone, Copy, PartialEq, Eq, Structural)]
pub enum MacroKind {
    Void,
    Values,
    MakeString,
}

/// A macro and the name it goes by.
#[derive(Debug)]
pub struct NamedMacro {
    pub name: String,
    pub kind: MacroKind,
}

/// Allows callers to resolve a macro ID (that is: name or address) to a
/// [`MacroKind`], confirming its validity.
#[derive(Debug)]
pub struct MacroTable {
    macros_by_address: Vec<MacroKind>,
    macros_by_name: Vec<NamedMacro>,
}

/// The system macros by address.
pub open spec fn system_macros() -> Seq<MacroKind> {
    seq![MacroKind::Void, MacroKind::Values, MacroKind::MakeString]
}

/// The names of the system macros, by address.
pub open spec fn system_macro_names() -> Seq<Seq<char>> {
    seq!["void"@, "values"@, "make_string"@]
}

/// The lowest position of `names` that holds `name`, if any does.
pub open spec fn position_of(names: Seq<Seq<char>>, name: Seq<char>) -> Option<int>
    decreases names.len(),
{
    if names.len() == 0 {
        None
    } else {
        match position_of(names.drop_last(), name) {
            Some(i) => Some(i),
            None => if names.last() == name {
                Some(names.len() - 1)
            } else {
                None
            },
        }
    }
}

impl Default for MacroTable {
    /// A table that holds the system macros.
    fn default() -> (table: Self)
        ensures
            table.spec_macros() == system_macros(),
            table.spec_names() == system_macro_names(),
            table.spec_named() == system_macros(),
    {
        Self::new()
    }
}

impl MacroTable {
    /// The macros by address.
    pub closed spec fn spec_macros(&self) -> Seq<MacroKind> {
        self.macros_by_address@
    }

    /// The names that the table knows, in the order they were entered.
    pub closed spec fn spec_names(&self) -> Seq<Seq<char>> {
        Seq::new(self.macros_by_name@.len(), |i: int| self.macros_by_name@[i].name@)
    }

    /// The macro that each known name stands for.
    pub closed spec fn spec_named(&self) -> Seq<MacroKind> {
        Seq::new(self.macros_by_name@.len(), |i: int| self.macros_by_name@[i].kind)
    }

    /// A table that holds the system macros: `void`, `values` and
    /// `make_string`, at the addresses 0, 1 and 2.
    pub fn new() -> (table: Self)
        ensures
            table.spec_macros() == system_macros(),
            table.spec_names() == system_macro_names(),
            table.spec_named() == system_macros(),
    {
        let mut macros_by_address: Vec<MacroKind> = Vec::new();
        macros_by_address.push(MacroKind::Void);
        macros_by_address.push(MacroKind::Values);
        macros_by_address.push(MacroKind::MakeString);
        let mut macros_by_name: Vec<NamedMacro> = Vec::new();
        macros_by_name.push(NamedMacro { name: owned_text("void"), kind: MacroKind::Void });
        macros_by_name.push(NamedMacro { name: owned_text("values"), kind: MacroKind::Values });
        macros_by_name.push(
            NamedMacro { name: owned_text("make_string"), kind: MacroKind::MakeString },
        );
        let table = Self { macros_by_address, macros_by_name };
        assert(table.spec_macros() =~= system_macros());
        assert(table.spec_names() =~= system_macro_names());
        assert(table.spec_named() =~= system_macros());
        table
    }

    /// Returns the macro at the given address, if the table holds one there.
    pub fn macro_at_address(&self, id: usize) -> (kind: Option<&MacroKind>)
        ensures
            kind is Some == (id < self.spec_macros().len()),
            kind is Some ==> *kind->Some_0 == self.spec_macros()[id as int],
    {
        if id < self.macros_by_address.len() {
            Some(&self.macros_by_address[id])
        } else {
            None
        }
    }

    /// Returns the macro that goes by the given name: the first that was
    /// entered under it, if any was.
    pub fn macro_with_name(&self, name: &str) -> (kind: Option<&MacroKind>)
        ensures
            match position_of(self.spec_names(), name@) {
                Some(i) => kind is Some && *kind->Some_0 == self.spec_named()[i],
                None => kind is None,
            },
    {
        let mut i: usize = 0;
        while i < self.macros_by_name.len()
            invariant
                i <= self.macros_by_name@.len(),
                forall|j: int| 0 <= j < i ==> self.spec_names()[j] != name@,
            decreases self.macros_by_name@.len() - i,
        {
            if str_eq(self.macros_by_name[i].name.as_str(), name) {
                proof {
                    lemma_position_of(self.spec_names(), name@);
                    assert(self.spec_names()[i as int] == name@);
                    let found = position_of(self.spec_names(), name@);
                    assert(found is Some);
                    assert(self.spec_names()[found->Some_0] == name@);
                }
                return Some(&self.macros_by_name[i].kind);
            }
            assert(self.spec_names()[i as int] != name@);
            i += 1;
        }
        proof {
            lemma_position_of(self.spec_names(), name@);
            let found = position_of(self.spec_names(), name@);
            if found is Some {
                assert(self.spec_names()[found->Some_0] == name@);
            }
        }
        None
    }
}

/// What `position_of` finds holds the name, and no lower position does.
pub proof fn lemma_position_of(names: Seq<Seq<char>>, name: Seq<char>)
    ensures
        match position_of(names, name) {
            Some(i) => 0 <= i < names.len() && names[i] == name && forall|j: int|
                0 <= j < i ==> names[j] != name,
            None => forall|j: int| 0 <= j < names.len() ==> names[j] != name,
        },
    decreases names.len(),
{
    if names.len() > 0 {
        let head = names.drop_last();
        lemma_position_of(head, name);
        match position_of(head, name) {
            Some(i) => {
                assert(names[i] == head[i]);
                assert forall|j: int| 0 <= j < i implies names[j] != name by {
                    assert(names[j] == head[j]);
                }
            },
            None => {
                assert forall|j: int| 0 <= j < head.len() implies names[j] != name by {
                    assert(names[j] == head[j]);
                }
            },
        }
    }
}

} // verus!
