//! Local symbol tables as they stand in a stream.
//!
//! A struct at the top level whose first annotation is `$ion_symbol_table`
//! (symbol ID 3) is no user value: it changes the symbol table. Its field
//! `imports` (ID 6) says whether the symbols are appended to the table, and
//! its field `symbols` (ID 7) lists the text of the symbols.

use vstd::prelude::*;

use crate::constants::{IMPORTS, ION_SYMBOL_TABLE, SYMBOLS};
use crate::lazy::binary::layout::{next_child, next_field, ValueLayout};
use crate::lazy::binary::raw::annotations_iterator::next_annotation;
use crate::lazy::binary::raw::sequence::RawBinarySequenceIterator_1_0;
use crate::lazy::binary::raw::structure::RawBinaryStructIterator_1_0;
use crate::lazy::binary::raw::value::{decode_body, LazyRawBinaryValue_1_0};
use crate::lazy::decoder::RawValueExpr;
use crate::lazy::raw_value_ref::{RawValueRef, RawValueView};
use crate::raw_symbol_token::RawSymbolTokenView;
use crate::raw_symbol_token_ref::RawSymbolTokenRef;
use crate::result::{IonError, IonResult};
use crate::symbol_table::{after_interning, system_entries, SymbolTable};
use crate::text::owned_text;
use crate::types::IonType;

verus! {

/// What a local symbol table asks for: whether its symbols are appended to
/// the table as it is, and the text of each symbol, `None` for a symbol whose
/// text is unknown.
pub struct SymbolTableDirective {
    pub is_append: bool,
    pub symbols: Vec<Option<String>>,
}

/// A directive as a mathematical value.
pub struct DirectiveView {
    pub is_append: bool,
    pub symbols: Seq<Option<Seq<char>>>,
}

impl View for SymbolTableDirective {
    type V = DirectiveView;

    open spec fn view(&self) -> DirectiveView {
        DirectiveView { is_append: self.is_append, symbols: texts_view(self.symbols@) }
    }
}

/// The body of the value with layout `layout` that starts `start` bytes into
/// `s`.
pub open spec fn body_at(s: Seq<u8>, start: int, layout: ValueLayout) -> Seq<u8> {
    s.subrange(
        start + layout.annotations_header_length + layout.header_length(),
        start + layout.total_length(),
    )
}

/// True when a value is a local symbol table: a struct that is not null and
/// whose first annotation is symbol ID 3.
pub open spec fn is_symbol_table(layout: ValueLayout, annotations: Seq<u8>) -> bool {
    &&& layout.ion_type is Struct
    &&& !layout.is_null()
    &&& annotations.len() > 0
    &&& next_annotation(annotations) is Some
    &&& next_annotation(annotations)->Some_0.0 == 3
}

/// The text of one entry of a `symbols` list: the text of a string, and
/// `None` for anything else. `Err` for an entry whose body is malformed.
#[verifier::opaque]
pub open spec fn entry_text(opcode: u8, body: Seq<u8>) -> Result<Option<Seq<char>>, ()> {
    match decode_body(opcode, body) {
        None => Err(()),
        Some(RawValueView::String(text)) => Ok(Some(text)),
        Some(_) => Ok(None),
    }
}

/// True when a value is the symbol with ID 3, `$ion_symbol_table`.
#[verifier::opaque]
pub open spec fn names_symbol_table(opcode: u8, body: Seq<u8>) -> bool {
    decode_body(opcode, body) == Some(RawValueView::Symbol(RawSymbolTokenView::SymbolId(3)))
}

/// The texts that the body `s` of a `symbols` list holds, in order; `None`
/// when the list is malformed.
#[verifier::opaque]
pub open spec fn list_texts(s: Seq<u8>) -> Option<Seq<Option<Seq<char>>>>
    decreases s.len(),
{
    match next_child(s) {
        Err(_) => None,
        Ok(None) => Some(Seq::empty()),
        Ok(Some(child)) => {
            if child.consumed() == 0 || child.consumed() > s.len() {
                None
            } else {
                match entry_text(child.value.opcode, body_at(s, child.padding as int, child.value)) {
                    Err(_) => None,
                    Ok(text) => match list_texts(s.skip(child.consumed() as int)) {
                        None => None,
                        Some(rest) => Some(seq![text] + rest),
                    },
                }
            }
        },
    }
}

/// What the fields in the struct body `s` ask for; `None` when the struct is
/// malformed.
///
/// The symbols are appended when a field `imports` holds the symbol with ID 3.
/// Every field `symbols` that holds a list adds the entries of the list. Other
/// fields say nothing.
#[verifier::opaque]
pub open spec fn directive_of(s: Seq<u8>) -> Option<DirectiveView>
    decreases s.len(),
{
    match next_field(s) {
        Err(_) => None,
        Ok(None) => Some(DirectiveView { is_append: false, symbols: Seq::empty() }),
        Ok(Some(field)) => {
            if field.consumed() == 0 || field.consumed() > s.len() {
                None
            } else {
                let body = body_at(s, (field.padding + field.field_id_length) as int, field.value);
                match field_directive(field.field_id, field.value, body) {
                    None => None,
                    Some(here) => match directive_of(s.skip(field.consumed() as int)) {
                        None => None,
                        Some(rest) => Some(
                            DirectiveView {
                                is_append: here.is_append || rest.is_append,
                                symbols: here.symbols + rest.symbols,
                            },
                        ),
                    },
                }
            }
        },
    }
}

/// The table `entries` after each of `symbols` was added in order: a text is
/// interned, and a symbol with unknown text takes the next ID.
pub open spec fn with_symbols(
    entries: Seq<Option<Seq<char>>>,
    symbols: Seq<Option<Seq<char>>>,
) -> Seq<Option<Seq<char>>>
    decreases symbols.len(),
{
    if symbols.len() == 0 {
        entries
    } else {
        let before = with_symbols(entries, symbols.drop_last());
        match symbols.last() {
            Some(text) => after_interning(before, text),
            None => before.push(None),
        }
    }
}

/// The table `entries` after a directive: reset to the system symbols first
/// unless the directive appends, and then extended by the directive's
/// symbols.
pub open spec fn applied(entries: Seq<Option<Seq<char>>>, directive: DirectiveView) -> Seq<
    Option<Seq<char>>,
> {
    with_symbols(
        if directive.is_append {
            entries
        } else {
            system_entries()
        },
        directive.symbols,
    )
}

/// Reads the text of one entry of a `symbols` list.
pub fn read_entry(entry: &LazyRawBinaryValue_1_0<'_>) -> (r: IonResult<Option<String>>)
    requires
        entry.wf(),
    ensures
        match entry_text(entry.encoded_value.opcode, entry.spec_body()) {
            Ok(text) => r is Ok && match r->Ok_0 {
                Some(owned) => text == Some(owned@),
                None => text is None,
            },
            Err(_) => r == Err::<Option<String>, IonError>(IonError::Decoding),
        },
{
    reveal(entry_text);
    match entry.read() {
        Ok(RawValueRef::String(text)) => Ok(Some(owned_text(text))),
        Ok(_) => Ok(None),
        Err(_) => Err(IonError::Decoding),
    }
}

/// Reports whether a value is the symbol with ID 3, `$ion_symbol_table`.
pub fn is_symbol_table_symbol(value: &LazyRawBinaryValue_1_0<'_>) -> (b: bool)
    requires
        value.wf(),
    ensures
        b == names_symbol_table(value.encoded_value.opcode, value.spec_body()),
{
    reveal(names_symbol_table);
    match value.read() {
        Ok(RawValueRef::Symbol(RawSymbolTokenRef::SymbolId(sid))) => sid == ION_SYMBOL_TABLE,
        _ => false,
    }
}

/// The body of a handle whose input starts `padding` bytes into `s` is the
/// body that its layout marks in `s`.
pub proof fn lemma_body_at(value: LazyRawBinaryValue_1_0<'_>, s: Seq<u8>, padding: int)
    requires
        value.encoded_value.wf(),
        value.encoded_value.total_length <= value.input@.len(),
        0 <= padding <= s.len(),
        value.input@ == s.skip(padding),
    ensures
        value.spec_body() == body_at(
            s,
            padding + value.encoded_value.field_id_length,
            value.layout(),
        ),
{
    assert(value.spec_body() =~= body_at(
        s,
        padding + value.encoded_value.field_id_length,
        value.layout(),
    ));
}

/// How the texts of a list follow from its first entry and the texts of the
/// rest.
pub proof fn lemma_list_texts_step(s: Seq<u8>)
    ensures
        match next_child(s) {
            Err(_) => list_texts(s) is None,
            Ok(None) => list_texts(s) == Some(Seq::<Option<Seq<char>>>::empty()),
            Ok(Some(child)) => if child.consumed() == 0 || child.consumed() > s.len() {
                list_texts(s) is None
            } else {
                match entry_text(child.value.opcode, body_at(s, child.padding as int, child.value)) {
                    Err(_) => list_texts(s) is None,
                    Ok(text) => match list_texts(s.skip(child.consumed() as int)) {
                        None => list_texts(s) is None,
                        Some(rest) => list_texts(s) == Some(seq![text] + rest),
                    },
                }
            },
        },
{
    reveal_with_fuel(list_texts, 2);
}

/// How what a struct asks for follows from its first field and from what
/// the rest asks for.
pub proof fn lemma_directive_step(s: Seq<u8>)
    ensures
        match next_field(s) {
            Err(_) => directive_of(s) is None,
            Ok(None) => directive_of(s) == Some(
                DirectiveView { is_append: false, symbols: Seq::empty() },
            ),
            Ok(Some(field)) => if field.consumed() == 0 || field.consumed() > s.len() {
                directive_of(s) is None
            } else {
                match field_directive(
                    field.field_id,
                    field.value,
                    body_at(s, (field.padding + field.field_id_length) as int, field.value),
                ) {
                    None => directive_of(s) is None,
                    Some(here) => match directive_of(s.skip(field.consumed() as int)) {
                        None => directive_of(s) is None,
                        Some(rest) => directive_of(s) == Some(
                            DirectiveView {
                                is_append: here.is_append || rest.is_append,
                                symbols: here.symbols + rest.symbols,
                            },
                        ),
                    },
                }
            },
        },
{
    reveal_with_fuel(directive_of, 2);
}

/// The text of a symbol as a mathematical value.
pub open spec fn text_view(text: Option<String>) -> Option<Seq<char>> {
    match text {
        Some(owned) => Some(owned@),
        None => None,
    }
}

/// The texts of symbols as mathematical values.
pub open spec fn texts_view(texts: Seq<Option<String>>) -> Seq<Option<Seq<char>>> {
    Seq::new(texts.len(), |i: int| text_view(texts[i]))
}

/// Reads the next entry of a `symbols` list. `None` says that none is left.
/// After an error the iterator yields nothing more.
#[verifier::rlimit(50)]
pub fn next_entry(iterator: &mut RawBinarySequenceIterator_1_0<'_>) -> (r: Option<
    IonResult<Option<String>>,
>)
    requires
        old(iterator).wf(),
    ensures
        final(iterator).wf(),
        match next_child(old(iterator)@) {
            Err(_) => r == Some(Err::<Option<String>, IonError>(IonError::Decoding)),
            Ok(None) => r is None,
            Ok(Some(child)) => {
                &&& 1 <= child.consumed() <= old(iterator)@.len()
                &&& final(iterator)@ == old(iterator)@.skip(child.consumed() as int)
                &&& match entry_text(
                    child.value.opcode,
                    body_at(old(iterator)@, child.padding as int, child.value),
                ) {
                    Err(_) => r == Some(Err::<Option<String>, IonError>(IonError::Decoding)),
                    Ok(text) => r is Some && r->Some_0 is Ok && text_view(r->Some_0->Ok_0) == text,
                }
            },
        },
{
    let ghost before = iterator@;
    match iterator.next() {
        None => None,
        Some(Ok(RawValueExpr::ValueLiteral(child))) => {
            proof {
                let layout = next_child(before)->Ok_0->Some_0;
                lemma_body_at(child, before, layout.padding as int);
            }
            Some(read_entry(&child))
        },
        Some(Ok(RawValueExpr::MacroInvocation(_))) => Some(Err(IonError::Decoding)),
        Some(Err(_)) => Some(Err(IonError::Decoding)),
    }
}

/// Reads the texts that a `symbols` list holds.
#[verifier::rlimit(50)]
pub fn read_symbol_list(value: &LazyRawBinaryValue_1_0<'_>) -> (r: IonResult<Vec<Option<String>>>)
    requires
        value.wf(),
    ensures
        match list_texts(value.spec_body()) {
            Some(texts) => r is Ok && texts_view(r->Ok_0@) == texts,
            None => r == Err::<Vec<Option<String>>, IonError>(IonError::Decoding),
        },
{
    let mut iterator = RawBinarySequenceIterator_1_0::new(value.available_body());
    let mut texts: Vec<Option<String>> = Vec::new();
    let ghost body = value.spec_body();
    assert(texts_view(texts@) + list_texts(body)->Some_0 =~= list_texts(body)->Some_0);
    loop
        invariant
            iterator.wf(),
            body == value.spec_body(),
            match list_texts(iterator@) {
                Some(rest) => list_texts(body) == Some(texts_view(texts@) + rest),
                None => list_texts(body) is None,
            },
        decreases iterator@.len(),
    {
        let ghost before = iterator@;
        let ghost seen = texts_view(texts@);
        proof {
            lemma_list_texts_step(before);
        }
        match next_entry(&mut iterator) {
            None => {
                assert(seen + Seq::<Option<Seq<char>>>::empty() =~= seen);
                return Ok(texts);
            },
            Some(Ok(entry)) => {
                texts.push(entry);
                proof {
                    let layout = next_child(before)->Ok_0->Some_0;
                    let text = text_view(entry);
                    let rest = list_texts(before.skip(layout.consumed() as int));
                    assert(texts_view(texts@) =~= seen.push(text));
                    if rest is Some {
                        assert(seen + (seq![text] + rest->Some_0) =~= seen.push(text)
                            + rest->Some_0);
                    }
                }
            },
            Some(Err(_)) => {
                return Err(IonError::Decoding);
            },
        }
    }
}

/// What one field of a local symbol table asks for.
pub struct FieldDirective {
    pub imports_table: bool,
    pub symbols: Vec<Option<String>>,
}

/// What the field with the given ID and value asks for; `None` when the
/// value is a malformed list of symbols.
pub open spec fn field_directive(field_id: nat, layout: ValueLayout, body: Seq<u8>) -> Option<
    DirectiveView,
> {
    let symbols = if field_id == 7 && layout.ion_type is List && !layout.is_null() {
        list_texts(body)
    } else {
        Some(Seq::empty())
    };
    match symbols {
        None => None,
        Some(symbols) => Some(
            DirectiveView {
                is_append: field_id == 6 && names_symbol_table(layout.opcode, body),
                symbols,
            },
        ),
    }
}

/// Reads what one field of a local symbol table asks for.
pub fn read_field_directive(field_id: usize, value: &LazyRawBinaryValue_1_0<'_>) -> (r: IonResult<
    SymbolTableDirective,
>)
    requires
        value.wf(),
    ensures
        match field_directive(field_id as nat, value.layout(), value.spec_body()) {
            Some(directive) => r is Ok && r->Ok_0.is_append == directive.is_append && texts_view(
                r->Ok_0.symbols@,
            ) == directive.symbols,
            None => r is Err && r->Err_0 == IonError::Decoding,
        },
{
    let mut is_append = false;
    let mut symbols: Vec<Option<String>> = Vec::new();
    if field_id == IMPORTS {
        is_append = is_symbol_table_symbol(value);
        assert(texts_view(symbols@) =~= Seq::<Option<Seq<char>>>::empty());
    } else if field_id == SYMBOLS {
        let is_list = match value.ion_type() {
            IonType::List => true,
            _ => false,
        };
        if is_list && !value.is_null() {
            symbols = read_symbol_list(value)?;
        } else {
            assert(texts_view(symbols@) =~= Seq::<Option<Seq<char>>>::empty());
        }
    } else {
        assert(texts_view(symbols@) =~= Seq::<Option<Seq<char>>>::empty());
    }
    Ok(SymbolTableDirective { is_append, symbols })
}

/// Reads what the next field of a local symbol table asks for. `None` says
/// that no field is left.
#[verifier::rlimit(50)]
pub fn next_field_directive(iterator: &mut RawBinaryStructIterator_1_0<'_>) -> (r: Option<
    IonResult<SymbolTableDirective>,
>)
    requires
        old(iterator).wf(),
    ensures
        final(iterator).wf(),
        match next_field(old(iterator)@) {
            Err(_) => r is Some && r->Some_0 is Err && r->Some_0->Err_0 == IonError::Decoding,
            Ok(None) => r is None,
            Ok(Some(field)) => {
                &&& 1 <= field.consumed() <= old(iterator)@.len()
                &&& final(iterator)@ == old(iterator)@.skip(field.consumed() as int)
                &&& match field_directive(
                    field.field_id,
                    field.value,
                    body_at(
                        old(iterator)@,
                        (field.padding + field.field_id_length) as int,
                        field.value,
                    ),
                ) {
                    None => r is Some && r->Some_0 is Err && r->Some_0->Err_0
                        == IonError::Decoding,
                    Some(directive) => r is Some && r->Some_0 is Ok && r->Some_0->Ok_0.is_append
                        == directive.is_append && texts_view(r->Some_0->Ok_0.symbols@)
                        == directive.symbols,
                }
            },
        },
{
    let ghost before = iterator@;
    match iterator.next() {
        None => None,
        Some(Ok(field)) => {
            let (name, expr) = field.into_pair();
            match expr {
                RawValueExpr::ValueLiteral(field_value) => {
                    proof {
                        let layout = next_field(before)->Ok_0->Some_0;
                        lemma_body_at(field_value, before, layout.padding as int);
                    }
                    Some(read_field_directive(name.field_id(), &field_value))
                },
                RawValueExpr::MacroInvocation(_) => Some(Err(IonError::Decoding)),
            }
        },
        Some(Err(_)) => Some(Err(IonError::Decoding)),
    }
}

/// Reads what the local symbol table `value`, a struct, asks for.
#[verifier::rlimit(50)]
pub fn read_directive(value: &LazyRawBinaryValue_1_0<'_>) -> (r: IonResult<SymbolTableDirective>)
    requires
        value.wf(),
    ensures
        match directive_of(value.spec_body()) {
            Some(directive) => r is Ok && r->Ok_0@ == directive,
            None => r is Err && r->Err_0 == IonError::Decoding,
        },
{
    let mut iterator = RawBinaryStructIterator_1_0::new(value.available_body());
    let mut is_append = false;
    let mut symbols: Vec<Option<String>> = Vec::new();
    let ghost body = value.spec_body();
    assert(texts_view(symbols@) + directive_of(body)->Some_0.symbols =~= directive_of(
        body,
    )->Some_0.symbols);
    loop
        invariant
            iterator.wf(),
            body == value.spec_body(),
            match directive_of(iterator@) {
                Some(rest) => directive_of(body) == Some(
                    DirectiveView {
                        is_append: is_append || rest.is_append,
                        symbols: texts_view(symbols@) + rest.symbols,
                    },
                ),
                None => directive_of(body) is None,
            },
        decreases iterator@.len(),
    {
        let ghost before = iterator@;
        let ghost seen = texts_view(symbols@);
        proof {
            lemma_directive_step(before);
        }
        match next_field_directive(&mut iterator) {
            None => {
                proof {
                    assert(seen + Seq::<Option<Seq<char>>>::empty() =~= seen);
                    let view = (SymbolTableDirective { is_append, symbols })@;
                    assert(view.symbols =~= seen);
                }
                return Ok(SymbolTableDirective { is_append, symbols });
            },
            Some(Ok(field)) => {
                let ghost layout = next_field(before)->Ok_0->Some_0;
                let ghost rest = directive_of(before.skip(layout.consumed() as int));
                let ghost here = texts_view(field.symbols@);
                let ghost added = field.symbols@;
                let ghost old_symbols = symbols@;
                let mut field_symbols = field.symbols;
                symbols.append(&mut field_symbols);
                proof {
                    assert(symbols@ =~= old_symbols + added);
                    assert(texts_view(symbols@) =~= seen + here);
                    if rest is Some {
                        assert(seen + (here + rest->Some_0.symbols) =~= (seen + here)
                            + rest->Some_0.symbols);
                    }
                }
                is_append = is_append || field.is_append;
            },
            Some(Err(_)) => {
                return Err(IonError::Decoding);
            },
        }
    }
}

impl SymbolTable {
    /// Changes the table as `directive` asks: resets it unless the directive
    /// appends, and then adds the directive's symbols in order.
    pub fn apply(&mut self, directive: &SymbolTableDirective)
        requires
            old(self).wf(),
        ensures
            final(self)@ == applied(old(self)@, directive@),
            final(self).wf(),
    {
        if !directive.is_append {
            self.reset();
        }
        let ghost start = self@;
        let ghost symbols = directive@.symbols;
        let mut i: usize = 0;
        while i < directive.symbols.len()
            invariant
                i <= directive.symbols@.len(),
                symbols == directive@.symbols,
                self.wf(),
                self@ == with_symbols(start, symbols.take(i as int)),
            decreases directive.symbols@.len() - i,
        {
            proof {
                assert(symbols.take(i + 1).drop_last() =~= symbols.take(i as int));
                assert(symbols.take(i + 1).last() == symbols[i as int]);
            }
            match &directive.symbols[i] {
                Some(text) => {
                    let _ = self.intern(owned_text(text.as_str()));
                },
                None => {
                    let _ = self.add_placeholder();
                },
            }
            i += 1;
        }
        assert(symbols.take(symbols.len() as int) =~= symbols);
    }
}

} // verus!
