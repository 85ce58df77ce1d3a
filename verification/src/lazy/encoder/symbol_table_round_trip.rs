//! The symbol table that the application writer writes is the symbol table
//! that the reader acts on.

use vstd::prelude::*;
use vstd::utf8::encode_utf8;
use crate::binary::type_descriptor::is_nop_opcode;
use crate::binary::var_uint::{
    lemma_encoded_size_u64,
    lemma_var_uint_bytes_len,
    lemma_var_uint_round_trip,
    var_uint_bytes,
};
use crate::binary::uint::be_bytes;
use crate::lazy::binary::layout::{
    next_child,
    next_field,
    parse_unannotated,
    parse_value,
    ChildLayout,
    FieldLayout,
};
use crate::lazy::binary::raw::annotations_iterator::next_annotation;
use crate::lazy::encoder::application_writer::{symbol_entries, symbol_table_encoding};
use crate::lazy::encoder::binary::encoding::{
    annotations_bytes,
    container_encoding,
    field_encoding,
    null_encoding,
    string_encoding,
    symbol_encoding,
};
use crate::lazy::encoder::binary::round_trip::{
    body_of,
    lemma_annotated_round_trip,
    lemma_be_bytes_u64,
    lemma_container_round_trip,
    lemma_null_round_trip,
    lemma_string_round_trip,
    lemma_symbol_round_trip,
    lemma_value_bytes_parse,
};
use crate::result::ParseFault;
use crate::symbol_table_directive::{
    body_at,
    directive_of,
    entry_text,
    field_directive,
    is_symbol_table,
    lemma_directive_step,
    lemma_list_texts_step,
    list_texts,
    names_symbol_table,
    DirectiveView,
};
use crate::types::IonType;

verus! {

/// The entry of a `symbols` list for one symbol.
pub open spec fn symbol_entry(text: Option<Seq<char>>) -> Seq<u8> {
    match text {
        Some(text) => string_encoding(text),
        None => null_encoding(IonType::String),
    }
}

/// True for the texts whose symbol table can be written and read back:
/// every text, and all entries together, fit in as many bytes as 64 bits
/// count, with room for the headers around them.
pub open spec fn texts_fit(texts: Seq<Option<Seq<char>>>) -> bool {
    &&& forall|i: int|
        0 <= i < texts.len() && texts[i] is Some ==> encode_utf8(
            (#[trigger] texts[i])->Some_0,
        ).len() <= u64::MAX
    &&& symbol_entries(texts).len() + 64 <= u64::MAX
}

/// A value at the front of a list's body that starts no NOP padding is the
/// first entry that is read from it.
proof fn lemma_first_entry(entry: Seq<u8>, tail: Seq<u8>, text: Option<Seq<char>>)
    requires
        entry.len() > 0,
        !is_nop_opcode(entry[0]),
        parse_value(entry + tail) is Ok,
        parse_value(entry + tail)->Ok_0.total_length() == entry.len(),
        entry_text(
            parse_value(entry + tail)->Ok_0.opcode,
            body_of(entry + tail, parse_value(entry + tail)->Ok_0),
        ) == Ok::<Option<Seq<char>>, ()>(text),
        list_texts(tail) is Some,
    ensures
        list_texts(entry + tail) == Some(seq![text] + list_texts(tail)->Some_0),
{
    let s = entry + tail;
    let layout = parse_value(s)->Ok_0;
    assert(s[0] == entry[0]);
    assert(s.skip(0) =~= s);
    assert(next_child(s) == Ok::<Option<ChildLayout>, ParseFault>(
        Some(ChildLayout { padding: 0, value: layout }),
    ));
    assert(body_at(s, 0, layout) =~= body_of(s, layout));
    assert(s.skip(entry.len() as int) =~= tail);
    lemma_list_texts_step(s);
}

/// An entry that was written in front of a list's body is the first text
/// that is read from it.
pub proof fn lemma_entry_read(text: Option<Seq<char>>, tail: Seq<u8>)
    requires
        text is Some ==> encode_utf8(text->Some_0).len() <= u64::MAX,
        list_texts(tail) is Some,
    ensures
        list_texts(symbol_entry(text) + tail) == Some(seq![text] + list_texts(tail)->Some_0),
{
    let entry = symbol_entry(text);
    reveal(entry_text);
    match text {
        Some(t) => {
            lemma_string_round_trip(t, tail);
            lemma_value_bytes_parse(8, encode_utf8(t), tail);
        },
        None => {
            lemma_null_round_trip(IonType::String, tail);
            assert(entry[0] == 0x8F);
        },
    }
    lemma_first_entry(entry, tail, text);
}

/// Reading back the entries that were written for `texts` yields `texts`,
/// and then what reading the rest yields.
pub proof fn lemma_entries_read(texts: Seq<Option<Seq<char>>>, tail: Seq<u8>)
    requires
        forall|i: int|
            0 <= i < texts.len() && texts[i] is Some ==> encode_utf8(
                (#[trigger] texts[i])->Some_0,
            ).len() <= u64::MAX,
        list_texts(tail) is Some,
    ensures
        list_texts(symbol_entries(texts) + tail) == Some(texts + list_texts(tail)->Some_0),
    decreases texts.len(),
{
    if texts.len() == 0 {
        assert(symbol_entries(texts) + tail =~= tail);
        assert(texts + list_texts(tail)->Some_0 =~= list_texts(tail)->Some_0);
    } else {
        let head = texts.drop_last();
        let last = texts.last();
        let longer = symbol_entry(last) + tail;
        assert(texts[texts.len() - 1] == last);
        lemma_entry_read(last, tail);
        assert forall|i: int| 0 <= i < head.len() && head[i] is Some implies encode_utf8(
            (#[trigger] head[i])->Some_0,
        ).len() <= u64::MAX by {
            assert(head[i] == texts[i]);
        }
        lemma_entries_read(head, longer);
        assert(symbol_entries(texts) + tail =~= symbol_entries(head) + longer);
        assert(head + (seq![last] + list_texts(tail)->Some_0) =~= texts + list_texts(
            tail,
        )->Some_0);
    }
}

/// The fields of the symbol table that is written for `texts`.
pub open spec fn symbol_table_fields(texts: Seq<Option<Seq<char>>>) -> Seq<u8> {
    field_encoding(6, symbol_encoding(3)) + field_encoding(
        7,
        container_encoding(11, symbol_entries(texts)),
    )
}

/// A container takes at most eleven bytes more than its children.
proof fn lemma_container_length(type_code: u8, body: Seq<u8>)
    requires
        body.len() <= u64::MAX,
    ensures
        body.len() + 1 <= container_encoding(type_code, body).len() <= body.len() + 11,
{
    lemma_var_uint_bytes_len(body.len());
    lemma_encoded_size_u64(body.len() as u64);
}

/// What the first field of a struct's body asks for, and what is left to
/// read after it, where the field was written with a value that starts no
/// NOP padding.
proof fn lemma_first_field(field_id: usize, value: Seq<u8>, rest: Seq<u8>)
    requires
        value.len() > 0,
        !is_nop_opcode(value[0]),
        parse_value(value + rest) is Ok,
        parse_value(value + rest)->Ok_0.total_length() == value.len(),
        field_directive(
            field_id as nat,
            parse_value(value + rest)->Ok_0,
            body_of(value + rest, parse_value(value + rest)->Ok_0),
        ) is Some,
        directive_of(rest) is Some,
    ensures
        directive_of(field_encoding(field_id as nat, value) + rest) == Some(
            DirectiveView {
                is_append: field_directive(
                    field_id as nat,
                    parse_value(value + rest)->Ok_0,
                    body_of(value + rest, parse_value(value + rest)->Ok_0),
                )->Some_0.is_append || directive_of(rest)->Some_0.is_append,
                symbols: field_directive(
                    field_id as nat,
                    parse_value(value + rest)->Ok_0,
                    body_of(value + rest, parse_value(value + rest)->Ok_0),
                )->Some_0.symbols + directive_of(rest)->Some_0.symbols,
            },
        ),
{
    let name = var_uint_bytes(field_id as nat);
    let s = field_encoding(field_id as nat, value) + rest;
    let layout = parse_value(value + rest)->Ok_0;
    lemma_var_uint_round_trip(field_id as u64, value + rest);
    lemma_var_uint_bytes_len(field_id as nat);
    lemma_encoded_size_u64(field_id as u64);
    assert(s =~= name + (value + rest));
    assert(s.skip(name.len() as int) =~= value + rest);
    assert(s[name.len() as int] == value[0]);
    assert(s.skip((name.len() + value.len()) as int) =~= rest);
    assert(body_at(s, name.len() as int, layout) =~= body_of(value + rest, layout));
    assert(next_field(s) == Ok::<Option<FieldLayout>, ParseFault>(
        Some(
            FieldLayout {
                padding: 0,
                field_id: field_id as nat,
                field_id_length: name.len(),
                value: layout,
            },
        ),
    ));
    lemma_directive_step(s);
}

/// What the field `symbols` of a written symbol table asks for: that
/// `texts` be added.
proof fn lemma_symbols_field(texts: Seq<Option<Seq<char>>>)
    requires
        texts_fit(texts),
    ensures
        directive_of(field_encoding(7, container_encoding(11, symbol_entries(texts)))) == Some(
            DirectiveView { is_append: false, symbols: texts },
        ),
{
    let entries = symbol_entries(texts);
    let list = container_encoding(11, entries);
    let nothing = Seq::<u8>::empty();
    let none = Seq::<Option<Seq<char>>>::empty();
    lemma_directive_step(nothing);
    lemma_list_texts_step(nothing);
    lemma_entries_read(texts, nothing);
    assert(entries + nothing =~= entries);
    assert(texts + none =~= texts);
    assert(list_texts(entries) == Some(texts));
    lemma_container_round_trip(11, entries, nothing);
    lemma_value_bytes_parse(11, entries, nothing);
    lemma_first_field(7, list, nothing);
    assert(field_encoding(7, list) + nothing =~= field_encoding(7, list));
}

/// What the fields of a written symbol table ask for: that `texts` be
/// appended.
pub proof fn lemma_fields_ask_to_append(texts: Seq<Option<Seq<char>>>)
    requires
        texts_fit(texts),
    ensures
        directive_of(symbol_table_fields(texts)) == Some(
            DirectiveView { is_append: true, symbols: texts },
        ),
        3 <= symbol_table_fields(texts).len() <= symbol_entries(texts).len() + 24,
{
    let second = field_encoding(7, container_encoding(11, symbol_entries(texts)));
    let imports = symbol_encoding(3);
    let none = Seq::<Option<Seq<char>>>::empty();
    lemma_symbols_field(texts);
    lemma_container_length(11, symbol_entries(texts));
    lemma_var_uint_bytes_len(7);
    lemma_encoded_size_u64(7);
    lemma_var_uint_bytes_len(6);
    lemma_encoded_size_u64(6);
    lemma_symbol_round_trip(3, second);
    lemma_be_bytes_u64(3);
    lemma_value_bytes_parse(7, be_bytes(3), second);
    reveal(names_symbol_table);
    lemma_first_field(6, imports, second);
    assert(none + texts =~= texts);
}

/// The reader finds the symbol table that was written for `texts` at the
/// front of any input that starts with it, takes it for a symbol table, and
/// reads from it that `texts` are to be appended.
pub proof fn lemma_symbol_table_round_trip(texts: Seq<Option<Seq<char>>>, rest: Seq<u8>)
    requires
        texts_fit(texts),
    ensures
        parse_value(symbol_table_encoding(texts) + rest) is Ok,
        ({
            let s = symbol_table_encoding(texts) + rest;
            let layout = parse_value(s)->Ok_0;
            let annotations_end = layout.annotations_header_length as int;
            &&& layout.total_length() == symbol_table_encoding(texts).len()
            &&& is_symbol_table(
                layout,
                s.subrange(annotations_end - layout.annotations_sequence_length, annotations_end),
            )
            &&& directive_of(body_of(s, layout)) == Some(
                DirectiveView { is_append: true, symbols: texts },
            )
        }),
{
    let fields = symbol_table_fields(texts);
    let table = container_encoding(13, fields);
    let ids = seq![3nat];
    let s = symbol_table_encoding(texts) + rest;
    lemma_fields_ask_to_append(texts);
    lemma_container_length(13, fields);
    lemma_container_round_trip(13, fields, rest);
    lemma_value_bytes_parse(13, fields, rest);
    let inner = parse_unannotated(table + rest)->Ok_0;
    lemma_one_annotation();
    lemma_annotated_round_trip(ids, table, rest);
    let layout = parse_value(s)->Ok_0;
    assert(body_of(s, layout) =~= body_of(table + rest, inner));
}

/// The annotations of a symbol table are the one symbol ID 3, in one byte.
proof fn lemma_one_annotation()
    ensures
        annotations_bytes(seq![3nat]) == var_uint_bytes(3),
        var_uint_bytes(3).len() == 1,
        next_annotation(var_uint_bytes(3)) is Some,
        next_annotation(var_uint_bytes(3))->Some_0.0 == 3,
{
    let ids = seq![3nat];
    reveal_with_fuel(annotations_bytes, 2);
    assert(ids.drop_last() =~= Seq::<nat>::empty());
    assert(annotations_bytes(ids) =~= var_uint_bytes(3));
    lemma_var_uint_bytes_len(3);
    lemma_encoded_size_u64(3);
    lemma_var_uint_round_trip(3, Seq::<u8>::empty());
    assert(var_uint_bytes(3) + Seq::<u8>::empty() =~= var_uint_bytes(3));
}

} // verus!
