//! What the writer writes, the reader reads back.
//!
//! The lemmas of this module say, for each kind of value, that the parser
//! finds the value's encoding at the front of any input that starts with it,
//! with the header and the body where the writer put them, and that decoding
//! the body yields the value that was written.

use vstd::prelude::*;
use vstd::utf8::{encode_utf8, encode_utf8_decode_utf8, encode_utf8_valid_utf8};
use crate::binary::type_descriptor::{ion_type_of, is_annotation_opcode, is_nop_opcode};
use crate::binary::uint::{be_bytes, be_nat, lemma_be_bytes, lemma_pow256_values, pow256};
use crate::binary::var_uint::{
    encoded_size,
    lemma_encoded_size_u64,
    lemma_var_uint_bytes_len,
    lemma_var_uint_round_trip,
    var_uint_bytes,
};
use crate::binary::decimal::{decimal_body, lemma_decimal_body_round_trip, DecimalView};
use crate::binary::timestamp::{
    is_writable,
    lemma_timestamp_body_round_trip,
    timestamp_body,
    TimestampView,
};
use crate::binary::var_int::MAGNITUDE_LIMIT;
use crate::lazy::encoder::binary::writer::ivm_bytes;
use crate::lazy::binary::layout::{
    children,
    fields,
    next_item,
    nop_padding,
    FieldLayout,
    ItemLayout,
    parse_annotated,
    parse_length,
    parse_unannotated,
    parse_value,
    parse_wrapper,
    ChildLayout,
    ValueLayout,
    WrapperLayout,
};
use crate::lazy::binary::raw::annotations_iterator::{annotation_ids, lemma_annotation_first};
use crate::lazy::binary::raw::value::decode_body;
use crate::lazy::encoder::binary::encoding::{
    annotated_encoding,
    annotations_bytes,
    be_fixed,
    blob_encoding,
    bool_encoding,
    clob_encoding,
    container_encoding,
    decimal_encoding,
    field_encoding,
    timestamp_encoding,
    float32_encoding,
    float64_encoding,
    header_bytes,
    ids_of,
    int_encoding,
    null_encoding,
    string_encoding,
    symbol_encoding,
    value_bytes,
};
use crate::lazy::raw_value_ref::RawValueView;
use crate::raw_symbol_token::RawSymbolTokenView;
use crate::result::ParseFault;
use crate::types::integer::FloatBits;
use crate::types::IonType;

verus! {

/// The layout of a value without annotations whose header is
/// `header_bytes(type_code, length)`.
pub open spec fn written_layout(type_code: u8, length: nat) -> ValueLayout {
    let opcode = header_bytes(type_code, length)[0];
    ValueLayout {
        opcode,
        ion_type: ion_type_of(opcode)->Some_0,
        annotations_header_length: 0,
        annotations_sequence_length: 0,
        length_length: (header_bytes(type_code, length).len() - 1) as nat,
        value_length: length,
    }
}

/// The body of the value with layout `layout` at the front of `s`.
pub open spec fn body_of(s: Seq<u8>, layout: ValueLayout) -> Seq<u8> {
    s.subrange(
        (layout.annotations_header_length + layout.header_length()) as int,
        layout.total_length() as int,
    )
}

/// The parser finds a value of type code `type_code` with body `body` at the
/// front of any input that starts with `value_bytes(type_code, body)`, and
/// finds the body where it was put.
///
/// This holds for the type codes of integers, decimals, timestamps, symbols,
/// strings, lobs and containers, for a body whose length 64 bits hold. A
/// timestamp has at least two bytes, and a struct never exactly one.
#[verifier::rlimit(50)]
pub proof fn lemma_value_bytes_parse(type_code: u8, body: Seq<u8>, rest: Seq<u8>)
    requires
        2 <= type_code <= 13,
        type_code != 4,
        body.len() <= u64::MAX,
        type_code == 6 ==> body.len() >= 2,
        type_code == 13 ==> body.len() != 1,
    ensures
        parse_unannotated(value_bytes(type_code, body) + rest) == Ok::<ValueLayout, ParseFault>(
            written_layout(type_code, body.len()),
        ),
        parse_value(value_bytes(type_code, body) + rest) == Ok::<ValueLayout, ParseFault>(
            written_layout(type_code, body.len()),
        ),
        written_layout(type_code, body.len()).total_length() == value_bytes(type_code, body).len(),
        body_of(value_bytes(type_code, body) + rest, written_layout(type_code, body.len()))
            == body,
        written_layout(type_code, body.len()).opcode / 16 == type_code,
        written_layout(type_code, body.len()).opcode % 16 != 15,
        !is_nop_opcode(written_layout(type_code, body.len()).opcode),
        !is_annotation_opcode(written_layout(type_code, body.len()).opcode),
        (value_bytes(type_code, body) + rest)[0] == written_layout(type_code, body.len()).opcode,
{
    let length = body.len();
    let header = header_bytes(type_code, length);
    let s = value_bytes(type_code, body) + rest;
    let layout = written_layout(type_code, length);
    if length <= 13 {
        assert(s[0] == (type_code * 16 + length) as u8);
        assert(s.skip(1) =~= body + rest);
        assert(body_of(s, layout) =~= body);
    } else {
        lemma_var_uint_round_trip(length as u64, body + rest);
        lemma_var_uint_bytes_len(length);
        lemma_encoded_size_u64(length as u64);
        assert(s[0] == (type_code * 16 + 14) as u8);
        assert(s.skip(1) =~= var_uint_bytes(length) + (body + rest));
        assert(body_of(s, layout) =~= body);
    }
}

/// Reading back a null that was written yields the null.
pub proof fn lemma_null_round_trip(ion_type: IonType, rest: Seq<u8>)
    ensures
        parse_value(null_encoding(ion_type) + rest) is Ok,
        parse_value(null_encoding(ion_type) + rest)->Ok_0.total_length() == 1,
        decode_body(
            parse_value(null_encoding(ion_type) + rest)->Ok_0.opcode,
            body_of(
                null_encoding(ion_type) + rest,
                parse_value(null_encoding(ion_type) + rest)->Ok_0,
            ),
        ) == Some(RawValueView::Null(ion_type)),
{
    let s = null_encoding(ion_type) + rest;
    assert(s[0] == (ion_type.spec_type_code() * 16 + 15) as u8);
    assert(s.skip(1) =~= rest);
}

/// Reading back a boolean that was written yields the boolean.
pub proof fn lemma_bool_round_trip(value: bool, rest: Seq<u8>)
    ensures
        parse_value(bool_encoding(value) + rest) is Ok,
        parse_value(bool_encoding(value) + rest)->Ok_0.total_length() == 1,
        decode_body(
            parse_value(bool_encoding(value) + rest)->Ok_0.opcode,
            body_of(bool_encoding(value) + rest, parse_value(bool_encoding(value) + rest)->Ok_0),
        ) == Some(RawValueView::Bool(value)),
{
    let s = bool_encoding(value) + rest;
    assert(s[0] == if value {
        0x11u8
    } else {
        0x10u8
    });
    assert(s.skip(1) =~= rest);
}

/// The shortest spelling of a number that 64 bits hold has at most eight
/// bytes.
pub proof fn lemma_be_bytes_u64(v: u64)
    ensures
        be_bytes(v as nat).len() <= 8,
{
    let n = v as nat;
    let n1 = n / 256;
    let n2 = n1 / 256;
    let n3 = n2 / 256;
    let n4 = n3 / 256;
    let n5 = n4 / 256;
    let n6 = n5 / 256;
    let n7 = n6 / 256;
    let n8 = n7 / 256;
    assert(n8 == 0);
    reveal_with_fuel(be_bytes, 10);
}

/// Reading back an integer that was written yields the integer.
///
/// The magnitude has to fit in as many bytes as 64 bits count.
pub proof fn lemma_int_round_trip(value: int, rest: Seq<u8>)
    requires
        be_bytes(vstd::math::abs(value)).len() <= u64::MAX,
    ensures
        parse_value(int_encoding(value) + rest) is Ok,
        parse_value(int_encoding(value) + rest)->Ok_0.total_length() == int_encoding(value).len(),
        decode_body(
            parse_value(int_encoding(value) + rest)->Ok_0.opcode,
            body_of(int_encoding(value) + rest, parse_value(int_encoding(value) + rest)->Ok_0),
        ) == Some(RawValueView::Int(value)),
{
    let magnitude = vstd::math::abs(value);
    let body = be_bytes(magnitude);
    let type_code: u8 = if value < 0 {
        3
    } else {
        2
    };
    lemma_value_bytes_parse(type_code, body, rest);
    lemma_be_bytes(magnitude);
}

/// Reading back a symbol that was written yields its symbol ID.
pub proof fn lemma_symbol_round_trip(symbol_id: usize, rest: Seq<u8>)
    ensures
        parse_value(symbol_encoding(symbol_id as nat) + rest) is Ok,
        parse_value(symbol_encoding(symbol_id as nat) + rest)->Ok_0.total_length()
            == symbol_encoding(symbol_id as nat).len(),
        decode_body(
            parse_value(symbol_encoding(symbol_id as nat) + rest)->Ok_0.opcode,
            body_of(
                symbol_encoding(symbol_id as nat) + rest,
                parse_value(symbol_encoding(symbol_id as nat) + rest)->Ok_0,
            ),
        ) == Some(RawValueView::Symbol(RawSymbolTokenView::SymbolId(symbol_id as nat))),
{
    let body = be_bytes(symbol_id as nat);
    lemma_be_bytes_u64(symbol_id as u64);
    lemma_value_bytes_parse(7, body, rest);
    lemma_be_bytes(symbol_id as nat);
}

/// Reading back a string that was written yields its text.
///
/// The text has to fit in as many bytes as 64 bits count.
pub proof fn lemma_string_round_trip(text: Seq<char>, rest: Seq<u8>)
    requires
        encode_utf8(text).len() <= u64::MAX,
    ensures
        parse_value(string_encoding(text) + rest) is Ok,
        parse_value(string_encoding(text) + rest)->Ok_0.total_length() == string_encoding(
            text,
        ).len(),
        decode_body(
            parse_value(string_encoding(text) + rest)->Ok_0.opcode,
            body_of(
                string_encoding(text) + rest,
                parse_value(string_encoding(text) + rest)->Ok_0,
            ),
        ) == Some(RawValueView::String(text)),
{
    lemma_value_bytes_parse(8, encode_utf8(text), rest);
    encode_utf8_valid_utf8(text);
    encode_utf8_decode_utf8(text);
}

/// Reading back a clob that was written yields its bytes.
pub proof fn lemma_clob_round_trip(bytes: Seq<u8>, rest: Seq<u8>)
    requires
        bytes.len() <= u64::MAX,
    ensures
        parse_value(clob_encoding(bytes) + rest) is Ok,
        parse_value(clob_encoding(bytes) + rest)->Ok_0.total_length() == clob_encoding(
            bytes,
        ).len(),
        decode_body(
            parse_value(clob_encoding(bytes) + rest)->Ok_0.opcode,
            body_of(clob_encoding(bytes) + rest, parse_value(clob_encoding(bytes) + rest)->Ok_0),
        ) == Some(RawValueView::Clob(bytes)),
{
    lemma_value_bytes_parse(9, bytes, rest);
}

/// Reading back a blob that was written yields its bytes.
pub proof fn lemma_blob_round_trip(bytes: Seq<u8>, rest: Seq<u8>)
    requires
        bytes.len() <= u64::MAX,
    ensures
        parse_value(blob_encoding(bytes) + rest) is Ok,
        parse_value(blob_encoding(bytes) + rest)->Ok_0.total_length() == blob_encoding(
            bytes,
        ).len(),
        decode_body(
            parse_value(blob_encoding(bytes) + rest)->Ok_0.opcode,
            body_of(blob_encoding(bytes) + rest, parse_value(blob_encoding(bytes) + rest)->Ok_0),
        ) == Some(RawValueView::Blob(bytes)),
{
    lemma_value_bytes_parse(10, bytes, rest);
}

/// `n` big-endian bytes spell the number they were made of, when it is below
/// 256 to the `n`.
pub proof fn lemma_be_fixed(v: nat, n: nat)
    requires
        v < pow256(n),
    ensures
        be_fixed(v, n).len() == n,
        be_nat(be_fixed(v, n)) == v,
    decreases n,
{
    if n > 0 {
        assert(pow256(n) == 256 * pow256((n - 1) as nat));
        lemma_be_fixed(v / 256, (n - 1) as nat);
        assert(be_fixed(v, n).drop_last() =~= be_fixed(v / 256, (n - 1) as nat));
    }
}

/// The number that the bits of a float stand for when they are read back:
/// positive zero of either precision is written without a body, and read as a
/// double.
pub open spec fn float_read_back(bits: FloatBits) -> FloatBits {
    match bits {
        FloatBits::Single(b) => if b == 0 {
            FloatBits::Double(0)
        } else {
            bits
        },
        FloatBits::Double(_) => bits,
    }
}

/// Reading back a single-precision float that was written yields its bits;
/// positive zero comes back as the positive zero of double precision.
pub proof fn lemma_float32_round_trip(bits: u32, rest: Seq<u8>)
    ensures
        parse_value(float32_encoding(bits) + rest) is Ok,
        parse_value(float32_encoding(bits) + rest)->Ok_0.total_length() == float32_encoding(
            bits,
        ).len(),
        decode_body(
            parse_value(float32_encoding(bits) + rest)->Ok_0.opcode,
            body_of(
                float32_encoding(bits) + rest,
                parse_value(float32_encoding(bits) + rest)->Ok_0,
            ),
        ) == Some(RawValueView::Float(float_read_back(FloatBits::Single(bits)))),
{
    let s = float32_encoding(bits) + rest;
    lemma_pow256_values();
    if bits == 0 {
        assert(s[0] == 0x40);
        assert(s.skip(1) =~= rest);
        let layout = parse_value(s)->Ok_0;
        assert(body_of(s, layout) =~= Seq::<u8>::empty());
    } else {
        lemma_be_fixed(bits as nat, 4);
        let body = be_fixed(bits as nat, 4);
        assert(s[0] == 0x44);
        assert(s.skip(1) =~= body + rest);
        let layout = parse_value(s)->Ok_0;
        assert(body_of(s, layout) =~= body);
    }
}

/// Reading back a double-precision float that was written yields its bits.
pub proof fn lemma_float64_round_trip(bits: u64, rest: Seq<u8>)
    ensures
        parse_value(float64_encoding(bits) + rest) is Ok,
        parse_value(float64_encoding(bits) + rest)->Ok_0.total_length() == float64_encoding(
            bits,
        ).len(),
        decode_body(
            parse_value(float64_encoding(bits) + rest)->Ok_0.opcode,
            body_of(
                float64_encoding(bits) + rest,
                parse_value(float64_encoding(bits) + rest)->Ok_0,
            ),
        ) == Some(RawValueView::Float(FloatBits::Double(bits))),
{
    let s = float64_encoding(bits) + rest;
    lemma_pow256_values();
    if bits == 0 {
        assert(s[0] == 0x40);
        assert(s.skip(1) =~= rest);
        let layout = parse_value(s)->Ok_0;
        assert(body_of(s, layout) =~= Seq::<u8>::empty());
    } else {
        lemma_be_fixed(bits as nat, 8);
        let body = be_fixed(bits as nat, 8);
        assert(s[0] == 0x48);
        assert(s.skip(1) =~= body + rest);
        let layout = parse_value(s)->Ok_0;
        assert(body_of(s, layout) =~= body);
    }
}

/// The parser finds a container with the children `body` at the front of any
/// input that starts with `container_encoding(type_code, body)`, and finds the
/// children where they were put.
///
/// This leaves out a struct whose body is one byte. No fields make such a
/// body, and its header is read as that of a struct with ordered fields.
pub proof fn lemma_container_round_trip(type_code: u8, body: Seq<u8>, rest: Seq<u8>)
    requires
        11 <= type_code <= 13,
        body.len() <= u64::MAX,
        type_code == 13 ==> body.len() != 1,
    ensures
        parse_value(container_encoding(type_code, body) + rest) is Ok,
        parse_value(container_encoding(type_code, body) + rest)->Ok_0.total_length()
            == container_encoding(type_code, body).len(),
        parse_value(container_encoding(type_code, body) + rest)->Ok_0.ion_type == if type_code
            == 11 {
            IonType::List
        } else if type_code == 12 {
            IonType::SExp
        } else {
            IonType::Struct
        },
        !parse_value(container_encoding(type_code, body) + rest)->Ok_0.is_null(),
        body_of(
            container_encoding(type_code, body) + rest,
            parse_value(container_encoding(type_code, body) + rest)->Ok_0,
        ) == body,
{
    lemma_value_bytes_parse(type_code, body, rest);
}

/// A value at the front of a sequence's body that starts no NOP padding is
/// the first child, and the children that follow it are those of the rest of
/// the body.
#[verifier::rlimit(50)]
pub proof fn lemma_children_of_concatenation(first: Seq<u8>, rest: Seq<u8>)
    requires
        first.len() > 0,
        !is_nop_opcode(first[0]),
        parse_value(first + rest) is Ok,
        parse_value(first + rest)->Ok_0.total_length() == first.len(),
        children(rest) is Ok,
    ensures
        children(first + rest) == Ok::<Seq<ChildLayout>, ParseFault>(
            seq![ChildLayout { padding: 0, value: parse_value(first + rest)->Ok_0 }] + children(
                rest,
            )->Ok_0,
        ),
{
    let s = first + rest;
    assert(s[0] == first[0]);
    assert(nop_padding(s) == Ok::<nat, ParseFault>(0));
    assert(s.skip(0) =~= s);
    assert(s.skip(first.len() as int) =~= rest);
}

/// The layout of the wrapper that `annotated_encoding` writes around a
/// value of `value_length` bytes with `sequence_length` bytes of annotations.
pub open spec fn written_wrapper(sequence_length: nat, value_length: nat) -> WrapperLayout {
    let inner = encoded_size(sequence_length) + sequence_length + value_length;
    WrapperLayout {
        declared_length: inner,
        declared_length_size: if inner <= 13 {
            0
        } else {
            encoded_size(inner)
        },
        sequence_length,
        sequence_length_size: encoded_size(sequence_length),
    }
}

/// The parser finds the wrapper that was written around a value, and behind
/// it the annotations and the value.
#[verifier::rlimit(50)]
pub proof fn lemma_wrapper_round_trip(sequence: Seq<u8>, value: Seq<u8>, rest: Seq<u8>)
    requires
        sequence.len() > 0,
        value.len() > 0,
        sequence.len() + value.len() + 10 <= u64::MAX,
    ensures
        ({
            let inner = var_uint_bytes(sequence.len()) + sequence + value;
            let s = header_bytes(14, inner.len()) + inner + rest;
            let wrapper = written_wrapper(sequence.len(), value.len());
            &&& parse_wrapper(s) == Ok::<WrapperLayout, ParseFault>(wrapper)
            &&& wrapper.header_length() + value.len() == (header_bytes(14, inner.len())
                + inner).len()
            &&& wrapper.expected_value_length() == value.len()
            &&& s.skip(wrapper.header_length() as int) == value + rest
            &&& s.subrange(
                wrapper.header_length() - sequence.len(),
                wrapper.header_length() as int,
            ) == sequence
            &&& is_annotation_opcode(s[0])
        }),
{
    let length_field = var_uint_bytes(sequence.len());
    let inner = length_field + sequence + value;
    let s = header_bytes(14, inner.len()) + inner + rest;
    let wrapper = written_wrapper(sequence.len(), value.len());
    lemma_var_uint_bytes_len(sequence.len());
    lemma_encoded_size_u64(sequence.len() as u64);
    lemma_var_uint_round_trip(sequence.len() as u64, sequence + value + rest);
    let declared_size = wrapper.declared_length_size;
    if inner.len() <= 13 {
        assert(s[0] == (14 * 16 + inner.len()) as u8);
        assert(s.skip(1) =~= length_field + (sequence + value + rest));
    } else {
        lemma_var_uint_round_trip(inner.len() as u64, inner + rest);
        lemma_var_uint_bytes_len(inner.len());
        lemma_encoded_size_u64(inner.len() as u64);
        assert(s[0] == (14 * 16 + 14) as u8);
        assert(s.skip(1) =~= var_uint_bytes(inner.len()) + (inner + rest));
    }
    assert(parse_length(s.skip(1), s[0] % 16) == Ok::<(nat, nat), ParseFault>(
        (inner.len(), declared_size),
    ));
    assert(s.skip(1 + declared_size as int) =~= length_field + (sequence + value + rest));
    let start = wrapper.header_length() as int;
    assert(s.skip(start) =~= value + rest);
    assert(s.subrange(start - sequence.len(), start) =~= sequence);
}

/// The parser finds an annotated value at the front of any input that starts
/// with `annotated_encoding(ids, value)`, when it finds a value without
/// annotations in `value`: the annotations as they were written, and the value
/// behind them.
#[verifier::rlimit(50)]
pub proof fn lemma_annotated_round_trip(ids: Seq<nat>, value: Seq<u8>, rest: Seq<u8>)
    requires
        ids.len() > 0,
        value.len() > 0,
        !is_nop_opcode(value[0]),
        !is_annotation_opcode(value[0]),
        parse_unannotated(value + rest) is Ok,
        parse_unannotated(value + rest)->Ok_0.total_length() == value.len(),
        annotations_bytes(ids).len() > 0,
        annotations_bytes(ids).len() + value.len() + 10 <= u64::MAX,
    ensures
        parse_value(annotated_encoding(ids, value) + rest) is Ok,
        parse_value(annotated_encoding(ids, value) + rest)->Ok_0.total_length()
            == annotated_encoding(ids, value).len(),
        parse_value(annotated_encoding(ids, value) + rest)->Ok_0.annotations_sequence_length
            == annotations_bytes(ids).len(),
        parse_value(annotated_encoding(ids, value) + rest)->Ok_0.opcode == value[0],
        parse_value(annotated_encoding(ids, value) + rest)->Ok_0.value_length
            == parse_unannotated(value + rest)->Ok_0.value_length,
        (annotated_encoding(ids, value) + rest).subrange(
            parse_value(annotated_encoding(ids, value) + rest)->Ok_0.annotations_header_length
                - annotations_bytes(ids).len(),
            parse_value(
                annotated_encoding(ids, value) + rest,
            )->Ok_0.annotations_header_length as int,
        ) == annotations_bytes(ids),
        (annotated_encoding(ids, value) + rest).skip(
            parse_value(
                annotated_encoding(ids, value) + rest,
            )->Ok_0.annotations_header_length as int,
        ) == value + rest,
        parse_value(annotated_encoding(ids, value) + rest)->Ok_0.length_length
            == parse_unannotated(value + rest)->Ok_0.length_length,
        parse_value(annotated_encoding(ids, value) + rest)->Ok_0.ion_type == parse_unannotated(
            value + rest,
        )->Ok_0.ion_type,
{
    let sequence = annotations_bytes(ids);
    let inner = var_uint_bytes(sequence.len()) + sequence + value;
    let s = annotated_encoding(ids, value) + rest;
    lemma_wrapper_round_trip(sequence, value, rest);
    assert(s =~= header_bytes(14, inner.len()) + inner + rest);
    let wrapper = written_wrapper(sequence.len(), value.len());
    let start = wrapper.header_length() as int;
    assert(s[start] == (value + rest)[0]);
    assert((value + rest)[0] == value[0]);
    let inner_layout = parse_unannotated(value + rest)->Ok_0;
    assert(inner_layout.opcode == value[0]);
    assert(parse_annotated(s) is Ok);
}

/// Reading back a decimal that was written yields the decimal.
///
/// The exponent has a magnitude below 2 to the 62, and the body fits in as
/// many bytes as 64 bits count.
pub proof fn lemma_decimal_round_trip(decimal: DecimalView, rest: Seq<u8>)
    requires
        vstd::math::abs(decimal.exponent) < MAGNITUDE_LIMIT,
        decimal_body(decimal).len() <= u64::MAX,
    ensures
        parse_value(decimal_encoding(decimal) + rest) is Ok,
        parse_value(decimal_encoding(decimal) + rest)->Ok_0.total_length() == decimal_encoding(
            decimal,
        ).len(),
        decode_body(
            parse_value(decimal_encoding(decimal) + rest)->Ok_0.opcode,
            body_of(
                decimal_encoding(decimal) + rest,
                parse_value(decimal_encoding(decimal) + rest)->Ok_0,
            ),
        ) == Some(RawValueView::Decimal(decimal)),
{
    lemma_value_bytes_parse(5, decimal_body(decimal), rest);
    lemma_decimal_body_round_trip(decimal);
}

/// Reading back a timestamp that was written yields the timestamp.
pub proof fn lemma_timestamp_round_trip(timestamp: TimestampView, rest: Seq<u8>)
    requires
        is_writable(timestamp),
        timestamp_body(timestamp).len() <= u64::MAX,
    ensures
        parse_value(timestamp_encoding(timestamp) + rest) is Ok,
        parse_value(timestamp_encoding(timestamp) + rest)->Ok_0.total_length()
            == timestamp_encoding(timestamp).len(),
        decode_body(
            parse_value(timestamp_encoding(timestamp) + rest)->Ok_0.opcode,
            body_of(
                timestamp_encoding(timestamp) + rest,
                parse_value(timestamp_encoding(timestamp) + rest)->Ok_0,
            ),
        ) == Some(RawValueView::Timestamp(timestamp)),
{
    lemma_timestamp_body_round_trip(timestamp);
    lemma_value_bytes_parse(6, timestamp_body(timestamp), rest);
}

/// A field at the front of a struct's body whose value starts no NOP padding
/// is the first field, and the fields that follow it are those of the rest of
/// the body.
#[verifier::rlimit(50)]
pub proof fn lemma_fields_of_concatenation(field_id: usize, value: Seq<u8>, rest: Seq<u8>)
    requires
        value.len() > 0,
        !is_nop_opcode(value[0]),
        parse_value(value + rest) is Ok,
        parse_value(value + rest)->Ok_0.total_length() == value.len(),
        fields(rest) is Ok,
    ensures
        fields(field_encoding(field_id as nat, value) + rest) == Ok::<
            Seq<FieldLayout>,
            ParseFault,
        >(
            seq![
                FieldLayout {
                    padding: 0,
                    field_id: field_id as nat,
                    field_id_length: encoded_size(field_id as nat),
                    value: parse_value(value + rest)->Ok_0,
                },
            ] + fields(rest)->Ok_0,
        ),
{
    let name = var_uint_bytes(field_id as nat);
    let s = field_encoding(field_id as nat, value) + rest;
    lemma_var_uint_round_trip(field_id as u64, value + rest);
    lemma_var_uint_bytes_len(field_id as nat);
    lemma_encoded_size_u64(field_id as u64);
    assert(s =~= name + (value + rest));
    assert(s.skip(name.len() as int) =~= value + rest);
    assert(s[name.len() as int] == value[0]);
    assert(s.skip((name.len() + value.len()) as int) =~= rest);
}

/// A value that was written at the top level, and that starts neither NOP
/// padding nor a version marker, is the next item of the stream.
pub proof fn lemma_item_of_concatenation(value: Seq<u8>, rest: Seq<u8>)
    requires
        value.len() > 0,
        !is_nop_opcode(value[0]),
        value[0] != 0xE0,
        parse_value(value + rest) is Ok,
    ensures
        next_item(value + rest) == Ok::<ItemLayout, ParseFault>(
            ItemLayout::Value(ChildLayout { padding: 0, value: parse_value(value + rest)->Ok_0 }),
        ),
{
    let s = value + rest;
    assert(s[0] == value[0]);
    assert(s.skip(0) =~= s);
}

/// The version marker that starts what the writer writes is the first item
/// of the stream.
pub proof fn lemma_version_marker_is_read(rest: Seq<u8>)
    ensures
        next_item(ivm_bytes() + rest) == Ok::<ItemLayout, ParseFault>(
            ItemLayout::VersionMarker { padding: 0, major: 1, minor: 0 },
        ),
{
    let s = ivm_bytes() + rest;
    assert(s[0] == 0xE0);
    assert(s[1] == 1 && s[2] == 0 && s[3] == 0xEA);
}

/// Reading back annotations that were written, and what was written behind
/// them, yields the annotations, and then what reading the rest yields.
pub proof fn lemma_annotations_round_trip(ids: Seq<usize>, rest: Seq<u8>)
    requires
        annotation_ids(rest) is Some,
    ensures
        annotation_ids(annotations_bytes(ids_of(ids)) + rest) == Some(
            ids_of(ids) + annotation_ids(rest)->Some_0,
        ),
    decreases ids.len(),
{
    let all = ids_of(ids);
    if ids.len() == 0 {
        assert(annotations_bytes(all) + rest =~= rest);
        assert(all + annotation_ids(rest)->Some_0 =~= annotation_ids(rest)->Some_0);
    } else {
        let head = ids.drop_last();
        let last = ids.last();
        let tail = var_uint_bytes(last as nat) + rest;
        assert(ids_of(head) =~= all.drop_last());
        assert(all.last() == last as nat);
        lemma_annotation_first(last, rest);
        lemma_annotations_round_trip(head, tail);
        assert(annotations_bytes(all) + rest =~= annotations_bytes(ids_of(head)) + tail);
        assert(ids_of(head) + (seq![last as nat] + annotation_ids(rest)->Some_0) =~= all
            + annotation_ids(rest)->Some_0);
    }
}

} // verus!
