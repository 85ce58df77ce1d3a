//! The bytes of each kind of Ion 1.0 value, and the functions that produce
//! them.
//!
//! Every value starts with a type descriptor. A length of up to 13 stands in
//! the descriptor's low nibble; a longer one follows the descriptor as a
//! `VarUInt`, and the nibble is 14.

use vstd::prelude::*;
use vstd::string::StringSliceAdditionalSpecFns;
use vstd::utf8::encode_utf8;
use crate::binary::decimal::{decimal_body, write_decimal_body, DecimalView};
use crate::binary::timestamp::{timestamp_body, write_timestamp_body, TimestampView};
use crate::binary::uint::{be_bytes, encode_u64};
use crate::binary::var_int::MAGNITUDE_LIMIT;
use crate::binary::var_uint::{var_uint_bytes, VarUInt};
use crate::result::{IonError, IonResult};
use crate::types::decimal::Decimal;
use crate::types::integer::{unsigned_abs, Int};
use crate::types::timestamp::Timestamp;
use crate::types::IonType;

verus! {

/// The largest length that a type descriptor holds in its low nibble.
pub const MAX_INLINE_LENGTH: usize = 13;

/// The header of a value of type code `type_code` whose body has `length`
/// bytes.
pub open spec fn header_bytes(type_code: u8, length: nat) -> Seq<u8> {
    if length <= 13 {
        seq![(type_code * 16 + length) as u8]
    } else {
        seq![(type_code * 16 + 14) as u8] + var_uint_bytes(length)
    }
}

/// A value of type code `type_code` with the given body.
pub open spec fn value_bytes(type_code: u8, body: Seq<u8>) -> Seq<u8> {
    header_bytes(type_code, body.len()) + body
}

/// The null of the given type: the type code with length code 15.
pub open spec fn null_encoding(ion_type: IonType) -> Seq<u8> {
    seq![(ion_type.spec_type_code() * 16 + 15) as u8]
}

/// A boolean: type code 1, with the value in the length code.
pub open spec fn bool_encoding(value: bool) -> Seq<u8> {
    seq![if value {
        0x11u8
    } else {
        0x10u8
    }]
}

/// An integer: type code 2, or 3 below zero, and the magnitude in the
/// fewest big-endian bytes. Zero has no body.
pub open spec fn int_encoding(value: int) -> Seq<u8> {
    value_bytes(
        if value < 0 {
            3
        } else {
            2
        },
        be_bytes(vstd::math::abs(value)),
    )
}

/// `v` in exactly `n` big-endian bytes.
pub open spec fn be_fixed(v: nat, n: nat) -> Seq<u8>
    decreases n,
{
    if n == 0 {
        Seq::empty()
    } else {
        be_fixed(v / 256, (n - 1) as nat).push((v % 256) as u8)
    }
}

/// A float given by the 32 bits of a single-precision number: positive zero
/// has no body, anything else four bytes.
pub open spec fn float32_encoding(bits: u32) -> Seq<u8> {
    if bits == 0 {
        seq![0x40u8]
    } else {
        seq![0x44u8] + be_fixed(bits as nat, 4)
    }
}

/// A float given by the 64 bits of a double-precision number: positive zero
/// has no body, anything else eight bytes.
pub open spec fn float64_encoding(bits: u64) -> Seq<u8> {
    if bits == 0 {
        seq![0x40u8]
    } else {
        seq![0x48u8] + be_fixed(bits as nat, 8)
    }
}

/// A decimal: type code 5.
pub open spec fn decimal_encoding(decimal: DecimalView) -> Seq<u8> {
    value_bytes(5, decimal_body(decimal))
}

/// A timestamp: type code 6.
pub open spec fn timestamp_encoding(timestamp: TimestampView) -> Seq<u8> {
    value_bytes(6, timestamp_body(timestamp))
}

/// A symbol: type code 7, and the symbol ID in the fewest big-endian bytes.
pub open spec fn symbol_encoding(symbol_id: nat) -> Seq<u8> {
    value_bytes(7, be_bytes(symbol_id))
}

/// A string: type code 8, and the text in UTF-8.
pub open spec fn string_encoding(text: Seq<char>) -> Seq<u8> {
    value_bytes(8, encode_utf8(text))
}

/// A clob: type code 9.
pub open spec fn clob_encoding(bytes: Seq<u8>) -> Seq<u8> {
    value_bytes(9, bytes)
}

/// A blob: type code 10.
pub open spec fn blob_encoding(bytes: Seq<u8>) -> Seq<u8> {
    value_bytes(10, bytes)
}

/// The header of a container whose children take `length` bytes: the type
/// code with the length in the length code when it is at most 13, and else
/// the type code with length code 14 and the length as a `VarUInt`.
pub open spec fn container_header(type_code: u8, length: nat) -> Seq<u8> {
    header_bytes(type_code, length)
}

/// A container of type code `type_code` whose children are encoded in
/// `body`: the header, written once the length of the body is known, and the
/// body.
pub open spec fn container_encoding(type_code: u8, body: Seq<u8>) -> Seq<u8> {
    container_header(type_code, body.len()) + body
}

/// A field of a struct: the field ID as a `VarUInt`, and the value.
pub open spec fn field_encoding(field_id: nat, value: Seq<u8>) -> Seq<u8> {
    var_uint_bytes(field_id) + value
}

/// Appends the header of a value of type code `type_code` whose body has
/// `length` bytes.
pub fn write_header(sink: &mut Vec<u8>, type_code: u8, length: usize)
    requires
        type_code < 16,
    ensures
        final(sink)@ == old(sink)@ + header_bytes(type_code, length as nat),
{
    if length <= MAX_INLINE_LENGTH {
        sink.push(type_code * 16 + length as u8);
        assert(sink@ =~= old(sink)@ + header_bytes(type_code, length as nat));
    } else {
        sink.push(type_code * 16 + 14);
        let _ = VarUInt::write_u64(sink, length as u64);
        assert(sink@ =~= old(sink)@ + header_bytes(type_code, length as nat));
    }
}

/// Appends every byte of `bytes`.
pub fn write_bytes(sink: &mut Vec<u8>, bytes: &[u8])
    ensures
        final(sink)@ == old(sink)@ + bytes@,
{
    let mut i: usize = 0;
    while i < bytes.len()
        invariant
            i <= bytes@.len(),
            sink@ == old(sink)@ + bytes@.take(i as int),
        decreases bytes@.len() - i,
    {
        sink.push(bytes[i]);
        assert(bytes@.take(i + 1) =~= bytes@.take(i as int).push(bytes@[i as int]));
        i += 1;
    }
    assert(bytes@.take(bytes@.len() as int) =~= bytes@);
}

/// Appends a value of type code `type_code` with the given body.
pub fn write_value(sink: &mut Vec<u8>, type_code: u8, body: &[u8])
    requires
        type_code < 16,
    ensures
        final(sink)@ == old(sink)@ + value_bytes(type_code, body@),
{
    write_header(sink, type_code, body.len());
    write_bytes(sink, body);
    assert(sink@ =~= old(sink)@ + value_bytes(type_code, body@));
}

/// Appends the null of the given type.
pub fn encode_null(sink: &mut Vec<u8>, ion_type: IonType)
    ensures
        final(sink)@ == old(sink)@ + null_encoding(ion_type),
{
    let byte: u8 = match ion_type {
        IonType::Null => 0x0F,
        IonType::Bool => 0x1F,
        IonType::Int => 0x2F,
        IonType::Float => 0x4F,
        IonType::Decimal => 0x5F,
        IonType::Timestamp => 0x6F,
        IonType::Symbol => 0x7F,
        IonType::String => 0x8F,
        IonType::Clob => 0x9F,
        IonType::Blob => 0xAF,
        IonType::List => 0xBF,
        IonType::SExp => 0xCF,
        IonType::Struct => 0xDF,
    };
    sink.push(byte);
    assert(sink@ =~= old(sink)@ + null_encoding(ion_type));
}

/// Appends a boolean.
pub fn encode_bool(sink: &mut Vec<u8>, value: bool)
    ensures
        final(sink)@ == old(sink)@ + bool_encoding(value),
{
    let byte: u8 = if value {
        0x11
    } else {
        0x10
    };
    sink.push(byte);
    assert(sink@ =~= old(sink)@ + bool_encoding(value));
}

/// Appends an integer that an `i64` holds.
pub fn encode_i64(sink: &mut Vec<u8>, value: i64)
    ensures
        final(sink)@ == old(sink)@ + int_encoding(value as int),
{
    // The magnitude has at most eight bytes, so its length always fits in
    // the type descriptor.
    let magnitude: u64 = unsigned_abs(value);
    let mut body: Vec<u8> = Vec::new();
    encode_u64(&mut body, magnitude);
    assert(body@ =~= be_bytes(magnitude as nat));
    let type_code: u8 = if value >= 0 {
        2
    } else {
        3
    };
    write_value(sink, type_code, body.as_slice());
}

/// Appends an integer of any size.
pub fn encode_int(sink: &mut Vec<u8>, value: &Int)
    requires
        value.wf(),
    ensures
        final(sink)@ == old(sink)@ + int_encoding(value.value()),
{
    proof {
        crate::binary::uint::lemma_normalized_is_be_bytes(value.spec_magnitude());
    }
    let type_code: u8 = if value.is_negative() {
        3
    } else {
        2
    };
    write_value(sink, type_code, value.magnitude_be_bytes());
}

/// Appends `value` in exactly `width` big-endian bytes.
pub fn write_be_fixed(sink: &mut Vec<u8>, value: u64, width: usize)
    requires
        width <= 8,
    ensures
        final(sink)@ == old(sink)@ + be_fixed(value as nat, width as nat),
{
    let mut buffer: [u8; 8] = [0, 0, 0, 0, 0, 0, 0, 0];
    let mut remaining: u64 = value;
    let mut i: usize = 0;
    while i < width
        invariant
            i <= width <= 8,
            be_fixed(value as nat, width as nat) == be_fixed(remaining as nat, (width - i) as nat)
                + buffer@.subrange(8 - i, 8),
        decreases width - i,
    {
        let ghost before = buffer@;
        let ghost previous = remaining;
        buffer[7 - i] = (remaining % 256) as u8;
        remaining = remaining / 256;
        proof {
            let tail = buffer@.subrange(7 - i, 8);
            assert(tail =~= seq![(previous % 256) as u8] + before.subrange(8 - i, 8));
            assert(be_fixed(previous as nat, (width - i) as nat) =~= be_fixed(
                remaining as nat,
                (width - i - 1) as nat,
            ).push((previous % 256) as u8));
            assert(be_fixed(previous as nat, (width - i) as nat) + before.subrange(8 - i, 8)
                =~= be_fixed(remaining as nat, (width - i - 1) as nat) + tail);
        }
        i += 1;
    }
    assert(be_fixed(remaining as nat, 0) =~= Seq::<u8>::empty());
    assert(be_fixed(value as nat, width as nat) =~= buffer@.subrange(8 - width, 8));
    let start: usize = 8 - width;
    let mut j: usize = start;
    while j < 8
        invariant
            start <= j <= 8,
            sink@ == old(sink)@ + buffer@.subrange(start as int, j as int),
        decreases 8 - j,
    {
        sink.push(buffer[j]);
        j += 1;
        assert(buffer@.subrange(start as int, j as int) =~= buffer@.subrange(
            start as int,
            j - 1,
        ).push(buffer@[j - 1]));
    }
}

/// Appends a float given by the bits of a single-precision number.
pub fn encode_f32_bits(sink: &mut Vec<u8>, bits: u32)
    ensures
        final(sink)@ == old(sink)@ + float32_encoding(bits),
{
    if bits == 0 {
        sink.push(0x40);
        assert(sink@ =~= old(sink)@ + float32_encoding(bits));
        return ;
    }
    sink.push(0x44);
    write_be_fixed(sink, bits as u64, 4);
    assert(sink@ =~= old(sink)@ + float32_encoding(bits));
}

/// Appends a float given by the bits of a double-precision number.
pub fn encode_f64_bits(sink: &mut Vec<u8>, bits: u64)
    ensures
        final(sink)@ == old(sink)@ + float64_encoding(bits),
{
    if bits == 0 {
        sink.push(0x40);
        assert(sink@ =~= old(sink)@ + float64_encoding(bits));
        return ;
    }
    sink.push(0x48);
    write_be_fixed(sink, bits, 8);
    assert(sink@ =~= old(sink)@ + float64_encoding(bits));
}

/// Appends a decimal. An exponent whose magnitude is 2 to the 62 or more
/// cannot be written, and leaves `sink` as it was.
pub fn encode_decimal(sink: &mut Vec<u8>, value: &Decimal) -> (r: IonResult<()>)
    requires
        value.wf(),
    ensures
        vstd::math::abs(value.spec_exponent() as int) < MAGNITUDE_LIMIT ==> r is Ok
            && final(sink)@ == old(sink)@ + decimal_encoding(value.view_parts()),
        vstd::math::abs(value.spec_exponent() as int) >= MAGNITUDE_LIMIT ==> r == Err::<
            (),
            IonError,
        >(IonError::Encoding) && final(sink)@ == old(sink)@,
{
    let mut body: Vec<u8> = Vec::new();
    write_decimal_body(&mut body, value)?;
    assert(body@ =~= decimal_body(value.view_parts()));
    write_value(sink, 5, body.as_slice());
    Ok(())
}

/// Appends a timestamp. A fraction whose exponent has a magnitude of 2 to
/// the 62 or more cannot be written, and leaves `sink` as it was.
pub fn encode_timestamp(sink: &mut Vec<u8>, value: &Timestamp) -> (r: IonResult<()>)
    requires
        value.wf(),
    ensures
        match r {
            Ok(_) => final(sink)@ == old(sink)@ + timestamp_encoding(value.view_parts()),
            Err(error) => error == IonError::Encoding && final(sink)@ == old(sink)@,
        },
        r is Err <==> value.fractional_seconds is Some && vstd::math::abs(
            value.fractional_seconds->Some_0.spec_exponent() as int,
        ) >= MAGNITUDE_LIMIT,
{
    let mut body: Vec<u8> = Vec::new();
    write_timestamp_body(&mut body, value)?;
    assert(body@ =~= timestamp_body(value.view_parts()));
    write_value(sink, 6, body.as_slice());
    Ok(())
}

/// Appends a symbol given by its symbol ID.
pub fn encode_symbol_id(sink: &mut Vec<u8>, symbol_id: usize)
    ensures
        final(sink)@ == old(sink)@ + symbol_encoding(symbol_id as nat),
{
    let mut body: Vec<u8> = Vec::new();
    encode_u64(&mut body, symbol_id as u64);
    assert(body@ =~= be_bytes(symbol_id as nat));
    write_value(sink, 7, body.as_slice());
}

/// Appends a string.
pub fn encode_string(sink: &mut Vec<u8>, text: &str)
    ensures
        final(sink)@ == old(sink)@ + string_encoding(text@),
{
    write_value(sink, 8, text.as_bytes());
}

/// The bytes `bytes` under the type descriptor `type_code`, whose high nibble
/// is the type code and whose low nibble takes the length: `0x90` makes a
/// clob of them and `0xA0` a blob.
pub open spec fn lob_encoding(type_code: u8, bytes: Seq<u8>) -> Seq<u8> {
    if bytes.len() <= 13 {
        seq![type_code | (bytes.len() as u8)] + bytes
    } else {
        seq![type_code | 0x0Eu8] + var_uint_bytes(bytes.len()) + bytes
    }
}

/// Under the type descriptors of a clob and of a blob, the bytes are
/// written as a clob and as a blob.
pub proof fn lemma_lob_encoding(type_code: u8, bytes: Seq<u8>)
    requires
        type_code == 0x90 || type_code == 0xA0,
    ensures
        lob_encoding(type_code, bytes) == value_bytes(type_code / 16, bytes),
{
    let length = bytes.len();
    if length <= 13 {
        let l = length as u8;
        assert((type_code == 0x90 || type_code == 0xA0) && l <= 13 ==> type_code | l == (
        type_code / 16) * 16 + l) by (bit_vector);
    } else {
        assert(type_code == 0x90 || type_code == 0xA0 ==> type_code | 0x0E == (type_code / 16)
            * 16 + 14) by (bit_vector);
    }
    assert(lob_encoding(type_code, bytes) =~= value_bytes(type_code / 16, bytes));
}

/// Appends `value` under the type descriptor `type_code`.
pub fn encode_lob(sink: &mut Vec<u8>, value: &[u8], type_code: u8)
    ensures
        final(sink)@ == old(sink)@ + lob_encoding(type_code, value@),
{
    if value.len() <= MAX_INLINE_LENGTH {
        sink.push(type_code | value.len() as u8);
    } else {
        sink.push(type_code | 0x0E);
        let _ = VarUInt::write_u64(sink, value.len() as u64);
    }
    write_bytes(sink, value);
    assert(sink@ =~= old(sink)@ + lob_encoding(type_code, value@));
}

/// Appends the header of a container of type code `type_code` whose
/// children take `length` bytes.
pub fn write_container_header(sink: &mut Vec<u8>, type_code: u8, length: usize)
    requires
        type_code < 16,
    ensures
        final(sink)@ == old(sink)@ + container_header(type_code, length as nat),
{
    write_header(sink, type_code, length);
}

/// The symbol IDs of `ids` as numbers.
pub open spec fn ids_of(ids: Seq<usize>) -> Seq<nat> {
    Seq::new(ids.len(), |i: int| ids[i] as nat)
}

/// The bytes of a sequence of annotations: each symbol ID as a `VarUInt`.
pub open spec fn annotations_bytes(ids: Seq<nat>) -> Seq<u8>
    decreases ids.len(),
{
    if ids.len() == 0 {
        Seq::empty()
    } else {
        annotations_bytes(ids.drop_last()) + var_uint_bytes(ids.last())
    }
}

/// The encoding `value` of a value, wrapped in its annotations: the wrapper's
/// type descriptor and length, the length of the annotations, the
/// annotations, and the value. Without annotations there is no wrapper.
pub open spec fn annotated_encoding(ids: Seq<nat>, value: Seq<u8>) -> Seq<u8> {
    if ids.len() == 0 {
        value
    } else {
        let sequence = annotations_bytes(ids);
        let inner = var_uint_bytes(sequence.len()) + sequence + value;
        header_bytes(14, inner.len()) + inner
    }
}

/// Appends the value whose encoding is `value`, wrapped in the given
/// annotations.
pub fn encode_annotated(sink: &mut Vec<u8>, annotations: &[usize], value: &[u8])
    ensures
        final(sink)@ == old(sink)@ + annotated_encoding(ids_of(annotations@), value@),
{
    if annotations.len() == 0 {
        write_bytes(sink, value);
        return ;
    }
    let mut inner: Vec<u8> = Vec::new();
    let mut sequence: Vec<u8> = Vec::new();
    let mut i: usize = 0;
    let ghost ids = ids_of(annotations@);
    while i < annotations.len()
        invariant
            i <= annotations@.len(),
            ids == ids_of(annotations@),
            sequence@ == annotations_bytes(ids.take(i as int)),
        decreases annotations@.len() - i,
    {
        let _ = VarUInt::write_u64(&mut sequence, annotations[i] as u64);
        proof {
            assert(ids.take(i + 1).drop_last() =~= ids.take(i as int));
            assert(ids.take(i + 1).last() == annotations@[i as int] as nat);
        }
        i += 1;
    }
    assert(ids.take(annotations@.len() as int) =~= ids);
    let _ = VarUInt::write_u64(&mut inner, sequence.len() as u64);
    write_bytes(&mut inner, sequence.as_slice());
    write_bytes(&mut inner, value);
    assert(inner@ =~= var_uint_bytes(sequence@.len()) + sequence@ + value@);
    write_value(sink, 14, inner.as_slice());
}

} // verus!
