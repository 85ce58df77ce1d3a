use ion_core::lazy::binary::raw::reader::LazyRawBinaryReader_1_0;
use ion_core::lazy::binary::raw::v1_1::reader::{LazyRawBinaryReader_1_1, LazyRawStreamItem_1_1};
use ion_core::lazy::decoder::{HasRange, HasSpan, LazyRawFieldName, RawFieldExpr, RawValueExpr};
use ion_core::lazy::raw_stream_item::LazyRawStreamItem;
use ion_core::lazy::raw_value_ref::RawValueRef;
use ion_core::raw_symbol_token_ref::RawSymbolTokenRef;
use ion_core::result::{IonError, IonResult};
use ion_core::types::integer::Int;
use ion_core::types::IonType;
use num_bigint::{BigInt, Sign};
use std::ops::Range;

fn big_int_of(int: &Int) -> BigInt {
    let sign = if int.is_negative() {
        Sign::Minus
    } else {
        Sign::Plus
    };
    BigInt::from_bytes_be(sign, int.magnitude_be_bytes())
}

#[test]
fn field_name_ranges() -> IonResult<()> {
    // For each pair below, we'll confirm that the top-level struct's field names are found to
    // occupy the specified input ranges.
    type FieldNameAndRange<'a> = (RawSymbolTokenRef<'a>, Range<usize>);
    type FieldTest<'a> = (&'a [u8], &'a [FieldNameAndRange<'a>]);
    let tests: &[FieldTest] = &[
        // (Ion input, expected ranges of the struct's field names)
        (
            &[0xD2, 0x84, 0x80], // {name: ""}
            &[(RawSymbolTokenRef::SymbolId(4), 1..2)],
        ),
    ];
    for (input, field_name_ranges) in tests {
        let mut reader = LazyRawBinaryReader_1_0::new(input);
        let struct_ = reader.next()?.expect_value()?.read()?.expect_struct()?;
        let mut fields = struct_.iter();
        let mut found = 0;
        for (expected_name, range) in field_name_ranges.iter() {
            let field_result = fields.next().expect("a field");
            let name = field_result?.name();
            assert_eq!(
                name.read()?,
                *expected_name,
                "span failure for input {input:0X?} -> field {name:?}"
            );
            assert_eq!(
                name.range(),
                *range,
                "range failure for input {input:0X?} -> field {name:?}"
            );
            println!(
                "SUCCESS: input {:0X?} -> field {:?} -> {:0X?} ({:?})",
                input,
                expected_name,
                name.span(),
                name.range()
            );
            assert_eq!(name.span(), &input[range.clone()]);
            found += 1;
        }
        assert_eq!(found, field_name_ranges.len());
        assert!(fields.next().is_none());
    }
    Ok(())
}

#[test]
fn nop() -> IonResult<()> {
    let data: Vec<u8> = vec![
        0xE0, 0x01, 0x01, 0xEA, // IVM
        0xEC, // 1-Byte NOP
        0xEC, 0xEC, // 2-Byte NOP
        0xEC, 0xEC, 0xEC, // 3-Byte Nop
        0xED, 0x05, 0x00, 0x00, // 4-Byte NOP
        0xEA, // null.null
    ];

    let mut reader = LazyRawBinaryReader_1_1::new(&data);
    let _ivm = reader.next()?.expect_ivm()?;

    assert_eq!(
        reader.next()?.expect_value()?.read()?.expect_null()?,
        IonType::Null
    );

    Ok(())
}

#[test]
fn bools() -> IonResult<()> {
    let data: Vec<u8> = vec![
        0xE0, 0x01, 0x01, 0xEA, // IVM
        0x5E, // true
        0x5F, // false
    ];

    let mut reader = LazyRawBinaryReader_1_1::new(&data);
    let _ivm = reader.next()?.expect_ivm()?;

    assert!(reader.next()?.expect_value()?.read()?.expect_bool()?);

    assert!(!(reader.next()?.expect_value()?.read()?.expect_bool()?));

    Ok(())
}

#[test]
fn integers() -> IonResult<()> {
    let data: Vec<u8> = vec![
        // IVM
        0xE0, 0x01, 0x01, 0xEA,

        // Integer: 0
        0x50,

        // Integer: 17
        0x51, 0x11,

        // Integer: -944
        0x52, 0x50, 0xFC,

        // Integer: 1
        0xF5, 0x03, 0x01,

        // Integer: 147573952589676412929
        0xF5, 0x13, 0x01, 0x00, 0x00, 0x00, 0x00, 0x00, 0x00, 0x00, 0x08,
    ];

    let mut reader = LazyRawBinaryReader_1_1::new(&data);
    let _ivm = reader.next()?.expect_ivm()?;

    assert_eq!(
        reader.next()?.expect_value()?.read()?.expect_int()?,
        0.into()
    );
    assert_eq!(
        reader.next()?.expect_value()?.read()?.expect_int()?,
        17.into()
    );
    assert_eq!(
        reader.next()?.expect_value()?.read()?.expect_int()?,
        (-944).into()
    );

    assert_eq!(
        reader.next()?.expect_value()?.read()?.expect_int()?,
        1.into()
    );

    assert_eq!(
        big_int_of(&reader.next()?.expect_value()?.read()?.expect_int()?),
        BigInt::parse_bytes(b"147573952589676412929", 10).unwrap()
    );
    Ok(())
}

#[test]
fn strings() -> IonResult<()> {
    let data: Vec<u8> = vec![
        // IVM
        0xe0, 0x01, 0x01, 0xea,

        // String: ""
        0x80,

        // String: "hello"
        0x85, 0x68, 0x65, 0x6c, 0x6c, 0x6f,

        // String: "fourteen bytes"
        0x8E, 0x66, 0x6F, 0x75, 0x72, 0x74, 0x65, 0x65, 0x6E, 0x20, 0x62, 0x79, 0x74, 0x65,
        0x73,

        // String: "variable length encoding"
        0xF8, 0x31, 0x76, 0x61, 0x72, 0x69, 0x61, 0x62, 0x6C, 0x65, 0x20, 0x6C, 0x65,
        0x6E, 0x67, 0x74, 0x68, 0x20, 0x65, 0x6E, 0x63, 0x6f, 0x64, 0x69, 0x6E, 0x67,
    ];

    let mut reader = LazyRawBinaryReader_1_1::new(&data);
    let _ivm = reader.next()?.expect_ivm()?;

    assert_eq!(reader.next()?.expect_value()?.read()?.expect_string()?, "");

    assert_eq!(
        reader.next()?.expect_value()?.read()?.expect_string()?,
        "hello"
    );

    assert_eq!(
        reader.next()?.expect_value()?.read()?.expect_string()?,
        "fourteen bytes"
    );

    assert_eq!(
        reader.next()?.expect_value()?.read()?.expect_string()?,
        "variable length encoding"
    );

    Ok(())
}

#[test]
fn ion_1_1_stream_with_int_zero() -> IonResult<()> {
    let data = [0xE0, 0x01, 0x01, 0xEA, 0x50];
    let mut reader = LazyRawBinaryReader_1_1::new(&data);
    assert_eq!(reader.next()?.expect_ivm()?, (1, 1));
    assert_eq!(reader.position(), 4);
    let value = reader.next()?.expect_value()?;
    assert_eq!(value.ion_type(), IonType::Int);
    assert_eq!(value.read()?.expect_int()?, Int::from(0));
    assert_eq!(reader.position(), 5);
    assert!(matches!(
        reader.next()?,
        LazyRawStreamItem_1_1::EndOfStream(5)
    ));
    Ok(())
}

#[test]
fn ion_1_1_fixed_ints_are_twos_complement() -> IonResult<()> {
    let cases: [(&[u8], i64); 7] = [
        (&[0x51, 0xFF], -1),
        (&[0x51, 0x80], -128),
        (&[0x51, 0x7F], 127),
        (&[0x52, 0x00, 0xFF], -256),
        (&[0x52, 0x00, 0x80], -32768),
        (&[0x58, 0, 0, 0, 0, 0, 0, 0, 0x80], i64::MIN),
        (&[0x58, 0xFF, 0xFF, 0xFF, 0xFF, 0xFF, 0xFF, 0xFF, 0x7F], i64::MAX),
    ];
    for (data, expected) in cases {
        let mut reader = LazyRawBinaryReader_1_1::new(data);
        let int = reader.next()?.expect_value()?.read()?.expect_int()?;
        assert_eq!(int.as_i64(), Some(expected), "{data:X?}");
    }
    Ok(())
}

#[test]
fn ion_1_1_reader_refuses_other_versions_and_opcodes() {
    let mut reader = LazyRawBinaryReader_1_1::new(&[0xE0, 0x01, 0x00, 0xEA]);
    assert!(matches!(reader.next(), Err(IonError::Decoding)));
    let mut reader = LazyRawBinaryReader_1_1::new(&[0x21, 0x01]);
    assert!(matches!(reader.next(), Err(IonError::Decoding)));
}

#[test]
fn ion_1_1_reader_reports_incomplete_input() {
    let mut reader = LazyRawBinaryReader_1_1::new(&[0x85, 0x68, 0x65]);
    assert!(matches!(reader.next(), Err(IonError::Incomplete { .. })));
    let mut reader = LazyRawBinaryReader_1_1::new(&[0xE0, 0x01]);
    assert!(matches!(reader.next(), Err(IonError::Incomplete { .. })));
    let mut reader = LazyRawBinaryReader_1_1::new(&[0xF8]);
    assert!(matches!(reader.next(), Err(IonError::Incomplete { .. })));
}

#[test]
fn top_level_items_come_in_order() -> IonResult<()> {
    let data = [
        0xE0, 0x01, 0x00, 0xEA, // IVM
        0x00, // NOP
        0x01, 0xFF, // NOP
        0x21, 0x07, // 7
        0x0F, // null
        0x83, 0x66, 0x6F, 0x6F, // "foo"
        0x00, // NOP
    ];
    let mut reader = LazyRawBinaryReader_1_0::new(&data);
    assert_eq!(reader.next()?.expect_ivm()?, (1, 0));
    let seven = reader.next()?.expect_value()?;
    assert_eq!(seven.range(), 7..9);
    assert_eq!(seven.span(), &[0x21, 0x07]);
    assert_eq!(seven.read()?.expect_int()?, Int::from(7));
    assert_eq!(reader.position(), 9);
    let null = reader.next()?.expect_value()?;
    assert!(null.is_null());
    assert_eq!(null.read()?.expect_null()?, IonType::Null);
    let foo = reader.next()?.expect_value()?;
    assert_eq!(foo.read()?.expect_string()?, "foo");
    assert_eq!(foo.encoded_value.header_range(), 10..11);
    assert_eq!(foo.encoded_value.value_range(), 11..14);
    assert_eq!(foo.encoded_value.total_length(), 4);
    assert!(matches!(reader.next()?, LazyRawStreamItem::EndOfStream(15)));
    Ok(())
}

#[test]
fn reader_stays_in_place_when_input_is_incomplete() {
    let data = [0x21, 0x07, 0x85, 0x68, 0x65];
    let mut reader = LazyRawBinaryReader_1_0::new_with_offset(&data, 100);
    assert!(reader.next().is_ok());
    assert_eq!(reader.position(), 102);
    assert!(matches!(
        reader.next(),
        Err(IonError::Incomplete { offset: 102 })
    ));
    assert_eq!(reader.position(), 102);
}

#[test]
fn unsupported_version_is_a_decoding_error() {
    let mut reader = LazyRawBinaryReader_1_0::new(&[0xE0, 0x02, 0x00, 0xEA]);
    assert!(matches!(reader.next(), Err(IonError::Decoding)));
    let mut reader = LazyRawBinaryReader_1_0::new(&[0xE0, 0x01, 0x00, 0xEB]);
    assert!(matches!(reader.next(), Err(IonError::Decoding)));
}

#[test]
fn malformed_values_are_decoding_errors() {
    let cases: [&[u8]; 9] = [
        &[0xF0],             // reserved type code
        &[0x12],             // bool with length code 2
        &[0x43, 0, 0, 0],    // float of three bytes
        &[0x61, 0x80],       // timestamp of one byte
        &[0xD1, 0x80],       // ordered struct without fields
        &[0xE3, 0x80, 0x21, 0x01], // wrapper without annotations
        &[0xE2, 0x81, 0x84], // wrapper without a value
        &[0xE4, 0x81, 0x84, 0x00, 0x00], // wrapper around NOP padding
        &[0xE5, 0x81, 0x84, 0x21, 0x01, 0x00], // wrapper longer than its value
    ];
    for data in cases {
        let mut reader = LazyRawBinaryReader_1_0::new(data);
        assert!(
            matches!(reader.next(), Err(IonError::Decoding)),
            "{data:X?}"
        );
    }
}

#[test]
fn invalid_bodies_are_decoding_errors() -> IonResult<()> {
    let cases: [&[u8]; 2] = [
        &[0x82, 0xC3, 0x28],     // string that is not UTF-8
        &[0x79, 1, 0, 0, 0, 0, 0, 0, 0, 0], // symbol ID of nine bytes
    ];
    for data in cases {
        let mut reader = LazyRawBinaryReader_1_0::new(data);
        let value = reader.next()?.expect_value()?;
        assert!(matches!(value.read(), Err(IonError::Decoding)), "{data:X?}");
    }
    Ok(())
}

#[test]
fn integer_of_zero_magnitude_is_zero_under_either_sign() -> IonResult<()> {
    let cases: [&[u8]; 4] = [&[0x20], &[0x30], &[0x31, 0x00], &[0x32, 0x00, 0x00]];
    for data in cases {
        let mut reader = LazyRawBinaryReader_1_0::new(data);
        let value = reader.next()?.expect_value()?;
        assert_eq!(value.read()?.expect_int()?, Int::from(0), "{data:X?}");
    }
    // The sign counts for any other magnitude.
    let mut reader = LazyRawBinaryReader_1_0::new(&[0x31, 0x05]);
    let value = reader.next()?.expect_value()?;
    assert_eq!(value.read()?.expect_int()?, Int::from(-5));
    Ok(())
}

#[test]
fn annotations_are_read_as_symbol_ids() -> IonResult<()> {
    // $4::$5::[1]
    let data = [0xE6, 0x82, 0x84, 0x85, 0xB2, 0x21, 0x01];
    let mut reader = LazyRawBinaryReader_1_0::new(&data);
    let value = reader.next()?.expect_value()?;
    assert!(value.has_annotations());
    assert_eq!(value.encoded_value.annotations_range(), Some(0..4));
    assert_eq!(value.encoded_value.annotations_header_length(), Some(4));
    assert_eq!(value.encoded_value.annotations_sequence_length(), Some(2));
    assert_eq!(value.encoded_value.header_offset(), 4);
    assert_eq!(value.encoded_value.total_length(), 7);
    let mut annotations = value.annotations();
    assert_eq!(
        annotations.next().unwrap()?,
        RawSymbolTokenRef::SymbolId(4)
    );
    assert_eq!(
        annotations.next().unwrap()?,
        RawSymbolTokenRef::SymbolId(5)
    );
    assert!(annotations.next().is_none());
    assert_eq!(value.annotations().collect()?, vec![4, 5]);

    let list = value.read()?.expect_list()?;
    let children = list.iter().collect()?;
    assert_eq!(children.len(), 1);
    assert_eq!(children[0].read()?.expect_int()?, Int::from(1));
    Ok(())
}

#[test]
fn children_total_lengths_add_up_to_the_body() -> IonResult<()> {
    // [1, "foo", [true], $4::2]
    let data = [
        0xBD, 0x21, 0x01, 0x83, 0x66, 0x6F, 0x6F, 0xB1, 0x11, 0xE4, 0x81, 0x84, 0x21, 0x02,
    ];
    let mut reader = LazyRawBinaryReader_1_0::new(&data);
    let value = reader.next()?.expect_value()?;
    let list = value.read()?.expect_list()?;
    let children = list.iter().collect()?;
    assert_eq!(children.len(), 4);
    let total: usize = children
        .iter()
        .map(|child| child.encoded_value.total_length())
        .sum();
    assert_eq!(total, value.encoded_value.value_length());
    assert_eq!(total, 13);
    // The children come in the order of the bytes.
    let offsets: Vec<usize> = children.iter().map(|child| child.range().start).collect();
    assert_eq!(offsets, vec![1, 3, 7, 9]);
    Ok(())
}

#[test]
fn nop_padding_in_containers_is_skipped() -> IonResult<()> {
    // [NOP, 1, NOP NOP, 2, NOP]
    let data = [0xB9, 0x00, 0x21, 0x01, 0x01, 0xFF, 0x00, 0x21, 0x02, 0x00];
    let mut reader = LazyRawBinaryReader_1_0::new(&data);
    let list = reader.next()?.expect_value()?.read()?.expect_list()?;
    let children = list.iter().collect()?;
    assert_eq!(children.len(), 2);
    assert_eq!(children[0].read()?.expect_int()?, Int::from(1));
    assert_eq!(children[1].read()?.expect_int()?, Int::from(2));

    // {$4: NOP, $5: 1, $6: NOP}
    let data = [0xD7, 0x84, 0x00, 0x85, 0x21, 0x01, 0x86, 0x00];
    let mut reader = LazyRawBinaryReader_1_0::new(&data);
    let struct_ = reader.next()?.expect_value()?.read()?.expect_struct()?;
    let fields = struct_.iter().collect()?;
    assert_eq!(fields.len(), 1);
    assert_eq!(fields[0].0, 5);
    assert_eq!(fields[0].1.read()?.expect_int()?, Int::from(1));
    Ok(())
}

#[test]
fn struct_fields_carry_their_field_ids() -> IonResult<()> {
    // {$10: 1, $11: 2}
    let data = [0xD6, 0x8A, 0x21, 0x01, 0x8B, 0x21, 0x02];
    let mut reader = LazyRawBinaryReader_1_0::new(&data);
    let struct_ = reader.next()?.expect_value()?.read()?.expect_struct()?;
    let mut fields = struct_.iter();
    let (name, value) = fields.next().unwrap()?.expect_name_value()?;
    assert_eq!(name.field_id(), 10);
    assert_eq!(value.encoded_value.field_id_range(), Some(1..2));
    assert_eq!(value.encoded_value.field_id_length(), Some(1));
    assert_eq!(value.encoded_value.total_length(), 3);
    let field = fields.next().unwrap()?;
    assert_eq!(field.name().field_id(), 11);
    // A field reaches from its name to the end of its value.
    assert_eq!(field.range(), 4..7);
    assert_eq!(field.value_expr().range(), 5..7);
    assert_eq!(field.value_expr().span(), &[0x21, 0x02]);
    assert!(field.expect_name_macro().is_err());
    assert!(fields.next().is_none());
    Ok(())
}

#[test]
fn value_expressions_tell_values_from_macros() {
    let value: RawValueExpr<u8, u16> = RawValueExpr::ValueLiteral(7);
    let invocation: RawValueExpr<u8, u16> = RawValueExpr::MacroInvocation(9);
    assert_eq!(value.expect_value(), Ok(7));
    assert_eq!(value.expect_macro(), Err(IonError::Decoding));
    assert_eq!(invocation.expect_macro(), Ok(9));
    assert_eq!(invocation.expect_value(), Err(IonError::Decoding));

    let field: RawFieldExpr<u32, u8, u16> = RawFieldExpr::new(4, value);
    assert_eq!(field.name(), 4);
    assert_eq!(field.value_expr(), value);
    assert_eq!(field.into_pair(), (4, value));
    assert_eq!(field.expect_name_value(), Ok((4, 7)));
    assert_eq!(field.expect_name_macro(), Err(IonError::Decoding));
    let field: RawFieldExpr<u32, u8, u16> = RawFieldExpr::new(4, invocation);
    assert_eq!(field.expect_name_macro(), Ok((4, 9)));
    assert_eq!(field.expect_name_value(), Err(IonError::Decoding));
}

#[test]
fn raw_values_are_decoded_on_demand() -> IonResult<()> {
    let data = [
        0x11, // true
        0x38, 0x80, 0, 0, 0, 0, 0, 0, 0, // i64::MIN
        0x44, 0x40, 0x40, 0x00, 0x00, // 3e0
        0x40, // 0e0
        0x71, 0x04, // $4
        0x92, 0x68, 0x69, // clob
        0xA1, 0xFF, // blob
        0xC0, // ()
    ];
    let mut reader = LazyRawBinaryReader_1_0::new(&data);
    assert!(matches!(
        reader.next()?.expect_value()?.read()?,
        RawValueRef::Bool(true)
    ));
    assert_eq!(
        reader.next()?.expect_value()?.read()?.expect_int()?.as_i64(),
        Some(i64::MIN)
    );
    assert_eq!(
        reader.next()?.expect_value()?.read()?.expect_float()?,
        ion_core::types::integer::FloatBits::Single(3f32.to_bits())
    );
    assert_eq!(
        reader.next()?.expect_value()?.read()?.expect_float()?,
        ion_core::types::integer::FloatBits::Double(0)
    );
    assert_eq!(
        reader.next()?.expect_value()?.read()?.expect_symbol()?,
        RawSymbolTokenRef::SymbolId(4)
    );
    assert_eq!(
        reader.next()?.expect_value()?.read()?.expect_clob()?,
        b"hi"
    );
    assert_eq!(
        reader.next()?.expect_value()?.read()?.expect_blob()?,
        &[0xFF]
    );
    let sexp = reader.next()?.expect_value()?.read()?.expect_sexp()?;
    assert_eq!(sexp.sequence.ion_type(), IonType::SExp);
    assert!(sexp.iter().next().is_none());
    Ok(())
}

#[test]
fn wrapper_declares_the_length_of_what_it_holds() -> IonResult<()> {
    // A wrapper with a one-byte length, and one with a length of its own.
    let short: &[u8] = &[0xE6, 0x82, 0x84, 0x85, 0xB2, 0x21, 0x01];
    let mut long = vec![0xEE, 0x94, 0x81, 0x84, 0x8E, 0x90];
    long.extend_from_slice(&[b'a'; 16]);
    let cases: [(&[u8], usize, usize); 2] = [(short, 6, 0), (&long, 0x14, 1)];
    for (data, declared, declared_size) in cases {
        let mut reader = LazyRawBinaryReader_1_0::new(data);
        let value = reader.next()?.expect_value()?;
        let encoded = value.encoded_value;
        let sequence_length = encoded.annotations_sequence_length().unwrap();
        let header_length = encoded.annotations_header_length().unwrap();
        // The field that holds the length of the annotations is what is left of
        // the wrapper's own bytes.
        let sequence_length_size = header_length - 1 - declared_size - sequence_length;
        assert_eq!(
            declared,
            sequence_length_size + sequence_length + encoded.header_length() + encoded.value_length()
        );
        assert_eq!(encoded.total_length(), data.len());
    }
    Ok(())
}
