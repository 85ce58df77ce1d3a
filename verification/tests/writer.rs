use bumpalo::Bump;
use ion_core::lazy::encoder::binary::value_writer::BinaryValueWriter_1_0;
use ion_core::lazy::encoder::binary::writer::{new_arena, reset_arena, LazyRawBinaryWriter_1_0};
use ion_core::raw_symbol_token_ref::RawSymbolTokenRef;
use ion_core::reader::{ReaderBuilder, UserReader, UserStreamItem};
use ion_core::result::{IonError, IonResult};
use ion_core::types::integer::{FloatBits, Int};
use ion_core::types::decimal::Decimal;
use ion_core::types::timestamp::Timestamp;
use ion_core::types::value_ref::ValueRef;
use ion_core::types::IonType;

/// A value read back from a stream, with the names of fields and the text of
/// symbols resolved.
#[derive(Debug, PartialEq)]
enum Value {
    Null(IonType),
    Bool(bool),
    Int(i64),
    Float(f64),
    Timestamp(Timestamp),
    String(String),
    Symbol(Option<String>),
    Blob(Vec<u8>),
    Clob(Vec<u8>),
    List(Vec<Value>),
    SExp(Vec<Value>),
    Struct(Vec<(Option<String>, Value)>),
}

fn float_of(bits: FloatBits) -> f64 {
    match bits {
        FloatBits::Single(bits) => f32::from_bits(bits) as f64,
        FloatBits::Double(bits) => f64::from_bits(bits),
    }
}

fn read_children(reader: &mut UserReader, in_struct: bool) -> IonResult<Vec<(Option<String>, Value)>> {
    let mut children = Vec::new();
    loop {
        match reader.next_user_item()? {
            UserStreamItem::Nothing => return Ok(children),
            UserStreamItem::Null(_) | UserStreamItem::Value(_) => {
                let name = if in_struct {
                    reader.field_name()?.text().map(|text| text.to_string())
                } else {
                    None
                };
                children.push((name, read_current(reader)?));
            }
        }
    }
}

fn read_current(reader: &mut UserReader) -> IonResult<Value> {
    let scalar = match reader.read_value()? {
        ValueRef::Null(ion_type) => Ok(Value::Null(ion_type)),
        ValueRef::Bool(b) => Ok(Value::Bool(b)),
        ValueRef::Int(i) => Ok(Value::Int(
            i.as_i64().expect("an integer that fits in an i64"),
        )),
        ValueRef::Float(f) => Ok(Value::Float(float_of(f))),
        ValueRef::Decimal(_) => panic!("no decimals are written here"),
        ValueRef::Timestamp(t) => Ok(Value::Timestamp(t)),
        ValueRef::String(s) => Ok(Value::String(s.to_string())),
        ValueRef::Symbol(s) => Ok(Value::Symbol(s.text().map(|text| text.to_string()))),
        ValueRef::Blob(b) => Ok(Value::Blob(b.to_vec())),
        ValueRef::Clob(c) => Ok(Value::Clob(c.to_vec())),
        ValueRef::List(_) => Err(IonType::List),
        ValueRef::SExp(_) => Err(IonType::SExp),
        ValueRef::Struct(_) => Err(IonType::Struct),
    };
    let ion_type = match scalar {
        Ok(value) => return Ok(value),
        Err(ion_type) => ion_type,
    };
    reader.step_in()?;
    let children = read_children(reader, ion_type == IonType::Struct)?;
    reader.step_out()?;
    Ok(match ion_type {
        IonType::Struct => Value::Struct(children),
        IonType::SExp => Value::SExp(children.into_iter().map(|(_, value)| value).collect()),
        _ => Value::List(children.into_iter().map(|(_, value)| value).collect()),
    })
}

fn read_all(bytes: &[u8]) -> IonResult<Vec<Value>> {
    let mut reader = ReaderBuilder::new().build(bytes)?;
    Ok(read_children(&mut reader, false)?
        .into_iter()
        .map(|(_, value)| value)
        .collect())
}

fn writer_test(
    expected: Vec<Value>,
    test: impl FnOnce(&mut LazyRawBinaryWriter_1_0) -> IonResult<()>,
) -> IonResult<()> {
    let arena = Bump::new();
    let mut writer = LazyRawBinaryWriter_1_0::new(&arena, Vec::new())?;
    test(&mut writer)?;
    writer.flush()?;
    let actual = read_all(writer.output())?;
    assert_eq!(
        expected, actual,
        "Actual {actual:?} was not equal to {expected:?}"
    );
    Ok(())
}

fn write_one_two_three(writer: BinaryValueWriter_1_0) -> IonResult<()> {
    let mut list = writer.list_writer();
    list.value_writer().write_i64(1)?;
    list.value_writer().write_i64(2)?;
    list.value_writer().write_i64(3)?;
    list.end()
}

fn one_two_three() -> Value {
    Value::List(vec![Value::Int(1), Value::Int(2), Value::Int(3)])
}

fn scalars() -> Vec<Value> {
    vec![
        Value::Int(1),
        Value::Bool(false),
        Value::Float(3e0),
        Value::String("foo".to_string()),
        Value::Symbol(Some("name".to_string())),
        Value::Timestamp(Timestamp::with_ymd(2023, 11, 9)),
        Value::Blob(vec![0xE0, 0x01, 0x00, 0xEA]),
    ]
}

#[test]
fn write_scalars() -> IonResult<()> {
    let expected = scalars();
    let test = |writer: &mut LazyRawBinaryWriter_1_0| {
        writer.value_writer().write_i64(1)?;
        writer.value_writer().write_bool(false)?;
        writer.value_writer().write_f32(3f32.to_bits())?;
        writer.value_writer().write_string("foo")?;
        writer
            .value_writer()
            .write_symbol(RawSymbolTokenRef::SymbolId(4))?;
        writer
            .value_writer()
            .write_timestamp(&Timestamp::with_ymd(2023, 11, 9))?;
        writer
            .value_writer()
            .write_blob(&[0xE0u8, 0x01, 0x00, 0xEA])?;
        Ok(())
    };
    writer_test(expected, test)
}

#[test]
fn write_empty_list() -> IonResult<()> {
    let expected = vec![Value::List(vec![])];
    let test = |writer: &mut LazyRawBinaryWriter_1_0| writer.value_writer().list_writer().end();
    writer_test(expected, test)
}

#[test]
fn write_list() -> IonResult<()> {
    let mut children = scalars();
    // Nested list
    children.push(one_two_three());
    let expected = vec![Value::List(children)];
    let test = |writer: &mut LazyRawBinaryWriter_1_0| {
        let mut list = writer.value_writer().list_writer();
        list.value_writer().write_i64(1)?;
        list.value_writer().write_bool(false)?;
        list.value_writer().write_f32(3f32.to_bits())?;
        list.value_writer().write_string("foo")?;
        list.value_writer()
            .write_symbol(RawSymbolTokenRef::SymbolId(4))?;
        list.value_writer()
            .write_timestamp(&Timestamp::with_ymd(2023, 11, 9))?;
        list.value_writer().write_blob(&[0xE0u8, 0x01, 0x00, 0xEA])?;
        write_one_two_three(list.value_writer())?;
        list.end()
    };
    writer_test(expected, test)
}

#[test]
fn write_empty_sexp() -> IonResult<()> {
    let expected = vec![Value::SExp(vec![])];
    let test = |writer: &mut LazyRawBinaryWriter_1_0| writer.value_writer().sexp_writer().end();
    writer_test(expected, test)
}

#[test]
fn write_sexp() -> IonResult<()> {
    let mut children = scalars();
    // Nested list
    children.push(one_two_three());
    let expected = vec![Value::SExp(children)];
    let test = |writer: &mut LazyRawBinaryWriter_1_0| {
        let mut sexp = writer.value_writer().sexp_writer();
        sexp.value_writer().write_i64(1)?;
        sexp.value_writer().write_bool(false)?;
        sexp.value_writer().write_f32(3f32.to_bits())?;
        sexp.value_writer().write_string("foo")?;
        sexp.value_writer()
            .write_symbol(RawSymbolTokenRef::SymbolId(4))?;
        sexp.value_writer()
            .write_timestamp(&Timestamp::with_ymd(2023, 11, 9))?;
        sexp.value_writer().write_blob(&[0xE0u8, 0x01, 0x00, 0xEA])?;
        write_one_two_three(sexp.value_writer())?;
        sexp.end()
    };
    writer_test(expected, test)
}

#[test]
fn write_empty_struct() -> IonResult<()> {
    let expected = vec![Value::Struct(vec![])];
    let test = |writer: &mut LazyRawBinaryWriter_1_0| writer.value_writer().struct_writer().end();
    writer_test(expected, test)
}

#[test]
fn write_struct() -> IonResult<()> {
    // This test uses symbol ID field names because the raw writer has no symbol table.
    let names = [
        None,
        Some("$ion"),
        Some("$ion_1_0"),
        Some("$ion_symbol_table"),
        Some("name"),
        Some("version"),
        Some("imports"),
        Some("symbols"),
    ];
    let mut values = scalars();
    // Nested list
    values.push(one_two_three());
    let fields = names
        .iter()
        .map(|name| name.map(|text| text.to_string()))
        .zip(values)
        .collect();
    let expected = vec![Value::Struct(fields)];
    let test = |writer: &mut LazyRawBinaryWriter_1_0| {
        let mut struct_ = writer.value_writer().struct_writer();
        struct_
            .field_writer(RawSymbolTokenRef::SymbolId(0))?
            .write_i64(1)?;
        struct_
            .field_writer(RawSymbolTokenRef::SymbolId(1))?
            .write_bool(false)?;
        struct_
            .field_writer(RawSymbolTokenRef::SymbolId(2))?
            .write_f32(3f32.to_bits())?;
        struct_
            .field_writer(RawSymbolTokenRef::SymbolId(3))?
            .write_string("foo")?;
        struct_
            .field_writer(RawSymbolTokenRef::SymbolId(4))?
            .write_symbol(RawSymbolTokenRef::SymbolId(4))?;
        struct_
            .field_writer(RawSymbolTokenRef::SymbolId(5))?
            .write_timestamp(&Timestamp::with_ymd(2023, 11, 9))?;
        struct_
            .field_writer(RawSymbolTokenRef::SymbolId(6))?
            .write_blob(&[0xE0u8, 0x01, 0x00, 0xEA])?;
        write_one_two_three(struct_.field_writer(RawSymbolTokenRef::SymbolId(7))?)?;
        struct_.end()
    };
    writer_test(expected, test)
}

#[test]
fn try_it_out_for_real() -> IonResult<()> {
    let arena = Bump::new();
    let mut writer = LazyRawBinaryWriter_1_0::new(&arena, Vec::new())?;
    let mut list = writer.value_writer().list_writer();
    list.value_writer().write_i64(1)?;
    list.value_writer().write_i64(2)?;
    list.value_writer().write_i64(3)?;
    list.end()?;
    writer.flush()?;
    let output = writer.output();
    println!("{} bytes", output.len());
    assert_eq!(
        output.as_slice(),
        &[0xE0, 0x01, 0x00, 0xEA, 0xB6, 0x21, 0x01, 0x21, 0x02, 0x21, 0x03]
    );
    Ok(())
}

fn staged(test: impl FnOnce(BinaryValueWriter_1_0) -> IonResult<()>) -> Vec<u8> {
    let arena = Bump::new();
    let mut writer = LazyRawBinaryWriter_1_0::new(&arena, Vec::new()).unwrap();
    test(writer.value_writer()).unwrap();
    writer.staged().to_vec()
}

#[test]
fn int_zero_is_one_byte() {
    assert_eq!(staged(|writer| writer.write_i64(0)), [0x20]);
    assert_eq!(staged(|writer| writer.write_int(&Int::from(0))), [0x20]);
}

#[test]
fn ints_carry_their_sign_in_the_type_code() {
    assert_eq!(staged(|writer| writer.write_i64(1)), [0x21, 0x01]);
    assert_eq!(staged(|writer| writer.write_i64(-1)), [0x31, 0x01]);
    assert_eq!(staged(|writer| writer.write_i64(256)), [0x22, 0x01, 0x00]);
    assert_eq!(
        staged(|writer| writer.write_i64(i64::MIN)),
        [0x38, 0x80, 0, 0, 0, 0, 0, 0, 0]
    );
}

#[test]
fn big_ints_take_a_var_uint_length_beyond_thirteen_bytes() {
    let magnitude = [0x01u8; 14];
    let big = Int::from_sign_and_magnitude(true, &magnitude);
    let mut expected = vec![0x3E, 0x8E];
    expected.extend_from_slice(&magnitude);
    assert_eq!(staged(|writer| writer.write_int(&big)), expected);
}

#[test]
fn float_positive_zero_has_no_body() {
    assert_eq!(staged(|writer| writer.write_f32(0f32.to_bits())), [0x40]);
    assert_eq!(staged(|writer| writer.write_f64(0f64.to_bits())), [0x40]);
}

#[test]
fn floats_take_four_or_eight_bytes() {
    assert_eq!(
        staged(|writer| writer.write_f32(3f32.to_bits())),
        [0x44, 0x40, 0x40, 0x00, 0x00]
    );
    assert_eq!(
        staged(|writer| writer.write_f64(3f64.to_bits())),
        [0x48, 0x40, 0x08, 0, 0, 0, 0, 0, 0]
    );
    // Negative zero is not positive zero.
    assert_eq!(
        staged(|writer| writer.write_f32((-0f32).to_bits())),
        [0x44, 0x80, 0x00, 0x00, 0x00]
    );
}

#[test]
fn nulls_carry_their_type() {
    let types = [
        (IonType::Null, 0x0F),
        (IonType::Bool, 0x1F),
        (IonType::Int, 0x2F),
        (IonType::Float, 0x4F),
        (IonType::Decimal, 0x5F),
        (IonType::Timestamp, 0x6F),
        (IonType::Symbol, 0x7F),
        (IonType::String, 0x8F),
        (IonType::Clob, 0x9F),
        (IonType::Blob, 0xAF),
        (IonType::List, 0xBF),
        (IonType::SExp, 0xCF),
        (IonType::Struct, 0xDF),
    ];
    for (ion_type, byte) in types {
        assert_eq!(staged(|writer| writer.write_null(ion_type)), [byte]);
    }
}

#[test]
fn bools_are_one_byte() {
    assert_eq!(staged(|writer| writer.write_bool(false)), [0x10]);
    assert_eq!(staged(|writer| writer.write_bool(true)), [0x11]);
}

#[test]
fn strings_take_a_var_uint_length_beyond_thirteen_bytes() {
    assert_eq!(
        staged(|writer| writer.write_string("foo")),
        [0x83, 0x66, 0x6F, 0x6F]
    );
    let mut expected = vec![0x8E, 0x8E];
    expected.extend_from_slice(b"fourteen bytes");
    assert_eq!(staged(|writer| writer.write_string("fourteen bytes")), expected);
}

#[test]
fn symbols_are_written_as_symbol_ids() {
    assert_eq!(staged(|writer| writer.write_symbol_id(0)), [0x70]);
    assert_eq!(staged(|writer| writer.write_symbol_id(4)), [0x71, 0x04]);
    assert_eq!(
        staged(|writer| writer.write_symbol_id(256)),
        [0x72, 0x01, 0x00]
    );
}

#[test]
fn lobs_keep_their_bytes() {
    assert_eq!(
        staged(|writer| writer.write_clob(&[1, 2, 3])),
        [0x93, 1, 2, 3]
    );
    assert_eq!(staged(|writer| writer.write_blob(&[1, 2])), [0xA2, 1, 2]);
    assert_eq!(
        staged(|writer| writer.write_lob(&[1, 2], 0x90)),
        [0x92, 1, 2]
    );
}

#[test]
fn write_lob_writes_under_the_type_descriptor_it_is_given() {
    assert_eq!(
        staged(|writer| writer.write_lob(&[1, 2], 0x80)),
        [0x82, 1, 2]
    );
    assert_eq!(
        staged(|writer| writer.write_lob(&[7; 14], 0xA0))[..2],
        [0xAE, 0x8E]
    );
}

#[test]
fn timestamps_hold_offset_and_fields() {
    // The offset is unknown: negative zero.
    assert_eq!(
        staged(|writer| writer.write_timestamp(&Timestamp::with_ymd(2023, 11, 9))),
        [0x65, 0xC0, 0x0F, 0xE7, 0x8B, 0x89]
    );
    assert_eq!(
        staged(|writer| writer.write_timestamp(&Timestamp::with_year(2023))),
        [0x63, 0xC0, 0x0F, 0xE7]
    );
    assert_eq!(
        staged(|writer| writer
            .write_timestamp(&Timestamp::with_ymd_hms(2000, 1, 1, 0, 0, 0, Some(0)))),
        [0x68, 0x80, 0x0F, 0xD0, 0x81, 0x81, 0x80, 0x80, 0x80]
    );
}

#[test]
fn text_symbol_is_refused_by_the_raw_writer() {
    let arena = Bump::new();
    let mut writer = LazyRawBinaryWriter_1_0::new(&arena, Vec::new()).unwrap();
    assert_eq!(
        writer
            .value_writer()
            .write_symbol(RawSymbolTokenRef::Text("foo")),
        Err(IonError::IllegalOperation)
    );
    assert!(writer.staged().is_empty());
}

#[test]
fn struct_field_with_text_name_is_an_encoding_error() {
    let arena = Bump::new();
    let mut writer = LazyRawBinaryWriter_1_0::new(&arena, Vec::new()).unwrap();
    {
        let mut struct_ = writer.value_writer().struct_writer();
        let result = struct_.field_writer(RawSymbolTokenRef::Text("foo"));
        assert!(matches!(result, Err(IonError::Encoding)));
        // Nothing was staged for the field, and the struct was never ended.
        assert!(struct_.container_writer.buffer().is_empty());
    }
    assert!(writer.staged().is_empty());
    writer.flush().unwrap();
    assert_eq!(writer.output().as_slice(), &[0xE0, 0x01, 0x00, 0xEA]);
}

#[test]
fn containers_longer_than_thirteen_bytes_take_a_var_uint_length() {
    let bytes = staged(|writer| {
        let mut list = writer.list_writer();
        for _ in 0..7 {
            list.value_writer().write_i64(1)?;
        }
        list.end()
    });
    let mut expected = vec![0xBE, 0x8E];
    for _ in 0..7 {
        expected.extend_from_slice(&[0x21, 0x01]);
    }
    assert_eq!(bytes, expected);
}

#[test]
fn container_of_up_to_thirteen_bytes_has_its_length_in_the_header() {
    // A field name without a value leaves a struct body of one byte.
    let bytes = staged(|writer| {
        let mut struct_ = writer.struct_writer();
        let _ = struct_.field_writer(RawSymbolTokenRef::SymbolId(4))?;
        struct_.end()
    });
    assert_eq!(bytes, [0xD1, 0x84]);
    // Thirteen bytes are the most that the header holds.
    let bytes = staged(|writer| {
        let mut list = writer.list_writer();
        list.value_writer().write_string("0123456789ab")?;
        list.end()
    });
    assert_eq!(bytes[0], 0xBD);
    assert_eq!(bytes.len(), 14);
}

#[test]
fn annotations_wrap_the_value() {
    let arena = Bump::new();
    let mut writer = LazyRawBinaryWriter_1_0::new(&arena, Vec::new()).unwrap();
    writer
        .annotated_value_writer()
        .with_annotations(&[4, 5])
        .write_i64(1)
        .unwrap();
    assert_eq!(
        writer.staged(),
        &[0xE5, 0x82, 0x84, 0x85, 0x21, 0x01]
    );
    writer
        .annotated_value_writer()
        .without_annotations()
        .write_i64(1)
        .unwrap();
    assert_eq!(
        writer.staged(),
        &[0xE5, 0x82, 0x84, 0x85, 0x21, 0x01, 0x21, 0x01]
    );
}

#[test]
fn annotated_values_read_back_with_their_annotations() {
    let arena = Bump::new();
    let mut writer = LazyRawBinaryWriter_1_0::new(&arena, Vec::new()).unwrap();
    let mut list = writer
        .annotated_value_writer()
        .with_annotations(&[4, 7])
        .list_writer();
    list.value_writer().write_string("foo").unwrap();
    list.end().unwrap();
    writer.flush().unwrap();

    let mut reader = ReaderBuilder::new().build(writer.output()).unwrap();
    assert_eq!(reader.next_user_item().unwrap(), UserStreamItem::Value(IonType::List));
    let annotations = reader.annotations().unwrap();
    let texts: Vec<Option<&str>> = annotations.iter().map(|symbol| symbol.text()).collect();
    assert_eq!(texts, vec![Some("name"), Some("symbols")]);
    assert_eq!(read_current(&mut reader).unwrap(), Value::List(vec![Value::String("foo".to_string())]));
}

#[test]
fn flush_moves_staged_bytes_to_the_output() {
    let arena = Bump::new();
    let mut writer = LazyRawBinaryWriter_1_0::new(&arena, vec![0xAA]).unwrap();
    writer.value_writer().write_bool(true).unwrap();
    assert_eq!(writer.output().as_slice(), &[0xAA, 0xE0, 0x01, 0x00, 0xEA]);
    assert_eq!(writer.staged(), &[0x11]);
    writer.flush().unwrap();
    assert!(writer.staged().is_empty());
    writer.value_writer().write_bool(false).unwrap();
    writer.flush().unwrap();
    assert_eq!(
        writer.into_output(),
        vec![0xAA, 0xE0, 0x01, 0x00, 0xEA, 0x11, 0x10]
    );
}

fn nest(writer: BinaryValueWriter_1_0, depth: usize) -> IonResult<()> {
    let mut list = writer.list_writer();
    if depth > 1 {
        nest(list.value_writer(), depth - 1)?;
    }
    list.end()
}

#[test]
fn a_thousand_nested_lists_are_read_without_recursion() {
    let arena = Bump::new();
    let mut writer = LazyRawBinaryWriter_1_0::new(&arena, Vec::new()).unwrap();
    nest(writer.value_writer(), 1000).unwrap();
    writer.flush().unwrap();

    let mut reader = ReaderBuilder::new().build(writer.output()).unwrap();
    let mut depth = 0;
    while reader.next_user_item().unwrap() == UserStreamItem::Value(IonType::List) {
        reader.step_in().unwrap();
        depth += 1;
    }
    assert_eq!(depth, 1000);
    assert_eq!(reader.depth(), 1000);
    for _ in 0..1000 {
        reader.step_out().unwrap();
        assert_eq!(reader.next_user_item().unwrap(), UserStreamItem::Nothing);
    }
    assert_eq!(reader.depth(), 0);
    assert_eq!(reader.step_out(), Err(IonError::IllegalOperation));
}

#[test]
fn decimals_read_back_as_they_were_written() -> IonResult<()> {
    let decimals = [
        Decimal::from_i64(0, 0),
        Decimal::from_i64(105, -2),
        Decimal::from_i64(-7, 300),
        Decimal::new(true, Int::from(0), -1),
        Decimal::new(
            false,
            Int::from_sign_and_magnitude(false, &[0xFF; 20]),
            -40,
        ),
    ];
    let arena = Bump::new();
    let mut writer = LazyRawBinaryWriter_1_0::new(&arena, Vec::new())?;
    for decimal in &decimals {
        writer.value_writer().write_decimal(decimal)?;
    }
    writer.flush()?;
    let mut reader = ReaderBuilder::new().build(writer.output())?;
    for decimal in decimals {
        assert_eq!(reader.next_user_item()?, UserStreamItem::Value(IonType::Decimal));
        assert_eq!(reader.read_value()?.expect_decimal()?, decimal);
    }
    assert_eq!(reader.next_user_item()?, UserStreamItem::Nothing);
    Ok(())
}

#[test]
fn values_that_cannot_be_written_leave_no_bytes() {
    let arena = Bump::new();
    let mut writer = LazyRawBinaryWriter_1_0::new(&arena, Vec::new()).unwrap();
    let decimal = Decimal::from_i64(1, -(1i64 << 62));
    assert_eq!(
        writer.value_writer().write_decimal(&decimal),
        Err(IonError::Encoding)
    );
    let mut timestamp = Timestamp::with_ymd_hms(2000, 1, 1, 0, 0, 0, None);
    timestamp.fractional_seconds = Some(decimal);
    assert_eq!(
        writer.value_writer().write_timestamp(&timestamp),
        Err(IonError::Encoding)
    );
    assert!(writer.staged().is_empty());
}

#[test]
fn big_values_read_back_as_they_were_written() -> IonResult<()> {
    let big = Int::from_sign_and_magnitude(true, &[0x7F; 300]);
    let text = "x".repeat(20_000);
    let arena = Bump::new();
    let mut writer = LazyRawBinaryWriter_1_0::new(&arena, Vec::new())?;
    writer.value_writer().write_int(&big)?;
    writer.value_writer().write_string(&text)?;
    writer.value_writer().write_clob(text.as_bytes())?;
    writer.value_writer().write_f64(f64::NAN.to_bits())?;
    writer.value_writer().write_f64(f64::NEG_INFINITY.to_bits())?;
    writer.flush()?;
    let mut reader = ReaderBuilder::new().build(writer.output())?;
    reader.next_user_item()?;
    assert_eq!(reader.read_value()?.expect_int()?, big);
    reader.next_user_item()?;
    assert_eq!(reader.read_value()?.expect_string()?, &text);
    reader.next_user_item()?;
    assert_eq!(reader.read_value()?.expect_clob()?, text.as_bytes());
    reader.next_user_item()?;
    assert_eq!(
        reader.read_value()?.expect_float()?,
        FloatBits::Double(f64::NAN.to_bits())
    );
    reader.next_user_item()?;
    assert_eq!(
        reader.read_value()?.expect_float()?,
        FloatBits::Double(f64::NEG_INFINITY.to_bits())
    );
    Ok(())
}

#[test]
fn arena_is_used_again_after_a_reset() -> IonResult<()> {
    let mut arena = new_arena();
    let mut output = Vec::new();
    for round in 0..3 {
        let mut writer = LazyRawBinaryWriter_1_0::new(&arena, output)?;
        write_one_two_three(writer.value_writer())?;
        writer.value_writer().write_i64(round)?;
        writer.flush()?;
        output = writer.into_output();
        reset_arena(&mut arena);
    }
    let values = read_all(&output)?;
    assert_eq!(
        values,
        vec![
            one_two_three(),
            Value::Int(0),
            one_two_three(),
            Value::Int(1),
            one_two_three(),
            Value::Int(2)
        ]
    );
    Ok(())
}
