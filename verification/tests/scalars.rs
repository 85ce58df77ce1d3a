use ion_core::binary::decimal::{read_decimal, write_decimal_body};
use ion_core::binary::timestamp::{read_timestamp, write_timestamp_body};
use ion_core::binary::type_descriptor::TypeDescriptor;
use ion_core::binary::uint::{decode_u64, encode_u64};
use ion_core::binary::var_int::VarInt;
use ion_core::constants::system_symbol;
use ion_core::lazy::expanded::macro_table::{MacroKind, MacroTable};
use ion_core::result::{IonError, IonResult};
use ion_core::types::decimal::Decimal;
use ion_core::types::integer::Int;
use ion_core::types::timestamp::{Precision, Timestamp};
use ion_core::types::IonType;

#[test]
fn var_int_reads_sign_and_magnitude() {
    let cases: [(&[u8], i64, bool, usize); 7] = [
        (&[0x80], 0, false, 1),
        (&[0xC0], 0, true, 1),
        (&[0x81], 1, false, 1),
        (&[0xC1], -1, true, 1),
        (&[0xBF], 63, false, 1),
        (&[0x00, 0xC0], 64, false, 2),
        (&[0x40, 0xC0], -64, true, 2),
    ];
    for (bytes, value, negative, size) in cases {
        let var_int = VarInt::read(bytes).unwrap();
        assert_eq!(var_int.value(), value, "{bytes:X?}");
        assert_eq!(var_int.is_negative(), negative, "{bytes:X?}");
        assert_eq!(var_int.size_in_bytes(), size, "{bytes:X?}");
        assert_eq!(var_int.is_negative_zero(), negative && value == 0);
    }
}

#[test]
fn var_int_round_trips() {
    let limit = 1i64 << 62;
    for value in [0, 1, -1, 63, 64, -64, 8191, 8192, limit - 1, -(limit - 1)] {
        let mut bytes = Vec::new();
        let size = VarInt::write_i64(&mut bytes, value).unwrap();
        assert_eq!(size, bytes.len());
        bytes.push(0x55);
        let read = VarInt::read(&bytes).unwrap();
        assert_eq!(read.value(), value);
        assert_eq!(read.size_in_bytes(), size);
    }
}

#[test]
fn var_int_refuses_what_it_cannot_hold() {
    let mut bytes = Vec::new();
    assert_eq!(
        VarInt::write_i64(&mut bytes, 1i64 << 62),
        Err(IonError::Encoding)
    );
    assert_eq!(
        VarInt::write_parts(&mut bytes, true, 1u64 << 62),
        Err(IonError::Encoding)
    );
    assert!(bytes.is_empty());
    // Ten bytes are one too many.
    assert_eq!(
        VarInt::read(&[0, 0, 0, 0, 0, 0, 0, 0, 0, 0x80]),
        Err(IonError::Decoding)
    );
    assert_eq!(
        VarInt::read(&[0, 0]),
        Err(IonError::Incomplete { offset: 2 })
    );
}

#[test]
fn uints_are_big_endian() {
    assert_eq!(decode_u64(&[]), 0);
    assert_eq!(decode_u64(&[0x01, 0x00]), 256);
    assert_eq!(decode_u64(&[0xFF; 8]), u64::MAX);
    let mut bytes = Vec::new();
    encode_u64(&mut bytes, 0);
    assert!(bytes.is_empty());
    encode_u64(&mut bytes, 256);
    assert_eq!(bytes, [0x01, 0x00]);
    encode_u64(&mut bytes, u64::MAX);
    assert_eq!(bytes.len(), 10);
}

#[test]
fn ints_are_normalized() {
    assert_eq!(Int::from_sign_and_magnitude(false, &[0, 0, 1]), Int::from(1));
    assert_eq!(Int::from_sign_and_magnitude(true, &[0, 0]), Int::from(0));
    assert_eq!(Int::from_u64(u64::MAX).as_i64(), None);
    assert_eq!(Int::from_i64(i64::MIN).as_i64(), Some(i64::MIN));
    assert_eq!(Int::from_i64(-5).magnitude_be_bytes(), &[5]);
    assert!(Int::from(-5).is_negative());
    assert!(Int::from(0).is_zero());
    let big = Int::from_sign_and_magnitude(true, &[1, 0, 0, 0, 0, 0, 0, 0, 0]);
    assert_eq!(big.as_i64(), None);
    assert_eq!(big.duplicate(), big);
}

#[test]
fn decimal_bodies_round_trip() -> IonResult<()> {
    let cases = [
        (Decimal::from_i64(0, 0), vec![]),
        (Decimal::from_i64(105, -2), vec![0xC2, 0x69]),
        (Decimal::from_i64(-105, 3), vec![0x83, 0xE9]),
        (Decimal::from_i64(128, 0), vec![0x80, 0x00, 0x80]),
        (Decimal::from_i64(-128, 0), vec![0x80, 0x80, 0x80]),
        (Decimal::from_i64(0, -1), vec![0xC1]),
        (Decimal::new(true, Int::from(0), 0), vec![0x80, 0x80]),
    ];
    for (decimal, expected) in cases {
        let mut bytes = Vec::new();
        write_decimal_body(&mut bytes, &decimal)?;
        assert_eq!(bytes, expected, "{decimal:?}");
        assert_eq!(read_decimal(&bytes)?, decimal);
    }
    Ok(())
}

#[test]
fn decimal_parts_are_kept() {
    let decimal = Decimal::from_i64(-105, -2);
    assert!(decimal.is_negative());
    assert_eq!(decimal.magnitude(), &Int::from(105));
    assert_eq!(decimal.exponent(), -2);
    // The sign of the magnitude is dropped.
    assert_eq!(Decimal::new(false, Int::from(-7), 1), Decimal::from_i64(7, 1));
}

#[test]
fn decimal_with_an_exponent_that_is_too_large_is_an_encoding_error() {
    let decimal = Decimal::from_i64(1, 1i64 << 62);
    let mut bytes = Vec::new();
    assert_eq!(
        write_decimal_body(&mut bytes, &decimal),
        Err(IonError::Encoding)
    );
    assert!(bytes.is_empty());
}

#[test]
fn timestamp_bodies_round_trip() -> IonResult<()> {
    let mut with_fraction = Timestamp::with_ymd_hms(2021, 2, 3, 4, 5, 6, Some(-480));
    with_fraction.fractional_seconds = Some(Decimal::from_i64(789, -3));
    let mut with_minutes = Timestamp::with_ymd_hms(2021, 2, 3, 4, 5, 0, Some(60));
    with_minutes.precision = Precision::HourAndMinute;
    let mut with_month = Timestamp::with_ymd(2021, 2, 1);
    with_month.precision = Precision::Month;
    let cases = [
        Timestamp::with_year(2021),
        with_month,
        Timestamp::with_ymd(2021, 2, 3),
        with_minutes,
        Timestamp::with_ymd_hms(2021, 2, 3, 4, 5, 6, None),
        with_fraction,
    ];
    for timestamp in cases {
        let mut bytes = Vec::new();
        write_timestamp_body(&mut bytes, &timestamp)?;
        assert_eq!(read_timestamp(&bytes)?, timestamp);
    }
    Ok(())
}

#[test]
fn timestamp_with_an_hour_and_no_minute_is_malformed() {
    // Offset 0, 2021-02-03T04
    assert_eq!(
        read_timestamp(&[0x80, 0x0F, 0xE5, 0x82, 0x83, 0x84]),
        Err(IonError::Decoding)
    );
    assert_eq!(read_timestamp(&[0x80]), Err(IonError::Decoding));
}

#[test]
fn type_descriptors_split_into_nibbles() {
    let descriptor = TypeDescriptor::new(0xBE);
    assert_eq!(descriptor.type_code(), 11);
    assert_eq!(descriptor.length_code(), 14);
    assert_eq!(descriptor.ion_type(), Some(IonType::List));
    assert!(!descriptor.is_null());
    assert!(!descriptor.is_nop());
    assert!(TypeDescriptor::new(0x00).is_nop());
    assert!(TypeDescriptor::new(0x0E).is_nop());
    assert!(!TypeDescriptor::new(0x0F).is_nop());
    assert_eq!(TypeDescriptor::new(0x0F).ion_type(), Some(IonType::Null));
    assert_eq!(TypeDescriptor::new(0x00).ion_type(), None);
    assert_eq!(TypeDescriptor::new(0x3F).ion_type(), Some(IonType::Int));
    assert!(TypeDescriptor::new(0x3F).is_null());
    assert!(TypeDescriptor::new(0xE0).is_ivm_start());
    assert!(TypeDescriptor::new(0xE3).is_annotation_wrapper());
    assert_eq!(TypeDescriptor::new(0xF0).ion_type(), None);
}

#[test]
fn ion_types_know_their_type_codes() {
    assert_eq!(IonType::Null.type_code(), 0);
    assert_eq!(IonType::Int.type_code(), 2);
    assert_eq!(IonType::Struct.type_code(), 13);
    assert!(IonType::List.is_container());
    assert!(IonType::SExp.is_container());
    assert!(IonType::Struct.is_container());
    assert!(!IonType::String.is_container());
}

#[test]
fn system_symbols_have_fixed_ids() {
    assert_eq!(system_symbol(1), "$ion");
    assert_eq!(system_symbol(3), "$ion_symbol_table");
    assert_eq!(system_symbol(6), "imports");
    assert_eq!(system_symbol(7), "symbols");
    assert_eq!(system_symbol(9), "$ion_shared_symbol_table");
}

#[test]
fn errors_name_their_kind() {
    assert_eq!(IonError::Incomplete { offset: 3 }.kind_name(), "incomplete");
    assert_eq!(IonError::Decoding.kind_name(), "decoding");
    assert_eq!(IonError::IllegalOperation.kind_name(), "illegal operation");
    assert_eq!(IonError::Encoding.kind_name(), "encoding");
    assert_eq!(IonError::Io.kind_name(), "io");
}

#[test]
fn macro_table_holds_the_system_macros() {
    let table = MacroTable::new();
    assert_eq!(table.macro_at_address(0), Some(&MacroKind::Void));
    assert_eq!(table.macro_at_address(1), Some(&MacroKind::Values));
    assert_eq!(table.macro_at_address(2), Some(&MacroKind::MakeString));
    assert_eq!(table.macro_at_address(3), None);
    assert_eq!(table.macro_with_name("void"), Some(&MacroKind::Void));
    assert_eq!(table.macro_with_name("values"), Some(&MacroKind::Values));
    assert_eq!(
        table.macro_with_name("make_string"),
        Some(&MacroKind::MakeString)
    );
    assert_eq!(table.macro_with_name("make_list"), None);
}
