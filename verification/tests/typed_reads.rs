use ion_core::lazy::raw_value_ref::RawValueRef;
use ion_core::raw_reader::{RawBinaryReader, RawStreamItem};
use ion_core::raw_symbol_token_ref::RawSymbolTokenRef;
use ion_core::reader::{ReaderBuilder, StreamItem, UserStreamItem};
use ion_core::result::{IonError, IonResult};
use ion_core::symbol::Symbol;
use ion_core::types::decimal::Decimal;
use ion_core::types::integer::{FloatBits, Int};
use ion_core::types::timestamp::Timestamp;
use ion_core::types::value_ref::{ReadRawValueRef, ReadValueRef, ValueRef};
use ion_core::types::IonType;

// One value of every type, after the version marker.
const ONE_OF_EACH: &[u8] = &[
    0xE0, 0x01, 0x00, 0xEA, // $ion_1_0
    0x2F, // null.int
    0x11, // true
    0x21, 0x07, // 7
    0x44, 0x3F, 0x80, 0x00, 0x00, // 1e0 in four bytes
    0x52, 0xC1, 0x0F, // 1.5
    0x63, 0xC0, 0x0F, 0xE5, // 2021T, with an unknown offset
    0x83, 0x66, 0x6F, 0x6F, // "foo"
    0x71, 0x04, // $4, which is `name`
    0x92, 0x61, 0x62, // {{"ab"}}
    0xA2, 0x01, 0x02, // a blob of two bytes
    0xB2, 0x21, 0x01, // [1]
    0xC0, // ()
    0xD0, // {}
];

#[test]
fn raw_reader_reads_each_type_as_itself() -> IonResult<()> {
    let mut reader = RawBinaryReader::new(ONE_OF_EACH);
    assert_eq!(reader.next()?, RawStreamItem::VersionMarker(1, 0));
    assert_eq!(reader.next()?, RawStreamItem::Null(IonType::Int));
    assert_eq!(reader.read_null()?, IonType::Int);
    reader.next()?;
    assert!(reader.read_bool()?);
    reader.next()?;
    assert_eq!(reader.read_int()?, Int::from(7));
    reader.next()?;
    assert_eq!(reader.read_float()?, FloatBits::Single(0x3F80_0000));
    reader.next()?;
    assert_eq!(reader.read_decimal()?, Decimal::from_i64(15, -1));
    reader.next()?;
    assert_eq!(reader.read_timestamp()?, Timestamp::with_year(2021));
    reader.next()?;
    assert_eq!(reader.read_string()?, "foo");
    reader.next()?;
    assert_eq!(reader.read_symbol()?, RawSymbolTokenRef::SymbolId(4));
    reader.next()?;
    assert_eq!(reader.read_clob()?, &[0x61, 0x62]);
    reader.next()?;
    assert_eq!(reader.read_blob()?, &[0x01, 0x02]);
    reader.next()?;
    let list = reader.read_list()?;
    assert_eq!(list.iter().collect()?.len(), 1);
    reader.next()?;
    let sexp = reader.read_sexp()?;
    assert!(sexp.iter().collect()?.is_empty());
    reader.next()?;
    let structure = reader.read_struct()?;
    assert!(structure.iter().collect()?.is_empty());
    assert_eq!(reader.next()?, RawStreamItem::Nothing);
    Ok(())
}

#[test]
fn user_reader_reads_each_type_as_itself() -> IonResult<()> {
    let mut reader = ReaderBuilder::new().build(ONE_OF_EACH)?;
    assert_eq!(reader.next_user_item()?, UserStreamItem::Null(IonType::Int));
    assert_eq!(reader.read_null()?, IonType::Int);
    reader.next_user_item()?;
    assert!(reader.read_bool()?);
    reader.next_user_item()?;
    assert_eq!(reader.read_int()?, Int::from(7));
    reader.next_user_item()?;
    assert_eq!(reader.read_float()?, FloatBits::Single(0x3F80_0000));
    reader.next_user_item()?;
    assert_eq!(reader.read_decimal()?, Decimal::from_i64(15, -1));
    reader.next_user_item()?;
    assert_eq!(reader.read_timestamp()?, Timestamp::with_year(2021));
    reader.next_user_item()?;
    assert_eq!(reader.read_string()?, "foo");
    reader.next_user_item()?;
    assert_eq!(reader.read_symbol()?, Symbol::owned("name"));
    reader.next_user_item()?;
    assert_eq!(reader.read_clob()?, &[0x61, 0x62]);
    reader.next_user_item()?;
    assert_eq!(reader.read_blob()?, &[0x01, 0x02]);
    reader.next_user_item()?;
    assert!(reader.read_list().is_ok());
    reader.next_user_item()?;
    assert!(reader.read_sexp().is_ok());
    reader.next_user_item()?;
    assert!(reader.read_struct().is_ok());
    assert_eq!(reader.next_user_item()?, UserStreamItem::Nothing);
    Ok(())
}

#[test]
fn reading_a_value_as_another_type_is_an_illegal_operation() -> IonResult<()> {
    let data = [0xE0, 0x01, 0x00, 0xEA, 0x11, 0x21, 0x07];
    let mut raw = RawBinaryReader::new(&data);
    raw.next()?;
    // Over the version marker there is nothing to read.
    assert_eq!(raw.read_bool(), Err(IonError::IllegalOperation));
    raw.next()?;
    assert_eq!(raw.read_int(), Err(IonError::IllegalOperation));
    assert_eq!(raw.read_null(), Err(IonError::IllegalOperation));
    assert_eq!(raw.read_string(), Err(IonError::IllegalOperation));
    assert!(matches!(raw.read_list(), Err(IonError::IllegalOperation)));
    assert_eq!(raw.read_bool(), Ok(true));

    let mut reader = ReaderBuilder::new().build(&data)?;
    assert_eq!(reader.read_bool(), Err(IonError::IllegalOperation));
    reader.next_user_item()?;
    assert_eq!(reader.read_int(), Err(IonError::IllegalOperation));
    assert_eq!(reader.read_symbol(), Err(IonError::IllegalOperation));
    assert!(matches!(
        reader.read_struct(),
        Err(IonError::IllegalOperation)
    ));
    assert_eq!(reader.read_bool(), Ok(true));
    reader.next_user_item()?;
    assert_eq!(reader.read_bool(), Err(IonError::IllegalOperation));
    assert_eq!(reader.read_int(), Ok(Int::from(7)));
    Ok(())
}

#[test]
fn typed_reads_pass_decoding_errors_on() -> IonResult<()> {
    // A string that is not UTF-8, and a symbol that the table does not hold.
    let data = [0xE0, 0x01, 0x00, 0xEA, 0x82, 0xC3, 0x28, 0x71, 0x63];
    let mut raw = RawBinaryReader::new(&data);
    raw.next()?;
    raw.next()?;
    assert_eq!(raw.read_string(), Err(IonError::Decoding));
    assert_eq!(raw.read_bool(), Err(IonError::Decoding));
    raw.next()?;
    assert_eq!(raw.read_symbol(), Ok(RawSymbolTokenRef::SymbolId(99)));

    let mut reader = ReaderBuilder::new().build(&data)?;
    reader.next_user_item()?;
    assert_eq!(reader.read_string(), Err(IonError::Decoding));
    reader.next_user_item()?;
    assert_eq!(reader.read_symbol(), Err(IonError::Decoding));
    Ok(())
}

#[test]
fn value_handles_read_by_type() -> IonResult<()> {
    let data = [0xE0, 0x01, 0x00, 0xEA, 0x21, 0x07];
    let mut reader = ReaderBuilder::new().build(&data)?;
    let StreamItem::Value(mut value) = reader.next()? else {
        panic!("expected a value");
    };
    assert_eq!(value.read_int(), Ok(Int::from(7)));
    assert_eq!(value.read_bool(), Err(IonError::IllegalOperation));
    Ok(())
}

#[test]
fn expecting_another_type_is_an_illegal_operation() {
    assert_eq!(ValueRef::Bool(true).expect_bool(), Ok(true));
    assert_eq!(
        ValueRef::Bool(true).expect_int(),
        Err(IonError::IllegalOperation)
    );
    assert_eq!(
        ValueRef::Int(Int::from(1)).expect_null(),
        Err(IonError::IllegalOperation)
    );
    // An empty list.
    let data = [0xE0, 0x01, 0x00, 0xEA, 0xB0];
    let mut reader = ReaderBuilder::new().build(&data).unwrap();
    reader.next_user_item().unwrap();
    assert!(matches!(
        reader.read_value().unwrap().expect_struct(),
        Err(IonError::IllegalOperation)
    ));
    assert!(matches!(
        reader.read_value().unwrap().expect_int(),
        Err(IonError::IllegalOperation)
    ));
    assert!(reader.read_value().unwrap().expect_list().is_ok());
    assert_eq!(RawValueRef::Bool(false).expect_bool(), Ok(false));
    assert_eq!(
        RawValueRef::Bool(false).expect_string(),
        Err(IonError::IllegalOperation)
    );
    assert_eq!(
        RawValueRef::Null(IonType::Bool).expect_bool(),
        Err(IonError::IllegalOperation)
    );
}
