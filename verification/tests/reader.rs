use ion_core::raw_reader::{RawBinaryReader, RawStreamItem};
use ion_core::raw_symbol_token_ref::RawSymbolTokenRef;
use ion_core::reader::{
    Reader, ReaderBuilder, StreamItem, SystemStreamItem, UserReader, UserStreamItem,
};
use ion_core::result::{IonError, IonResult};
use ion_core::symbol_ref::SymbolRef;
use ion_core::types::integer::Int;
use ion_core::types::value_ref::ValueRef;
use ion_core::types::IonType;

const IVM: [u8; 4] = [0xE0, 0x01, 0x00, 0xEA];

// Create a growable byte vector that starts with the Ion 1.0 version marker
fn ion_data(bytes: &[u8]) -> Vec<u8> {
    let mut data = Vec::new();
    data.extend_from_slice(&IVM);
    data.extend_from_slice(bytes);
    data
}

fn ion_reader_for(data: &[u8]) -> Reader {
    ReaderBuilder::new().build(data).unwrap()
}

const EXAMPLE_STREAM: &[u8] = &[
    // $ion_symbol_table::{imports: $ion_symbol_table, symbols: ["foo", "bar", "baz"]}
    0xEE, // Var len annotations
    0x92, // Annotations + Value length: 21 bytes
    0x81, // Annotations length: 1
    0x83, // Annotation 3 ('$ion_symbol_table')
    0xDE, // Var len struct
    0x8E, // Length: 14 bytes
    0x87, // Field ID 7 ('symbols')
    0xBC, // 12-byte List
    0x83, 0x66, 0x6f, 0x6f, // "foo"
    0x83, 0x62, 0x61, 0x72, // "bar"
    0x83, 0x62, 0x61, 0x7a, // "baz"
    // System: {$10: 1, $11: 2, $12: 3}
    // User: {foo: 1, bar: 2, baz: 3}
    0xD9, // 9-byte struct
    0x8A, // Field ID 10
    0x21, 0x01, // Integer 1
    0x8B, // Field ID 11
    0x21, 0x02, // Integer 2
    0x8C, // Field ID 12
    0x21, 0x03, // Integer 3
];

#[test]
fn test_read_struct() -> IonResult<()> {
    let data = ion_data(EXAMPLE_STREAM);
    let mut reader = ion_reader_for(&data);

    if let StreamItem::Value(mut v) = reader.next()? {
        if let ValueRef::Struct(s) = v.read()? {
            let mut struct_reader = s.reader()?;

            let mut field1 = struct_reader
                .next_field()?
                .expect("expected int field 'foo'");
            assert_eq!(field1.read_name()?, SymbolRef::with_text("foo"));
            assert!(matches!(
                field1.read_value()?,
                ValueRef::Int(i) if i == Int::from(1)
            ));

            let mut field2 = struct_reader
                .next_field()?
                .expect("expected int field 'bar'");
            assert_eq!(field2.read_name()?, SymbolRef::with_text("bar"));
            assert!(matches!(
                field2.read_value()?,
                ValueRef::Int(i) if i == Int::from(2)
            ));

            let mut field3 = struct_reader
                .next_field()?
                .expect("expected int field 'baz'");
            assert_eq!(field3.read_name()?, SymbolRef::with_text("baz"));
            assert!(matches!(
                field3.read_value()?,
                ValueRef::Int(i) if i == Int::from(3)
            ));
        }
    } else {
        panic!("expected a struct");
    }

    Ok(())
}

#[test]
fn struct_is_walked_by_stepping_in() -> IonResult<()> {
    let data = ion_data(EXAMPLE_STREAM);
    let mut reader = ion_reader_for(&data);
    assert_eq!(reader.next_user_item()?, UserStreamItem::Value(IonType::Struct));
    assert!(matches!(reader.read_value()?, ValueRef::Struct(_)));
    reader.step_in()?;
    for (name, number) in [("foo", 1), ("bar", 2), ("baz", 3)] {
        assert_eq!(reader.next_user_item()?, UserStreamItem::Value(IonType::Int));
        assert_eq!(reader.field_name()?, SymbolRef::with_text(name));
        assert_eq!(reader.read_value()?.expect_int()?, Int::from(number));
    }
    assert_eq!(reader.next_user_item()?, UserStreamItem::Nothing);
    reader.step_out()?;
    assert_eq!(reader.next_user_item()?, UserStreamItem::Nothing);
    Ok(())
}

#[test]
fn one_top_level_int_zero() -> IonResult<()> {
    let data = [0xE0, 0x01, 0x00, 0xEA, 0x20];
    let mut reader = ion_reader_for(&data);
    assert_eq!(reader.next_user_item()?, UserStreamItem::Value(IonType::Int));
    assert_eq!(reader.read_value()?.expect_int()?, Int::from(0));
    assert_eq!(reader.next_user_item()?, UserStreamItem::Nothing);
    assert_eq!(reader.next_user_item()?, UserStreamItem::Nothing);
    Ok(())
}

#[test]
fn symbol_table_is_processed_transparently() -> IonResult<()> {
    let data = ion_data(EXAMPLE_STREAM);
    let mut reader = ion_reader_for(&data);
    assert_eq!(reader.symbol_table().len(), 10);
    assert_eq!(reader.next_user_item()?, UserStreamItem::Value(IonType::Struct));
    assert_eq!(reader.symbol_table().len(), 13);
    assert_eq!(reader.symbol_table().text_for(10), Some("foo"));
    assert_eq!(reader.symbol_table().text_for(11), Some("bar"));
    assert_eq!(reader.symbol_table().text_for(12), Some("baz"));
    Ok(())
}

#[test]
fn system_level_shows_markers_and_symbol_tables() -> IonResult<()> {
    let data = ion_data(EXAMPLE_STREAM);
    let mut reader = UserReader::new(RawBinaryReader::new(&data));
    assert_eq!(
        reader.next_system_item()?,
        SystemStreamItem::VersionMarker(1, 0)
    );
    assert_eq!(
        reader.next_system_item()?,
        SystemStreamItem::SymbolTableValue(IonType::Struct)
    );
    assert_eq!(
        reader.next_system_item()?,
        SystemStreamItem::Value(IonType::Struct)
    );
    assert_eq!(reader.next_system_item()?, SystemStreamItem::Nothing);
    Ok(())
}

#[test]
fn version_marker_resets_the_symbol_table() -> IonResult<()> {
    let mut data = ion_data(EXAMPLE_STREAM);
    data.extend_from_slice(&IVM);
    data.extend_from_slice(&[0x71, 0x04]);
    let mut reader = ion_reader_for(&data);
    assert_eq!(reader.next_user_item()?, UserStreamItem::Value(IonType::Struct));
    assert_eq!(reader.symbol_table().len(), 13);
    assert_eq!(reader.next_user_item()?, UserStreamItem::Value(IonType::Symbol));
    assert_eq!(reader.symbol_table().len(), 10);
    assert_eq!(reader.symbol_table().sid_for("foo"), None);
    assert_eq!(
        reader.read_value()?.expect_symbol()?.text(),
        Some("name")
    );
    Ok(())
}

#[test]
fn symbol_table_without_imports_resets_first() -> IonResult<()> {
    // $ion_symbol_table::{symbols: ["a"]} twice, then $10
    let table = [0xE7, 0x81, 0x83, 0xD4, 0x87, 0xB2, 0x81, 0x61];
    let mut data = ion_data(&table);
    data.extend_from_slice(&table);
    data.extend_from_slice(&[0x71, 0x0A]);
    let mut reader = ion_reader_for(&data);
    assert_eq!(reader.next_user_item()?, UserStreamItem::Value(IonType::Symbol));
    assert_eq!(reader.symbol_table().len(), 11);
    assert_eq!(reader.read_value()?.expect_symbol()?.text(), Some("a"));
    Ok(())
}

#[test]
fn symbol_table_that_imports_itself_appends() -> IonResult<()> {
    // $ion_symbol_table::{symbols: ["a"]}
    let first = [0xE7, 0x81, 0x83, 0xD4, 0x87, 0xB2, 0x81, 0x61];
    // $ion_symbol_table::{imports: $ion_symbol_table, symbols: ["b", 7, null.string]}
    let second = [
        0xED, 0x81, 0x83, 0xDA, 0x86, 0x71, 0x03, 0x87, 0xB5, 0x81, 0x62, 0x21, 0x07, 0x8F,
    ];
    let mut data = ion_data(&first);
    data.extend_from_slice(&second);
    data.extend_from_slice(&[0x71, 0x0B]);
    let mut reader = ion_reader_for(&data);
    assert_eq!(reader.next_user_item()?, UserStreamItem::Value(IonType::Symbol));
    let table = reader.symbol_table();
    assert_eq!(table.len(), 14);
    assert_eq!(table.text_for(10), Some("a"));
    assert_eq!(table.text_for(11), Some("b"));
    // Entries that are no strings take an ID and have no text.
    assert_eq!(table.text_for(12), None);
    assert_eq!(table.text_for(13), None);
    assert_eq!(reader.read_value()?.expect_symbol()?.text(), Some("b"));
    Ok(())
}

#[test]
fn struct_with_another_first_annotation_is_a_user_value() -> IonResult<()> {
    // $4::$3::{}
    let data = ion_data(&[0xE4, 0x82, 0x84, 0x83, 0xD0]);
    let mut reader = ion_reader_for(&data);
    assert_eq!(reader.next_user_item()?, UserStreamItem::Value(IonType::Struct));
    let texts: Vec<Option<String>> = reader
        .annotations()?
        .iter()
        .map(|symbol| symbol.text().map(|text| text.to_string()))
        .collect();
    assert_eq!(
        texts,
        vec![
            Some("name".to_string()),
            Some("$ion_symbol_table".to_string())
        ]
    );
    Ok(())
}

#[test]
fn symbol_table_inside_a_container_is_a_user_value() -> IonResult<()> {
    // [$ion_symbol_table::{symbols: ["a"]}]
    let data = ion_data(&[0xB8, 0xE7, 0x81, 0x83, 0xD4, 0x87, 0xB2, 0x81, 0x61]);
    let mut reader = ion_reader_for(&data);
    assert_eq!(reader.next_user_item()?, UserStreamItem::Value(IonType::List));
    reader.step_in()?;
    assert_eq!(reader.next_user_item()?, UserStreamItem::Value(IonType::Struct));
    assert_eq!(reader.symbol_table().len(), 10);
    Ok(())
}

#[test]
fn unknown_symbol_ids_are_decoding_errors() -> IonResult<()> {
    let data = ion_data(&[0x71, 0x63, 0x70, 0xD3, 0xE3, 0x21, 0x01]);
    let mut reader = ion_reader_for(&data);
    assert_eq!(reader.next_user_item()?, UserStreamItem::Value(IonType::Symbol));
    assert!(matches!(reader.read_value(), Err(IonError::Decoding)));
    // Symbol ID 0 is in every table and has no text.
    assert_eq!(reader.next_user_item()?, UserStreamItem::Value(IonType::Symbol));
    assert_eq!(reader.read_value()?.expect_symbol()?.text(), None);
    assert_eq!(reader.next_user_item()?, UserStreamItem::Value(IonType::Struct));
    reader.step_in()?;
    assert_eq!(reader.next_user_item()?, UserStreamItem::Value(IonType::Int));
    assert_eq!(reader.field_name(), Err(IonError::Decoding));
    Ok(())
}

#[test]
fn builder_tells_binary_ion_from_other_input() {
    assert!(ReaderBuilder::new().build(&IVM).is_ok());
    assert!(matches!(
        ReaderBuilder::new().build(&[0xE0, 0x01, 0x01, 0xEA]),
        Err(IonError::Decoding)
    ));
    assert!(matches!(
        ReaderBuilder::new().build(b"1 2 3"),
        Err(IonError::IllegalOperation)
    ));
    assert!(matches!(
        ReaderBuilder::new().build(&[]),
        Err(IonError::IllegalOperation)
    ));
}

#[test]
fn step_out_at_the_top_level_is_an_illegal_operation() {
    let data = ion_data(&[0x20]);
    let mut reader = ion_reader_for(&data);
    assert_eq!(reader.step_out(), Err(IonError::IllegalOperation));
    assert_eq!(reader.next_user_item().unwrap(), UserStreamItem::Value(IonType::Int));
    assert_eq!(reader.step_out(), Err(IonError::IllegalOperation));
    assert_eq!(reader.depth(), 0);
}

#[test]
fn step_in_needs_a_container() {
    let data = ion_data(&[0x20, 0xBF, 0xB0]);
    let mut reader = ion_reader_for(&data);
    // Positioned over nothing.
    assert_eq!(reader.step_in(), Err(IonError::IllegalOperation));
    // Positioned over a scalar.
    assert_eq!(reader.next_user_item().unwrap(), UserStreamItem::Value(IonType::Int));
    assert_eq!(reader.step_in(), Err(IonError::IllegalOperation));
    // Positioned over a null list.
    assert_eq!(reader.next_user_item().unwrap(), UserStreamItem::Null(IonType::List));
    assert!(reader.is_null());
    assert_eq!(reader.step_in(), Err(IonError::IllegalOperation));
    // Positioned over an empty list.
    assert_eq!(reader.next_user_item().unwrap(), UserStreamItem::Value(IonType::List));
    assert_eq!(reader.step_in(), Ok(()));
    assert_eq!(reader.depth(), 1);
    assert_eq!(reader.parent_type(), Some(IonType::List));
    assert_eq!(reader.ion_type(), None);
    assert_eq!(reader.next_user_item().unwrap(), UserStreamItem::Nothing);
}

#[test]
fn step_out_skips_what_is_left_of_the_container() -> IonResult<()> {
    // [1, [2, 3], 4] 5
    let data = ion_data(&[
        0xB9, 0x21, 0x01, 0xB4, 0x21, 0x02, 0x21, 0x03, 0x21, 0x04, 0x21, 0x05,
    ]);
    let mut reader = ion_reader_for(&data);
    assert_eq!(reader.next_user_item()?, UserStreamItem::Value(IonType::List));
    reader.step_in()?;
    assert_eq!(reader.next_user_item()?, UserStreamItem::Value(IonType::Int));
    assert_eq!(reader.next_user_item()?, UserStreamItem::Value(IonType::List));
    reader.step_in()?;
    assert_eq!(reader.depth(), 2);
    assert_eq!(reader.next_user_item()?, UserStreamItem::Value(IonType::Int));
    assert_eq!(reader.read_value()?.expect_int()?, Int::from(2));
    // Leave 3 unread.
    reader.step_out()?;
    assert_eq!(reader.next_user_item()?, UserStreamItem::Value(IonType::Int));
    assert_eq!(reader.read_value()?.expect_int()?, Int::from(4));
    reader.step_out()?;
    assert_eq!(reader.depth(), 0);
    assert_eq!(reader.next_user_item()?, UserStreamItem::Value(IonType::Int));
    assert_eq!(reader.read_value()?.expect_int()?, Int::from(5));
    Ok(())
}

#[test]
fn next_skips_a_container_that_was_not_stepped_into() -> IonResult<()> {
    let data = ion_data(&[0xB4, 0x21, 0x02, 0x21, 0x03, 0x21, 0x05]);
    let mut reader = ion_reader_for(&data);
    assert_eq!(reader.next_user_item()?, UserStreamItem::Value(IonType::List));
    assert_eq!(reader.next_user_item()?, UserStreamItem::Value(IonType::Int));
    assert_eq!(reader.read_value()?.expect_int()?, Int::from(5));
    Ok(())
}

#[test]
fn raw_reader_leaves_symbols_as_ids() -> IonResult<()> {
    let data = ion_data(EXAMPLE_STREAM);
    let mut reader = RawBinaryReader::new(&data);
    assert_eq!(reader.current(), RawStreamItem::Nothing);
    assert_eq!(reader.ion_type(), None);
    assert_eq!(reader.next()?, RawStreamItem::VersionMarker(1, 0));
    assert_eq!(reader.ion_version(), (1, 0));
    // The symbol table is a value like any other.
    assert_eq!(reader.next()?, RawStreamItem::Value(IonType::Struct));
    assert_eq!(reader.annotations()?, vec![3]);
    assert_eq!(reader.next()?, RawStreamItem::Value(IonType::Struct));
    assert_eq!(reader.field_name(), Err(IonError::IllegalOperation));
    reader.step_in()?;
    assert_eq!(reader.next()?, RawStreamItem::Value(IonType::Int));
    assert_eq!(reader.field_name()?, RawSymbolTokenRef::SymbolId(10));
    assert_eq!(reader.current(), RawStreamItem::Value(IonType::Int));
    assert_eq!(reader.position(), data.len() - 6);
    Ok(())
}

#[test]
fn raw_reader_reports_incomplete_input_at_the_item() {
    let data = ion_data(&[0x21, 0x01, 0x83, 0x66]);
    let mut reader = RawBinaryReader::new(&data);
    assert_eq!(reader.next(), Ok(RawStreamItem::VersionMarker(1, 0)));
    assert_eq!(reader.next(), Ok(RawStreamItem::Value(IonType::Int)));
    assert_eq!(reader.next(), Err(IonError::Incomplete { offset: 6 }));
    assert_eq!(reader.current(), RawStreamItem::Nothing);
    assert_eq!(reader.position(), 6);
}

#[test]
fn child_that_overruns_its_container_is_malformed() {
    // A list of two bytes whose child claims three.
    let data = ion_data(&[0xB2, 0x83, 0x66, 0x6F, 0x6F]);
    let mut reader = RawBinaryReader::new(&data);
    reader.next().unwrap();
    assert_eq!(reader.next(), Ok(RawStreamItem::Value(IonType::List)));
    reader.step_in().unwrap();
    assert_eq!(reader.next(), Err(IonError::Decoding));
}

#[test]
fn nullable_value_tells_nulls_from_values() {
    assert_eq!(
        RawStreamItem::nullable_value(IonType::Int, true),
        RawStreamItem::Null(IonType::Int)
    );
    assert_eq!(
        RawStreamItem::nullable_value(IonType::Int, false),
        RawStreamItem::Value(IonType::Int)
    );
}
