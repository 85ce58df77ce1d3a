use bumpalo::Bump;
use ion_core::lazy::binary::immutable_buffer::ImmutableBuffer;
use ion_core::lazy::binary::raw::reader::LazyRawBinaryReader_1_0;
use ion_core::lazy::encoder::binary::encoding::{
    encode_annotated, encode_bool, encode_i64, encode_null, encode_string, write_header,
};
use ion_core::lazy::encoder::binary::value_writer::BinaryValueWriter_1_0;
use ion_core::lazy::encoder::binary::writer::LazyRawBinaryWriter_1_0;
use ion_core::raw_symbol_token::RawSymbolToken;
use ion_core::result::{
    decoding_error, encoding_error, illegal_operation, incomplete, IonError, IonResult,
};
use ion_core::symbol_table_directive::{read_directive, read_symbol_list};
use ion_core::types::IonType;

#[test]
fn error_helpers_build_each_kind() {
    assert_eq!(
        incomplete::<u8>(7),
        Err(IonError::Incomplete { offset: 7 })
    );
    assert_eq!(decoding_error::<u8>(), Err(IonError::Decoding));
    assert_eq!(illegal_operation::<u8>(), Err(IonError::IllegalOperation));
    assert_eq!(encoding_error::<u8>(), Err(IonError::Encoding));
}

#[test]
fn buffers_remember_their_stream_offset() {
    let data = [1u8, 2, 3, 4, 5];
    let buffer = ImmutableBuffer::new_with_offset(&data, 10);
    assert_eq!(buffer.offset(), 10);
    assert_eq!(buffer.len(), 5);
    assert!(!buffer.is_empty());
    assert_eq!(buffer.range(), 10..15);
    assert_eq!(buffer.peek_next_byte(), Some(1));
    let rest = buffer.consume(2);
    assert_eq!(rest.offset(), 12);
    assert_eq!(rest.bytes(), &[3, 4, 5]);
    let middle = buffer.slice(1, 3);
    assert_eq!(middle.range(), 11..14);
    assert_eq!(middle.bytes(), &[2, 3, 4]);
    let end = buffer.slice_to_end(5);
    assert!(end.is_empty());
    assert_eq!(end.peek_next_byte(), None);
    assert_eq!(
        end.peek_type_descriptor(),
        Err(IonError::Incomplete { offset: 15 })
    );
    assert_eq!(ImmutableBuffer::new(&data).offset(), 0);
}

#[test]
fn buffer_offset_is_lowered_when_the_end_would_not_fit() {
    let data = [1u8, 2, 3];
    let buffer = ImmutableBuffer::new_with_offset(&data, usize::MAX);
    assert_eq!(buffer.range().end, usize::MAX);
    assert_eq!(buffer.offset(), usize::MAX - 3);
}

#[test]
fn buffers_read_lengths_and_padding() -> IonResult<()> {
    let data = [0x8E, 0x21, 0x01];
    let buffer = ImmutableBuffer::new(&data);
    let (length, rest) = buffer.read_length(14)?;
    assert_eq!((length.value(), length.size_in_bytes()), (14, 1));
    assert_eq!(rest.offset(), 1);
    let (length, rest) = buffer.read_length(5)?;
    assert_eq!((length.value(), length.size_in_bytes()), (5, 0));
    assert_eq!(rest.offset(), 0);
    let (length, _) = buffer.read_length(15)?;
    assert_eq!((length.value(), length.size_in_bytes()), (0, 0));

    let padded = [0x00, 0x02, 0xFF, 0xFF, 0x0E, 0x81, 0xFF, 0x21, 0x01];
    let buffer = ImmutableBuffer::new(&padded);
    let (pad, rest) = buffer.read_nop_pad()?;
    assert_eq!((pad, rest.offset()), (1, 1));
    let (skipped, rest) = buffer.consume_nop_padding()?;
    assert_eq!((skipped, rest.offset()), (7, 7));
    assert_eq!(rest.bytes(), &[0x21, 0x01]);
    Ok(())
}

#[test]
fn encoded_values_know_where_their_parts_lie() -> IonResult<()> {
    // {$4: $5::"hi"}
    let data = [0xD7, 0x84, 0xE5, 0x81, 0x85, 0x82, 0x68, 0x69];
    let mut reader = LazyRawBinaryReader_1_0::new(&data);
    let struct_ = reader.next()?.expect_value()?.read()?.expect_struct()?;
    assert_eq!(struct_.as_value().encoded_value.field_id_offset(), None);
    assert_eq!(struct_.as_value().encoded_value.annotations_offset(), None);
    let (_, value) = struct_.iter().next().unwrap()?.expect_name_value()?;
    let encoded = value.encoded_value;
    assert_eq!(encoded.ion_type(), IonType::String);
    assert!(!encoded.is_null());
    assert_eq!(encoded.field_id_offset(), Some(1));
    assert_eq!(encoded.field_id_range(), Some(1..2));
    assert_eq!(encoded.annotations_offset(), Some(2));
    assert_eq!(encoded.annotations_range(), Some(2..5));
    assert!(encoded.has_annotations());
    assert_eq!(encoded.header_offset(), 5);
    assert_eq!(encoded.header_length(), 1);
    assert_eq!(encoded.header_range(), 5..6);
    assert_eq!(encoded.value_offset(), 6);
    assert_eq!(encoded.value_length(), 2);
    assert_eq!(encoded.value_range(), 6..8);
    assert_eq!(encoded.value_end_exclusive(), 8);
    assert_eq!(encoded.total_length(), 7);
    assert_eq!(value.value_body(), b"hi");
    assert_eq!(value.available_body().range(), 6..8);
    assert_eq!(value.annotations_sequence().bytes(), &[0x85]);
    Ok(())
}

#[test]
fn value_writer_appends_raw_bytes() {
    let arena = Bump::new();
    let mut writer = LazyRawBinaryWriter_1_0::new(&arena, Vec::new()).unwrap();
    {
        let mut value_writer: BinaryValueWriter_1_0 = writer.value_writer();
        value_writer.push_byte(0x21);
        value_writer.push_bytes(&[0x01, 0x20]);
        assert_eq!(value_writer.buffer(), &[0x21, 0x01, 0x20]);
    }
    assert_eq!(writer.staged(), &[0x21, 0x01, 0x20]);
}

#[test]
fn encoders_append_to_their_sink() {
    let mut sink = vec![0xAA];
    encode_null(&mut sink, IonType::Int);
    encode_bool(&mut sink, true);
    encode_i64(&mut sink, -2);
    encode_string(&mut sink, "a");
    assert_eq!(sink, [0xAA, 0x2F, 0x11, 0x31, 0x02, 0x81, 0x61]);

    let mut header = Vec::new();
    write_header(&mut header, 8, 13);
    write_header(&mut header, 8, 14);
    write_header(&mut header, 8, 128);
    assert_eq!(header, [0x8D, 0x8E, 0x8E, 0x8E, 0x01, 0x80]);

    let mut annotated = Vec::new();
    encode_annotated(&mut annotated, &[], &[0x20]);
    encode_annotated(&mut annotated, &[200], &[0x20]);
    assert_eq!(annotated, [0x20, 0xE4, 0x82, 0x01, 0xC8, 0x20]);
}

#[test]
fn raw_symbol_tokens_are_made_of_ids_and_text() {
    assert_eq!(
        RawSymbolToken::from_symbol_id(4),
        RawSymbolToken::SymbolId(4)
    );
    assert_eq!(
        RawSymbolToken::from_text("name"),
        RawSymbolToken::Text("name".to_string())
    );
}

#[test]
fn directives_are_read_from_structs() -> IonResult<()> {
    // {imports: $ion_symbol_table, name: "x", symbols: ["a", null, 1], symbols: ["b"]}
    let data = [
        0xDE, 0x91, 0x86, 0x71, 0x03, 0x84, 0x81, 0x78, 0x87, 0xB5, 0x81, 0x61, 0x0F, 0x21, 0x01,
        0x87, 0xB2, 0x81, 0x62,
    ];
    let mut reader = LazyRawBinaryReader_1_0::new(&data);
    let value = reader.next()?.expect_value()?;
    let directive = read_directive(&value)?;
    assert!(directive.is_append);
    assert_eq!(
        directive.symbols,
        vec![
            Some("a".to_string()),
            None,
            None,
            Some("b".to_string())
        ]
    );

    // {imports: $4, symbols: "a"}
    let data = [0xD6, 0x86, 0x71, 0x04, 0x87, 0x81, 0x61];
    let mut reader = LazyRawBinaryReader_1_0::new(&data);
    let value = reader.next()?.expect_value()?;
    let directive = read_directive(&value)?;
    assert!(!directive.is_append);
    assert!(directive.symbols.is_empty());
    Ok(())
}

#[test]
fn malformed_symbol_lists_are_decoding_errors() -> IonResult<()> {
    // A list whose child claims more bytes than the list has.
    let data = [0xB2, 0x85, 0x61];
    let mut reader = LazyRawBinaryReader_1_0::new(&data);
    let value = reader.next()?.expect_value()?;
    assert_eq!(read_symbol_list(&value), Err(IonError::Decoding));
    // A string that is not UTF-8.
    let data = [0xB3, 0x82, 0xC3, 0x28];
    let mut reader = LazyRawBinaryReader_1_0::new(&data);
    let value = reader.next()?.expect_value()?;
    assert_eq!(read_symbol_list(&value), Err(IonError::Decoding));
    Ok(())
}

#[test]
fn default_tables_and_builders_are_the_new_ones() {
    let table = ion_core::lazy::expanded::macro_table::MacroTable::default();
    assert_eq!(
        table.macro_with_name("values"),
        Some(&ion_core::lazy::expanded::macro_table::MacroKind::Values)
    );
    assert!(table.macro_at_address(3).is_none());
    let data = [0xE0, 0x01, 0x00, 0xEA, 0x20];
    let mut reader = ion_core::reader::ReaderBuilder::default()
        .build(&data)
        .unwrap();
    assert!(matches!(
        reader.next(),
        Ok(ion_core::reader::StreamItem::Value(_))
    ));
}
