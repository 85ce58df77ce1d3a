use bumpalo::Bump;
use ion_core::lazy::encoder::application_writer::ApplicationWriter;
use ion_core::raw_symbol_token_ref::RawSymbolTokenRef;
use ion_core::reader::{ReaderBuilder, UserStreamItem};
use ion_core::result::IonResult;
use ion_core::types::integer::Int;
use ion_core::types::value_ref::ValueRef;
use ion_core::types::IonType;

#[test]
fn write_int() -> IonResult<()> {
    let arena = Bump::new();
    let mut writer = ApplicationWriter::new(&arena, Vec::new())?;
    // Writing an int, so no interception has to happen
    writer.value_writer().write_i64(22)?;
    writer.flush()?;
    let buffer = writer.output();
    assert_eq!(buffer.as_slice(), &[0xE0, 0x01, 0x00, 0xEA, 0x21, 0x16]);
    let mut reader = ReaderBuilder::new().build(buffer)?;
    assert_eq!(reader.next_user_item()?, UserStreamItem::Value(IonType::Int));
    let element = reader.read_value()?;
    println!("{element:?}");
    assert_eq!(element.expect_int()?, Int::from(22));
    assert_eq!(reader.next_user_item()?, UserStreamItem::Nothing);
    Ok(())
}

#[test]
fn write_symbols() -> IonResult<()> {
    let arena = Bump::new();
    let mut writer = ApplicationWriter::new(&arena, Vec::new())?;
    writer
        .value_writer()
        .write_symbol(RawSymbolTokenRef::Text("foo"))?;
    writer
        .value_writer()
        .write_symbol(RawSymbolTokenRef::Text("bar"))?;
    writer
        .value_writer()
        .write_symbol(RawSymbolTokenRef::Text("baz"))?;
    writer.flush()?;
    let buffer = writer.output();
    let mut expected = vec![0xE0, 0x01, 0x00, 0xEA];
    // $ion_symbol_table::{imports: $ion_symbol_table, symbols: ["foo", "bar", "baz"]}
    expected.extend_from_slice(&[0xEE, 0x95, 0x81, 0x83, 0xDE, 0x91]);
    expected.extend_from_slice(&[0x86, 0x71, 0x03]);
    expected.extend_from_slice(&[0x87, 0xBC]);
    expected.extend_from_slice(&[0x83, 0x66, 0x6F, 0x6F]);
    expected.extend_from_slice(&[0x83, 0x62, 0x61, 0x72]);
    expected.extend_from_slice(&[0x83, 0x62, 0x61, 0x7A]);
    // $10 $11 $12
    expected.extend_from_slice(&[0x71, 0x0A, 0x71, 0x0B, 0x71, 0x0C]);
    assert_eq!(buffer, &expected);

    let mut reader = ReaderBuilder::new().build(buffer)?;
    let mut elements = Vec::new();
    while reader.next_user_item()? != UserStreamItem::Nothing {
        elements.push(
            reader
                .read_value()?
                .expect_symbol()?
                .text()
                .map(|text| text.to_string()),
        );
    }
    println!("{elements:?}");
    assert_eq!(
        elements,
        vec![
            Some("foo".to_string()),
            Some("bar".to_string()),
            Some("baz".to_string())
        ]
    );
    Ok(())
}

#[test]
fn symbols_are_written_once_and_tables_only_when_new() -> IonResult<()> {
    let arena = Bump::new();
    let mut writer = ApplicationWriter::new(&arena, Vec::new())?;
    writer
        .value_writer()
        .write_symbol(RawSymbolTokenRef::Text("foo"))?;
    writer.flush()?;
    let after_first = writer.output().len();
    // The symbol is known now: no table is written with it.
    writer
        .value_writer()
        .write_symbol(RawSymbolTokenRef::Text("foo"))?;
    writer
        .value_writer()
        .write_symbol(RawSymbolTokenRef::Text("name"))?;
    writer
        .value_writer()
        .write_symbol(RawSymbolTokenRef::SymbolId(10))?;
    writer.flush()?;
    assert_eq!(
        &writer.output()[after_first..],
        &[0x71, 0x0A, 0x71, 0x04, 0x71, 0x0A]
    );
    Ok(())
}

#[test]
fn text_annotations_are_interned() -> IonResult<()> {
    let arena = Bump::new();
    let mut writer = ApplicationWriter::new(&arena, Vec::new())?;
    let annotations = [
        RawSymbolTokenRef::Text("foo"),
        RawSymbolTokenRef::SymbolId(4),
        RawSymbolTokenRef::Text("foo"),
    ];
    writer
        .annotatable_value_writer()
        .with_annotations(&annotations)
        .value_writer()
        .write_bool(true)?;
    writer
        .annotatable_value_writer()
        .without_annotations()
        .write_bool(false)?;
    writer.flush()?;

    let mut reader = ReaderBuilder::new().build(writer.output())?;
    assert_eq!(reader.next_user_item()?, UserStreamItem::Value(IonType::Bool));
    let texts: Vec<Option<String>> = reader
        .annotations()?
        .iter()
        .map(|symbol| symbol.text().map(|text| text.to_string()))
        .collect();
    assert_eq!(
        texts,
        vec![
            Some("foo".to_string()),
            Some("name".to_string()),
            Some("foo".to_string())
        ]
    );
    assert_eq!(reader.read_value()?.expect_bool()?, true);
    assert_eq!(reader.next_user_item()?, UserStreamItem::Value(IonType::Bool));
    assert!(reader.annotations()?.is_empty());
    assert_eq!(reader.next_user_item()?, UserStreamItem::Nothing);
    Ok(())
}

#[test]
fn detecting_symbols_in_annotations_changes_the_table_only() -> IonResult<()> {
    let arena = Bump::new();
    let mut writer = ApplicationWriter::new(&arena, Vec::new())?;
    let annotations = [
        RawSymbolTokenRef::Text("foo"),
        RawSymbolTokenRef::Text("symbols"),
        RawSymbolTokenRef::Text("bar"),
    ];
    {
        let mut annotated = writer
            .annotatable_value_writer()
            .with_annotations(&annotations);
        annotated.detect_new_symbols_in_annotations()?;
    }
    assert_eq!(writer.symbol_table.len(), 12);
    assert_eq!(writer.symbol_table.sid_for("foo"), Some(10));
    assert_eq!(writer.symbol_table.sid_for("bar"), Some(11));
    assert!(writer.data_writer.staged().is_empty());
    Ok(())
}
