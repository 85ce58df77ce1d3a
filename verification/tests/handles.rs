use bumpalo::Bump;
use ion_core::lazy::encoder::binary::writer::LazyRawBinaryWriter_1_0;
use ion_core::raw_reader::{RawBinaryReader, RawStreamItem};
use ion_core::raw_symbol_token_ref::RawSymbolTokenRef;
use ion_core::reader::{ReaderBuilder, StreamItem, UserReader, UserStreamItem};
use ion_core::result::{IonError, IonResult};
use ion_core::stream_reader::IonReader;
use ion_core::types::integer::Int;
use ion_core::types::value_ref::ValueRef;
use ion_core::types::IonType;

fn ion_data(bytes: &[u8]) -> Vec<u8> {
    let mut data = vec![0xE0, 0x01, 0x00, 0xEA];
    data.extend_from_slice(bytes);
    data
}

#[test]
fn list_is_written_by_a_callback() -> IonResult<()> {
    let arena = Bump::new();
    let mut writer = LazyRawBinaryWriter_1_0::new(&arena, Vec::new())?;
    writer.value_writer().write_list(|list| {
        list.value_writer().write_i64(1)?;
        list.value_writer().write_i64(2)?;
        list.value_writer().write_i64(3)?;
        Ok(())
    })?;
    assert_eq!(
        writer.staged(),
        &[0xB6, 0x21, 0x01, 0x21, 0x02, 0x21, 0x03]
    );
    Ok(())
}

#[test]
fn containers_nest_in_callbacks() -> IonResult<()> {
    let arena = Bump::new();
    let mut writer = LazyRawBinaryWriter_1_0::new(&arena, Vec::new())?;
    writer.value_writer().write_struct(|struct_| {
        struct_
            .field_writer(RawSymbolTokenRef::SymbolId(4))?
            .write_sexp(|sexp| {
                sexp.value_writer().write_bool(true)?;
                sexp.value_writer().write_list(|_list| Ok(()))
            })
    })?;
    // {name: (true [])}
    assert_eq!(writer.staged(), &[0xD4, 0x84, 0xC2, 0x11, 0xB0]);
    Ok(())
}

#[test]
fn failing_callback_commits_nothing() -> IonResult<()> {
    let arena = Bump::new();
    let mut writer = LazyRawBinaryWriter_1_0::new(&arena, Vec::new())?;
    writer.value_writer().write_i64(7)?;
    let result = writer.value_writer().write_struct(|struct_| {
        struct_
            .field_writer(RawSymbolTokenRef::SymbolId(4))?
            .write_i64(1)?;
        struct_
            .field_writer(RawSymbolTokenRef::Text("foo"))?
            .write_i64(2)?;
        Ok(())
    });
    assert_eq!(result, Err(IonError::Encoding));
    // The struct never reached the buffer of its parent.
    assert_eq!(writer.staged(), &[0x21, 0x07]);
    Ok(())
}

#[test]
fn handles_walk_the_values_of_a_stream() -> IonResult<()> {
    // [1, [2, 3], 4] {name: 5} 6
    let data = ion_data(&[
        0xB9, 0x21, 0x01, 0xB4, 0x21, 0x02, 0x21, 0x03, 0x21, 0x04, 0xD3, 0x84, 0x21, 0x05, 0x21,
        0x06,
    ]);
    let mut reader = ReaderBuilder::new().build(&data)?;

    let StreamItem::Value(mut first) = reader.next()? else {
        panic!("expected a list");
    };
    assert_eq!(first.ion_type(), Some(IonType::List));
    assert!(!first.is_null());
    let ValueRef::List(list) = first.read()? else {
        panic!("expected a list");
    };
    let mut elements = list.reader()?;
    let element = elements.read_next_element()?.expect("an element");
    assert_eq!(element.expect_int()?, Int::from(1));
    {
        let mut nested = elements.next_element()?.expect("a nested list");
        let mut nested_elements = nested.read()?.expect_list()?.reader()?;
        let element = nested_elements.read_next_element()?.expect("an element");
        assert_eq!(element.expect_int()?, Int::from(2));
        // The 3 is left unread.
    }
    // The reader steps out of the nested list by itself.
    let element = elements.read_next_element()?.expect("an element");
    assert_eq!(element.expect_int()?, Int::from(4));
    assert!(elements.next_element()?.is_none());
    reader.step_out_to_depth(0)?;

    let StreamItem::Value(second) = reader.next()? else {
        panic!("expected a struct");
    };
    assert!(matches!(
        second.as_list(),
        Err(IonError::IllegalOperation)
    ));
    reader.step_out_to_depth(0)?;
    // The failed attempt left the reader where it was.
    assert_eq!(reader.ion_type(), Some(IonType::Struct));
    let mut fields = ion_core::value_reader::StructRef::new(&mut reader).reader()?;
    {
        let mut field = fields.next_field()?.expect("a field");
        assert_eq!(field.read_name()?.text(), Some("name"));
        assert_eq!(field.read_value()?.expect_int()?, Int::from(5));
        assert_eq!(field.value().read()?.expect_int()?, Int::from(5));
        assert!(field.value().annotations()?.is_empty());
    }
    assert!(fields.next_field()?.is_none());
    reader.step_out_to_depth(0)?;
    assert_eq!(reader.depth(), 0);

    assert_eq!(reader.next_user_item()?, UserStreamItem::Value(IonType::Int));
    assert_eq!(reader.read_value()?.expect_int()?, Int::from(6));
    assert!(matches!(reader.next()?, StreamItem::Nothing));
    Ok(())
}

#[test]
fn sequence_ref_of_a_scalar_cannot_be_stepped_into() -> IonResult<()> {
    let data = ion_data(&[0x21, 0x01]);
    let mut reader = ReaderBuilder::new().build(&data)?;
    assert_eq!(reader.next_user_item()?, UserStreamItem::Value(IonType::Int));
    let sequence = ion_core::value_reader::SequenceRef::new(&mut reader);
    assert!(matches!(
        sequence.reader(),
        Err(IonError::IllegalOperation)
    ));
    assert_eq!(reader.depth(), 0);
    Ok(())
}

#[test]
fn next_at_depth_steps_out_first() -> IonResult<()> {
    // [[1, 2], 3]
    let data = ion_data(&[0xB7, 0xB4, 0x21, 0x01, 0x21, 0x02, 0x21, 0x03]);
    let mut reader = ReaderBuilder::new().build(&data)?;
    reader.next_user_item()?;
    reader.step_in()?;
    reader.next_user_item()?;
    reader.step_in()?;
    assert_eq!(reader.next_user_item()?, UserStreamItem::Value(IonType::Int));
    assert_eq!(reader.depth(), 2);
    assert_eq!(reader.next_at_depth(1)?, UserStreamItem::Value(IonType::Int));
    assert_eq!(reader.depth(), 1);
    assert_eq!(reader.read_value()?.expect_int()?, Int::from(3));
    // Deeper than the reader is: nothing to step out of.
    assert_eq!(reader.next_at_depth(5)?, UserStreamItem::Nothing);
    assert_eq!(reader.depth(), 1);
    Ok(())
}

fn count_items<R: IonReader>(reader: &mut R, is_end: impl Fn(&R::Item) -> bool) -> usize {
    let mut count = 0;
    loop {
        let item = reader.next().unwrap();
        if is_end(&item) {
            return count;
        }
        count += 1;
    }
}

#[test]
fn readers_of_both_levels_are_ion_readers() {
    // $ion_symbol_table::{symbols: ["a"]} $10 1
    let data = ion_data(&[
        0xE7, 0x81, 0x83, 0xD4, 0x87, 0xB2, 0x81, 0x61, 0x71, 0x0A, 0x21, 0x01,
    ]);
    let mut raw = RawBinaryReader::new(&data);
    assert_eq!(IonReader::ion_version(&raw), (1, 0));
    // The raw level sees the version marker and the symbol table.
    assert_eq!(
        count_items(&mut raw, |item| *item == RawStreamItem::Nothing),
        4
    );
    let mut user = UserReader::new(RawBinaryReader::new(&data));
    assert_eq!(
        count_items(&mut user, |item| *item == UserStreamItem::Nothing),
        2
    );
    assert_eq!(IonReader::ion_version(&user), (1, 0));
}
