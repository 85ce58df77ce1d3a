use ion_core::blocking_lazy_reader::{
    after_attempt, next_read_size, BlockingLazyRawReader, ReadStep,
};
use ion_core::lazy::raw_stream_item::LazyRawStreamItem;
use ion_core::result::IonError;
use ion_core::types::integer::Int;

#[test]
fn items_are_read_piece_by_piece() {
    let mut data = vec![0xE0, 0x01, 0x00, 0xEA];
    // A string of 100 bytes.
    data.extend_from_slice(&[0x8E, 0xE4]);
    data.extend_from_slice(&[b'a'; 100]);
    data.extend_from_slice(&[0x21, 0x07]);

    let mut reader = BlockingLazyRawReader::new_with_size(&data, 3).unwrap();
    assert!(!reader.is_source_exhausted());
    assert_eq!(reader.next().unwrap().expect_ivm().unwrap(), (1, 0));
    let text = reader
        .next()
        .unwrap()
        .expect_value()
        .unwrap()
        .read()
        .unwrap()
        .expect_string()
        .unwrap()
        .to_string();
    assert_eq!(text.len(), 100);
    let seven = reader
        .next()
        .unwrap()
        .expect_value()
        .unwrap()
        .read()
        .unwrap()
        .expect_int()
        .unwrap();
    assert_eq!(seven, Int::from(7));
    assert!(matches!(
        reader.next().unwrap(),
        LazyRawStreamItem::EndOfStream(108)
    ));
    assert!(reader.is_source_exhausted());
    assert!(reader.is_stream_complete());
}

#[test]
fn incomplete_input_surfaces_when_the_source_is_exhausted() {
    let data = [0xE0, 0x01, 0x00, 0xEA, 0x85, 0x68, 0x65];
    let mut reader = BlockingLazyRawReader::new_with_size(&data, 2).unwrap();
    assert!(reader.next().unwrap().expect_ivm().is_ok());
    assert!(matches!(
        reader.next(),
        Err(IonError::Incomplete { offset: 4 })
    ));
    assert!(reader.is_source_exhausted());
    // Asking again changes nothing.
    assert!(matches!(
        reader.next(),
        Err(IonError::Incomplete { offset: 4 })
    ));
}

#[test]
fn malformed_input_surfaces_at_once() {
    let data = [0xE0, 0x01, 0x00, 0xEA, 0xF0, 0x21, 0x01, 0x21, 0x02];
    let mut reader = BlockingLazyRawReader::new_with_size(&data, 5).unwrap();
    assert!(reader.next().unwrap().expect_ivm().is_ok());
    assert!(matches!(reader.next(), Err(IonError::Decoding)));
    assert!(!reader.is_source_exhausted());
}

#[test]
fn read_source_moves_what_the_source_has() {
    let data = [1u8, 2, 3, 4, 5];
    let mut reader = BlockingLazyRawReader::new_with_size(&data, 0).unwrap();
    assert_eq!(reader.read_source(2), Ok(2));
    assert_eq!(reader.read_source(10), Ok(3));
    assert_eq!(reader.read_source(10), Ok(0));
    assert!(reader.is_source_exhausted());
}

#[test]
fn default_reader_reads_the_whole_of_a_small_stream() {
    let data = [0xE0, 0x01, 0x00, 0xEA, 0x20];
    let mut reader = BlockingLazyRawReader::new(&data).unwrap();
    assert!(reader.is_source_exhausted());
    assert!(reader.next().unwrap().expect_ivm().is_ok());
    assert!(reader.next().unwrap().expect_value().is_ok());
}

#[test]
fn read_sizes_double_up_to_ten_times_the_first() {
    assert_eq!(next_read_size(4096, 4096), 8192);
    assert_eq!(next_read_size(8192, 4096), 16384);
    assert_eq!(next_read_size(16384, 4096), 32768);
    assert_eq!(next_read_size(32768, 4096), 40960);
    assert_eq!(next_read_size(40960, 4096), 40960);
    assert_eq!(next_read_size(usize::MAX, usize::MAX), usize::MAX);
    assert_eq!(next_read_size(1, 0), 0);
}

#[test]
fn more_input_is_read_only_while_the_source_has_some() {
    assert_eq!(after_attempt(true, false, false, 8), ReadStep::ReadMore(8));
    assert_eq!(after_attempt(false, true, false, 8), ReadStep::ReadMore(8));
    assert_eq!(after_attempt(true, false, true, 8), ReadStep::Surface);
    assert_eq!(after_attempt(false, true, true, 8), ReadStep::Surface);
    assert_eq!(after_attempt(false, false, false, 8), ReadStep::Surface);
}

#[test]
fn reads_double_up_to_ten_times_the_first_size() {
    let mut data = vec![0xE0, 0x01, 0x00, 0xEA];
    // A string of 200 bytes: 203 bytes with its header.
    data.extend_from_slice(&[0x8E, 0x01, 0xC8]);
    data.extend_from_slice(&[b'a'; 200]);
    // Thirty integers of one byte each.
    data.extend_from_slice(&[0x20; 30]);

    let mut reader = BlockingLazyRawReader::new_with_size(&data, 4).unwrap();
    assert!(reader.next().unwrap().expect_ivm().is_ok());
    // Reads of 4, 8, 16 and 32 bytes, and then four of 40, bring the buffer
    // to 224 bytes, which hold the string and seventeen of the integers.
    let text = reader
        .next()
        .unwrap()
        .expect_value()
        .unwrap()
        .read()
        .unwrap()
        .expect_string()
        .unwrap()
        .to_string();
    assert_eq!(text.len(), 200);
    assert!(!reader.is_source_exhausted());
    for _ in 0..17 {
        assert!(reader.next().unwrap().expect_value().is_ok());
        assert!(!reader.is_source_exhausted());
    }
    // Thirteen integers are left, and come by reads of 4 bytes.
    for _ in 0..4 {
        assert!(reader.next().unwrap().expect_value().is_ok());
        assert!(!reader.is_source_exhausted());
    }
    assert!(reader.next().unwrap().expect_value().is_ok());
    assert!(!reader.is_source_exhausted());
    for _ in 0..8 {
        assert!(reader.next().unwrap().expect_value().is_ok());
    }
    assert!(matches!(
        reader.next().unwrap(),
        LazyRawStreamItem::EndOfStream(237)
    ));
    assert!(reader.is_source_exhausted());
}
