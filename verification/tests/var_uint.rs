use ion_core::binary::var_uint::VarUInt;
use ion_core::result::IonResult;

const ERROR_MESSAGE: &str = "Failed to read a VarUInt from the provided data.";

#[test]
fn test_read_var_uint() {
    let var_uint =
        VarUInt::read(&[0b0111_1001, 0b0000_1111, 0b1000_0001]).expect(ERROR_MESSAGE);
    assert_eq!(3, var_uint.size_in_bytes());
    assert_eq!(1_984_385, var_uint.value());
}

#[test]
fn test_read_var_uint_small_buffer() {
    // The bytes of the number, followed by more input.
    let var_uint = VarUInt::read(&[0b0111_1001, 0b0000_1111, 0b1000_0001, 0x21, 0x01])
        .expect(ERROR_MESSAGE);
    assert_eq!(var_uint.size_in_bytes(), 3);
    assert_eq!(var_uint.value(), 1_984_385);
}

#[test]
fn test_read_var_uint_zero() {
    let var_uint = VarUInt::read(&[0b1000_0000]).expect(ERROR_MESSAGE);
    assert_eq!(var_uint.size_in_bytes(), 1);
    assert_eq!(var_uint.value(), 0);
}

#[test]
fn test_read_var_uint_two_bytes_max_value() {
    let var_uint = VarUInt::read(&[0b0111_1111, 0b1111_1111]).expect(ERROR_MESSAGE);
    assert_eq!(var_uint.size_in_bytes(), 2);
    assert_eq!(var_uint.value(), 16_383);
}

#[test]
fn test_read_var_uint_overflow_detection() {
    let _var_uint = VarUInt::read(&[
        0b0111_1111,
        0b0111_1111,
        0b0111_1111,
        0b0111_1111,
        0b0111_1111,
        0b0111_1111,
        0b0111_1111,
        0b0111_1111,
        0b0111_1111,
        0b1111_1111, // 1 byte more than the maximum allowed on 64-bit systems
    ])
    .expect_err("This should have failed due to overflow.");
}

#[test]
fn test_read_var_uint_slight_overflow_detection() {
    let _var_uint = VarUInt::read(&[
        0b0000_0011, // One bit more than the maximum allowed on 64-bit systems
        0b0111_1111,
        0b0111_1111,
        0b0111_1111,
        0b0111_1111,
        0b0111_1111,
        0b0111_1111,
        0b0111_1111,
        0b0111_1111,
        0b1111_1111,
    ])
    .expect_err("This should have failed due to overflow.");
}

fn var_uint_encoding_test(value: u64, expected_encoding: &[u8]) -> IonResult<()> {
    let mut buffer = vec![];
    VarUInt::write_u64(&mut buffer, value)?;
    assert_eq!(buffer.as_slice(), expected_encoding);
    Ok(())
}

#[test]
fn test_write_var_uint_zero() -> IonResult<()> {
    var_uint_encoding_test(0, &[0b1000_0000])?;
    Ok(())
}

#[test]
fn test_write_var_uint_single_byte_values() -> IonResult<()> {
    var_uint_encoding_test(6, &[0b1000_0110])?;
    var_uint_encoding_test(17, &[0b1001_0001])?;
    var_uint_encoding_test(41, &[0b1010_1001])?;
    Ok(())
}

#[test]
fn test_write_var_uint_two_byte_values() -> IonResult<()> {
    var_uint_encoding_test(279, &[0b0000_0010, 0b1001_0111])?;
    var_uint_encoding_test(555, &[0b0000_0100, 0b1010_1011])?;
    var_uint_encoding_test(999, &[0b0000_0111, 0b1110_0111])?;
    Ok(())
}

#[test]
fn test_write_var_uint_three_byte_values() -> IonResult<()> {
    var_uint_encoding_test(81_991, &[0b0000_0101, 0b0000_0000, 0b1100_0111])?;
    var_uint_encoding_test(400_600, &[0b0001_1000, 0b0011_1001, 0b1101_1000])?;
    Ok(())
}

#[test]
fn roundtrip_u64_max() -> IonResult<()> {
    let mut buffer = Vec::new();
    let encoded_size = VarUInt::write_u64(&mut buffer, u64::MAX)?;
    assert_eq!(encoded_size, 10);
    println!("{:X?}", buffer);
    let value = VarUInt::read(buffer.as_slice())?;
    assert_eq!(value.value() as u64, u64::MAX);
    Ok(())
}

#[test]
fn var_uint_incomplete_input_reports_where_it_ended() {
    let result = VarUInt::read(&[0b0111_1001, 0b0000_1111]);
    assert_eq!(
        result,
        Err(ion_core::result::IonError::Incomplete { offset: 2 })
    );
}
