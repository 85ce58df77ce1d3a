use ion_core::binary::var_uint::VarUInt;
use ion_core::ion_1_1::alt::{decode_var_uint, encode_var_uint, init_bytes_needed_cache};
use rand::prelude::{Rng, SeedableRng, StdRng};

#[test]
fn enc() {
    let mut buffer = Vec::new();
    encode_var_uint(&mut buffer, 21043).unwrap();
    println!("{:x?}", buffer);
    for byte in buffer {
        println!("{:08b}", byte);
    }
}

pub fn generate_integers(int_size_in_bytes: usize, num_ints: usize) -> Vec<u64> {
    let mut rng = StdRng::seed_from_u64(1024);

    let mut data: Vec<u64> = Vec::with_capacity(num_ints);

    let num_bits_per_int = int_size_in_bytes * 8;
    let shifted = 1u64.checked_shl(num_bits_per_int as u32).unwrap_or(0);
    let max_value_for_size = shifted.overflowing_sub(1u64).0;
    println!(
        "Range {}..={} ({} bits per int)",
        0, max_value_for_size, num_bits_per_int,
    );

    for _ in 0..num_ints {
        let number: u64 = rng.gen_range(0..=max_value_for_size);
        data.push(number);
    }
    data
}

#[test]
fn decode_1_1() {
    for size in 1..=8 {
        let original_data = &generate_integers(size, 1000);
        let encoded_v1_1_data = &mut Vec::new();
        let decoded_v1_1_data = &mut Vec::new();
        for integer in original_data {
            let _encoded_size = encode_var_uint(encoded_v1_1_data, *integer).unwrap();
        }
        let mut position: usize = 0;
        let end_of_stream = encoded_v1_1_data.len();
        while position < end_of_stream {
            let (encoded_size, value) = decode_var_uint(&encoded_v1_1_data[position..]).unwrap();
            position += encoded_size;
            decoded_v1_1_data.push(value);
        }
        assert_eq!(decoded_v1_1_data.len(), 1000);
        assert_eq!(decoded_v1_1_data, original_data);
    }
}

#[test]
fn compare_1_0_and_1_1_sizes() {
    let original_data = &generate_integers(8, 10_000);
    let encoded_v1_1_data = &mut Vec::new();
    let encoded_v1_0_data = &mut Vec::new();
    for integer in original_data {
        let encoded_1_1_size = encode_var_uint(encoded_v1_1_data, *integer).unwrap();
        let encoded_1_0_size = VarUInt::write_u64(encoded_v1_0_data, *integer).unwrap();
        assert_eq!(
            encoded_1_0_size,
            encoded_1_1_size,
            "{}: 1.0 size {} != 1.1 size {}\n1.0 bytes: {:#x?}\n1.1 bytes: {:#x?}",
            integer,
            encoded_1_0_size,
            encoded_1_1_size,
            &encoded_v1_0_data[encoded_v1_0_data.len() - encoded_1_0_size..],
            &encoded_v1_1_data[encoded_v1_1_data.len() - encoded_1_1_size..]
        );
    }
    assert_eq!(encoded_v1_0_data.len(), encoded_v1_1_data.len());
}

fn test_encode_var_uint(value: u64, expected: &[u8]) {
    let mut buffer: Vec<u8> = Vec::new();
    let encoded_size = encode_var_uint(&mut buffer, value);
    assert!(encoded_size.is_ok());
    assert_eq!(buffer.as_slice(), expected);
}

fn test_decode_var_uint(input: &[u8], expected: u64) {
    let (_size_in_bytes, value) = decode_var_uint(input).unwrap();
    assert_eq!(value, expected);
}

#[test]
fn test_decode() {
    // 1-byte values
    test_decode_var_uint(&[0x03], 1);
    test_decode_var_uint(&[0x05], 2);
    test_decode_var_uint(&[0x07], 3);
    test_decode_var_uint(&[0x09], 4);
    test_decode_var_uint(&[0x0B], 5);

    // Maximum value of 7 unsigned bits, which is the largest value that can be encoded in a
    // single byte.
    test_decode_var_uint(&[0xFF], 127u64);
}

#[test]
fn test_encode() {
    // 1-byte values
    test_encode_var_uint(1u64, &[0x03]);
    test_encode_var_uint(2u64, &[0x05]);
    test_encode_var_uint(3u64, &[0x07]);
    test_encode_var_uint(4u64, &[0x09]);
    test_encode_var_uint(5u64, &[0x0B]);

    // Maximum value of 7 unsigned bits, which is the largest value that can be encoded in a
    // single byte.
    test_encode_var_uint(127u64, &[0xFF]);
}

#[test]
fn encode_two_byte_values() {
    test_encode_var_uint(128, &[0x02, 0x02]);
    test_encode_var_uint(16_383, &[0xFE, 0xFF]);
}

#[test]
fn encode_nine_byte_values() {
    // 2 to the 56 is the first value that takes nine bytes.
    test_encode_var_uint(
        1u64 << 56,
        &[0x00, 0x01, 0x00, 0x00, 0x00, 0x00, 0x00, 0x00, 0x02],
    );
    test_encode_var_uint(
        (1u64 << 63) - 1,
        &[0x00, 0xFF, 0xFF, 0xFF, 0xFF, 0xFF, 0xFF, 0xFF, 0xFF],
    );
}

#[test]
fn encode_ten_byte_values() {
    test_encode_var_uint(
        1u64 << 63,
        &[0x00, 0x02, 0x00, 0x00, 0x00, 0x00, 0x00, 0x00, 0x00, 0x02],
    );
    test_encode_var_uint(
        u64::MAX,
        &[0x00, 0xFE, 0xFF, 0xFF, 0xFF, 0xFF, 0xFF, 0xFF, 0xFF, 0x03],
    );
}

#[test]
fn round_trip_at_the_size_boundaries() {
    let mut values = vec![0u64, 1, u64::MAX];
    for bits in 1..64 {
        let power = 1u64 << bits;
        values.push(power - 1);
        values.push(power);
        values.push(power + 1);
    }
    for value in values {
        let mut encoded = Vec::new();
        let size = encode_var_uint(&mut encoded, value).unwrap();
        assert_eq!(size, encoded.len());
        // Bytes that follow the encoding are not part of it.
        encoded.extend_from_slice(&[0xAB, 0xCD]);
        assert_eq!(decode_var_uint(&encoded).unwrap(), (size, value));

        let mut encoded_1_0 = Vec::new();
        let size_1_0 = VarUInt::write_u64(&mut encoded_1_0, value).unwrap();
        assert_eq!(size_1_0, size);
        encoded_1_0.extend_from_slice(&[0xAB, 0xCD]);
        let decoded = VarUInt::read(&encoded_1_0).unwrap();
        assert_eq!(decoded.value(), value);
        assert_eq!(decoded.size_in_bytes(), size);
    }
}

#[test]
fn decode_rejects_more_than_ten_bytes() {
    assert!(decode_var_uint(&[0x00, 0x00, 0xFF, 0xFF, 0xFF, 0xFF, 0xFF, 0xFF, 0xFF, 0xFF]).is_err());
    assert!(decode_var_uint(&[0x00, 0x04, 0xFF, 0xFF, 0xFF, 0xFF, 0xFF, 0xFF, 0xFF, 0xFF]).is_err());
}

#[test]
fn decode_rejects_ten_bytes_that_overflow() {
    // The last byte holds more than the two bits that are left.
    assert!(decode_var_uint(&[0x00, 0xFE, 0xFF, 0xFF, 0xFF, 0xFF, 0xFF, 0xFF, 0xFF, 0x04]).is_err());
}

#[test]
fn decode_reads_missing_bytes_as_zero() {
    // Two bytes are announced and one is given.
    assert_eq!(decode_var_uint(&[0x02]).unwrap(), (2, 0));
    // No input at all announces more than ten bytes.
    assert!(decode_var_uint(&[]).is_err());
}

#[test]
fn bytes_needed_cache_counts_groups_of_seven_bits() {
    let cache = init_bytes_needed_cache();
    assert_eq!(cache[64], 1);
    assert_eq!(cache[63], 1);
    assert_eq!(cache[57], 1);
    assert_eq!(cache[56], 2);
    assert_eq!(cache[8], 8);
    assert_eq!(cache[7], 9);
    assert_eq!(cache[1], 9);
    assert_eq!(cache[0], 10);
    for value in [1u64, 127, 128, 1 << 20, u64::MAX] {
        let mut encoded = Vec::new();
        let size = encode_var_uint(&mut encoded, value).unwrap();
        assert_eq!(cache[value.leading_zeros() as usize] as usize, size);
    }
}
