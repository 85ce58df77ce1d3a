//! The Ion 1.1 variable-length unsigned integer.
//!
//! The encoding is little-endian. The number of trailing zero bits of the
//! first byte tells how many bytes follow it; the lowest set bit is the end
//! flag, and the magnitude sits above it.

use vstd::prelude::*;
use vstd::std_specs::bits::{
    axiom_u64_leading_zeros,
    axiom_u8_trailing_zeros,
    u64_leading_zeros,
    u8_trailing_zeros,
};
use byteorder::{ByteOrder, LittleEndian};
use crate::binary::var_uint::{encoded_size, pow128};
use crate::result::{IonError, IonResult, ParseFault};

verus! {

/// Byte `i` of `x`, counted from the least significant one.
pub open spec fn le_byte(x: u64, i: u64) -> u8 {
    ((x >> ((8 * i) as u64)) & 0xff) as u8
}

/// The number that eight bytes spell, least significant byte first.
pub open spec fn le_u64_of(b0: u8, b1: u8, b2: u8, b3: u8, b4: u8, b5: u8, b6: u8, b7: u8) -> u64 {
    (b0 as u64) | ((b1 as u64) << 8) | ((b2 as u64) << 16) | ((b3 as u64) << 24) | ((b4 as u64)
        << 32) | ((b5 as u64) << 40) | ((b6 as u64) << 48) | ((b7 as u64) << 56)
}

/// The little-endian number in the eight bytes of `s` that start at `start`.
pub open spec fn le_u64(s: Seq<u8>, start: int) -> u64 {
    le_u64_of(
        s[start],
        s[start + 1],
        s[start + 2],
        s[start + 3],
        s[start + 4],
        s[start + 5],
        s[start + 6],
        s[start + 7],
    )
}

/// Byte `i` of the Ion 1.1 encoding of `v`.
///
/// Up to eight bytes, the encoding is the number `(v << n) | (1 << (n - 1))`
/// in `n` little-endian bytes. With nine bytes, a zero byte is followed by
/// `(v << 1) | 1` in eight bytes. With ten, a zero byte is followed by a byte
/// whose low bits are `10` and whose high bits are the low six bits of `v`,
/// and then by the other 58 bits in eight bytes.
pub open spec fn flex_uint_byte(v: u64, i: int) -> u8 {
    let n = encoded_size(v as nat);
    if n <= 8 {
        le_byte((v << (n as u64)) | (1u64 << ((n - 1) as u64)), i as u64)
    } else if n == 9 {
        if i == 0 {
            0
        } else {
            le_byte((v << 1) | 1, (i - 1) as u64)
        }
    } else {
        if i == 0 {
            0
        } else if i == 1 {
            ((((v & 0x3f) << 2) | 2) & 0xff) as u8
        } else {
            le_byte(v >> 6, (i - 2) as u64)
        }
    }
}

/// The Ion 1.1 encoding of `v`.
pub open spec fn flex_uint_bytes(v: u64) -> Seq<u8> {
    Seq::new(encoded_size(v as nat), |i: int| flex_uint_byte(v, i))
}

/// The first ten bytes of `s`, with zeros where `s` has none.
pub open spec fn zero_padded(s: Seq<u8>) -> Seq<u8> {
    Seq::new(
        10,
        |i: int|
            if i < s.len() {
                s[i]
            } else {
                0u8
            },
    )
}

/// What decoding the front of `s` yields: the value and the number of bytes
/// of its encoding. Bytes that `s` lacks are read as zero. An encoding that
/// announces more than ten bytes is malformed, and so is one of ten bytes whose
/// magnitude does not fit in 64 bits.
pub open spec fn flex_uint_parse(s: Seq<u8>) -> Result<(u64, nat), ParseFault> {
    let p = zero_padded(s);
    if p[0] == 0 {
        if p[1] & 0b11 == 0b00 {
            Err(ParseFault::Malformed)
        } else if p[1] & 0b11 == 0b10 {
            let remaining = le_u64(p, 2);
            if remaining > 0x03ff_ffff_ffff_ffff {
                Err(ParseFault::Malformed)
            } else {
                Ok(((remaining << 6) | ((p[1] >> 2) as u64), 10))
            }
        } else {
            Ok((le_u64(p, 1) >> 1, 9))
        }
    } else {
        let n = (u8_trailing_zeros(p[0]) + 1) as u64;
        let mask = if n >= 8 {
            0xffff_ffff_ffff_ffffu64
        } else {
            ((1u64 << ((8 * n) as u64)) - 1) as u64
        };
        Ok((((le_u64(p, 0) & mask) >> n), n as nat))
    }
}

/// The number of bytes that encode a value with the given count of leading
/// zero bits: a seventh of its significant bits, rounded up, and one for zero.
pub open spec fn bytes_needed(leading_zeros: int) -> int {
    if leading_zeros >= 64 {
        1
    } else {
        (64 - leading_zeros + 6) / 7
    }
}

/// Builds the table that maps a count of leading zero bits, 0 to 64, to the
/// number of bytes that encode a value with that count.
pub fn init_bytes_needed_cache() -> (cache: [u8; 65])
    ensures
        forall|i: int| 0 <= i <= 64 ==> cache@[i] == bytes_needed(i),
{
    let mut cache: [u8; 65] = [
        0, 0, 0, 0, 0, 0, 0, 0, 0, 0, 0, 0, 0, 0, 0, 0, 0, 0, 0, 0, 0, 0, 0, 0, 0, 0, 0, 0, 0, 0, 0, 0,
        0, 0, 0, 0, 0, 0, 0, 0, 0, 0, 0, 0, 0, 0, 0, 0, 0, 0, 0, 0, 0, 0, 0, 0, 0, 0, 0, 0, 0, 0, 0, 0,
        0,
    ];
    let mut leading_zeros: usize = 0;
    while leading_zeros < 64
        invariant
            leading_zeros <= 64,
            forall|i: int| 0 <= i < leading_zeros ==> cache@[i] == bytes_needed(i),
        decreases 64 - leading_zeros,
    {
        let magnitude_bits_needed: usize = 64 - leading_zeros;
        cache[leading_zeros] = ((magnitude_bits_needed + 6) / 7) as u8;
        leading_zeros += 1;
    }
    // A value of zero has 64 leading zeros and still takes one byte.
    cache[64] = 1;
    cache
}

/// A value in `[128^(k-1), 128^k)` takes `k` bytes; so does one below 128 for
/// `k` = 1.
pub proof fn lemma_encoded_size_between(v: nat, k: nat)
    requires
        k >= 1,
        v < pow128(k),
        k >= 2 ==> v >= pow128((k - 1) as nat),
    ensures
        encoded_size(v) == k,
    decreases k,
{
    reveal_with_fuel(pow128, 3);
    if k >= 2 {
        lemma_encoded_size_between(v / 128, (k - 1) as nat);
    }
}

/// A value that takes `k` bytes is below 128 to the `k`, and from two bytes on
/// at least 128 to the `k - 1`.
pub proof fn lemma_encoded_size_range(v: nat)
    ensures
        v < pow128(encoded_size(v)),
        encoded_size(v) >= 2 ==> v >= pow128((encoded_size(v) - 1) as nat),
    decreases v,
{
    reveal_with_fuel(pow128, 3);
    if v >= 128 {
        lemma_encoded_size_range(v / 128);
    }
}

/// The powers of 128 that fit in 64 bits, as shifts.
pub proof fn lemma_pow128_values()
    ensures
        pow128(0) == 1,
        pow128(1) == 0x80,
        pow128(2) == 0x4000,
        pow128(3) == 0x20_0000,
        pow128(4) == 0x1000_0000,
        pow128(5) == 0x8_0000_0000,
        pow128(6) == 0x400_0000_0000,
        pow128(7) == 0x2_0000_0000_0000,
        pow128(8) == 0x100_0000_0000_0000,
        pow128(9) == 0x8000_0000_0000_0000,
        pow128(10) > 0xffff_ffff_ffff_ffff,
{
    reveal_with_fuel(pow128, 11);
}

/// The size of the encoding of a non-zero value follows from its count of
/// leading zero bits.
pub proof fn lemma_size_from_leading_zeros(v: u64)
    requires
        v != 0,
    ensures
        0 <= u64_leading_zeros(v) < 64,
        encoded_size(v as nat) == bytes_needed(u64_leading_zeros(v)),
{
    axiom_u64_leading_zeros(v);
    let lz = u64_leading_zeros(v);
    let top: u64 = (63 - lz) as u64;
    let above: u64 = (64 - lz) as u64;
    assert((v >> top) & 1 != 0);
    assert(v >> above == 0);
    assert(top < 64 && (v >> top) & 1 != 0 ==> (top >= 7 ==> v >= 0x80) && (top >= 14 ==> v
        >= 0x4000) && (top >= 21 ==> v >= 0x20_0000) && (top >= 28 ==> v >= 0x1000_0000) && (top
        >= 35 ==> v >= 0x8_0000_0000) && (top >= 42 ==> v >= 0x400_0000_0000) && (top >= 49 ==> v
        >= 0x2_0000_0000_0000) && (top >= 56 ==> v >= 0x100_0000_0000_0000) && (top >= 63 ==> v
        >= 0x8000_0000_0000_0000)) by (bit_vector);
    assert(above <= 64 && v >> above == 0 ==> (above <= 7 ==> v < 0x80) && (above <= 14 ==> v
        < 0x4000) && (above <= 21 ==> v < 0x20_0000) && (above <= 28 ==> v < 0x1000_0000) && (
    above <= 35 ==> v < 0x8_0000_0000) && (above <= 42 ==> v < 0x400_0000_0000) && (above <= 49
        ==> v < 0x2_0000_0000_0000) && (above <= 56 ==> v < 0x100_0000_0000_0000) && (above <= 63
        ==> v < 0x8000_0000_0000_0000)) by (bit_vector);
    lemma_pow128_values();
    let k = bytes_needed(lz) as nat;
    assert(1 <= k <= 10);
    assert(7 * (k - 1) <= top);
    assert(above <= 7 * k);
    lemma_encoded_size_between(v as nat, k);
}

/// Appends the Ion 1.1 encoding of `value` to `output` and returns the number
/// of bytes appended.
#[verifier::rlimit(50)]
pub fn encode_var_uint(output: &mut Vec<u8>, value: u64) -> (r: IonResult<usize>)
    ensures
        final(output)@ == old(output)@ + flex_uint_bytes(value),
        r == Ok::<usize, IonError>(encoded_size(value as nat) as usize),
        1 <= encoded_size(value as nat) <= 10,
{
    proof {
        lemma_pow128_values();
        lemma_encoded_size_range(value as nat);
    }
    if value < 0x80 {
        proof {
            lemma_encoded_size_between(value as nat, 1);
        }
        let byte: u8 = (value * 2) as u8 + 1;
        assert(value < 0x80 ==> ((((value << 1) | (1u64 << 0)) >> 0) & 0xff) == value * 2 + 1)
            by (bit_vector);
        output.push(byte);
        assert(flex_uint_bytes(value) =~= seq![byte]);
        assert(final(output)@ =~= old(output)@ + seq![byte]);
        return Ok(1);
    } else if value < 0x4000 {
        proof {
            lemma_encoded_size_between(value as nat, 2);
        }
        let encoded: u16 = (value * 4) as u16 + 2;
        let low: u8 = (encoded & 0xff) as u8;
        let high: u8 = (encoded >> 8) as u8;
        assert(value < 0x4000 && encoded == (value * 4) as u16 + 2 ==> low == ((((value << 2) | (
        1u64 << 1)) >> 0) & 0xff) as u8 && high
            == ((((value << 2) | (1u64 << 1)) >> 8) & 0xff) as u8)
            by (bit_vector)
            requires
                low == (encoded & 0xff) as u8,
                high == (encoded >> 8) as u8,
        ;
        output.push(low);
        output.push(high);
        assert(flex_uint_bytes(value) =~= seq![low, high]);
        assert(final(output)@ =~= old(output)@ + seq![low, high]);
        return Ok(2);
    }
    let leading_zeros: u32 = value.leading_zeros();
    proof {
        lemma_size_from_leading_zeros(value);
    }
    let num_encoded_bytes: usize = (64 - leading_zeros as usize + 6) / 7;
    let ghost start = output@;
    if num_encoded_bytes <= 8 {
        // The end flag and the value fit in one 64-bit word.
        let flag_bits: u64 = 1u64 << ((num_encoded_bytes - 1) as u64);
        let shift: u64 = num_encoded_bytes as u64;
        let encoded_value: u64 = (value << shift) | flag_bits;
        let mut i: usize = 0;
        while i < num_encoded_bytes
            invariant
                i <= num_encoded_bytes <= 8,
                num_encoded_bytes == encoded_size(value as nat),
                encoded_value == (value << (num_encoded_bytes as u64)) | (1u64 << ((
                num_encoded_bytes - 1) as u64)),
                output@.len() == start.len() + i,
                forall|j: int| 0 <= j < start.len() ==> output@[j] == start[j],
                forall|j: int|
                    0 <= j < i ==> output@[start.len() + j] == flex_uint_byte(value, j),
            decreases num_encoded_bytes - i,
        {
            let byte: u8 = ((encoded_value >> ((8 * i) as u64)) & 0xff) as u8;
            output.push(byte);
            i += 1;
        }
        assert(output@ =~= start + flex_uint_bytes(value));
        Ok(num_encoded_bytes)
    } else if num_encoded_bytes == 9 {
        // A zero byte, then the value above an end flag in eight bytes.
        assert(value < 0x8000_0000_0000_0000);
        let encoded_value: u64 = (value << 1u64) | 1;
        output.push(0);
        let mut i: usize = 0;
        while i < 8
            invariant
                i <= 8,
                encoded_size(value as nat) == 9,
                encoded_value == (value << 1) | 1,
                output@.len() == start.len() + 1 + i,
                forall|j: int| 0 <= j < start.len() ==> output@[j] == start[j],
                forall|j: int|
                    0 <= j < 1 + i ==> output@[start.len() + j] == flex_uint_byte(value, j),
            decreases 8 - i,
        {
            let byte: u8 = ((encoded_value >> ((8 * i) as u64)) & 0xff) as u8;
            output.push(byte);
            i += 1;
        }
        assert(output@ =~= start + flex_uint_bytes(value));
        Ok(9)
    } else {
        // A zero byte, a byte with the flag bits `10` under six bits of the
        // value, and the other 58 bits in eight bytes.
        let second_byte: u8 = ((((value & 0b11_1111) << 2u64) | 0b10u64) & 0xff) as u8;
        let remaining_magnitude: u64 = value >> 6u64;
        output.push(0);
        output.push(second_byte);
        let mut i: usize = 0;
        while i < 8
            invariant
                i <= 8,
                encoded_size(value as nat) == 10,
                remaining_magnitude == value >> 6,
                output@.len() == start.len() + 2 + i,
                forall|j: int| 0 <= j < start.len() ==> output@[j] == start[j],
                forall|j: int|
                    0 <= j < 2 + i ==> output@[start.len() + j] == flex_uint_byte(value, j),
            decreases 8 - i,
        {
            let byte: u8 = ((remaining_magnitude >> ((8 * i) as u64)) & 0xff) as u8;
            output.push(byte);
            i += 1;
        }
        assert(output@ =~= start + flex_uint_bytes(value));
        Ok(10)
    }
}

/// Reads the little-endian number in the eight bytes of `buffer` that start at
/// `start`, by `byteorder::LittleEndian::read_u64`.
///
/// `read_u64` takes the first eight bytes of the slice it is given and panics
/// on a shorter one; the slice handed to it here has `10 - start` bytes.
#[verifier::external_body]
fn read_u64_le(buffer: &[u8; 10], start: usize) -> (value: u64)
    requires
        start + 8 <= 10,
    ensures
        value == le_u64(buffer@, start as int),
{
    LittleEndian::read_u64(&buffer[start..])
}

/// Decodes an Ion 1.1 variable-length unsigned integer from the front of
/// `bytes`, and returns the number of bytes of its encoding and the value.
///
/// Input shorter than ten bytes is read as if zeros followed it.
#[verifier::rlimit(50)]
pub fn decode_var_uint(bytes: &[u8]) -> (r: IonResult<(usize, u64)>)
    ensures
        match flex_uint_parse(bytes@) {
            Ok((value, size)) => r == Ok::<(usize, u64), IonError>((size as usize, value)) && 1
                <= size <= 10,
            Err(_) => r == Err::<(usize, u64), IonError>(IonError::Decoding),
        },
{
    let mut buffer: [u8; 10] = [0, 0, 0, 0, 0, 0, 0, 0, 0, 0];
    let mut i: usize = 0;
    while i < bytes.len() && i < 10
        invariant
            i <= 10,
            i <= bytes@.len(),
            forall|j: int| 0 <= j < i ==> buffer@[j] == bytes@[j],
            forall|j: int| i <= j < 10 ==> buffer@[j] == 0,
        decreases 10 - i,
    {
        buffer[i] = bytes[i];
        i += 1;
    }
    assert(buffer@ =~= zero_padded(bytes@));
    let first: u8 = buffer[0];
    let second: u8 = buffer[1];
    if first == 0 {
        if second & 0b11 == 0b00 {
            // The flag bits announce more than ten bytes.
            Err(IonError::Decoding)
        } else if second & 0b11 == 0b10 {
            let low_six: u8 = second >> 2;
            let remaining_magnitude: u64 = read_u64_le(&buffer, 2);
            if remaining_magnitude > 0x03ff_ffff_ffff_ffff {
                return Err(IonError::Decoding);
            }
            let value: u64 = (remaining_magnitude << 6u64) | (low_six as u64);
            Ok((10, value))
        } else {
            let value: u64 = read_u64_le(&buffer, 1) >> 1u64;
            Ok((9, value))
        }
    } else {
        proof {
            axiom_u8_trailing_zeros(first);
        }
        let num_encoded_bytes: usize = first.trailing_zeros() as usize + 1;
        assert(num_encoded_bytes < 8 ==> (1u64 << ((8 * num_encoded_bytes) as u64)) >= 1) by {
            let n = num_encoded_bytes as u64;
            assert(n < 8 ==> (1u64 << ((8 * n) as u64)) >= 1) by (bit_vector);
        }
        let mask: u64 = if num_encoded_bytes >= 8 {
            u64::MAX
        } else {
            (1u64 << ((8 * num_encoded_bytes) as u64)) - 1
        };
        let encoded_value: u64 = read_u64_le(&buffer, 0);
        let value: u64 = (encoded_value & mask) >> (num_encoded_bytes as u64);
        Ok((num_encoded_bytes, value))
    }
}

/// The two encodings of a value have the same length.
pub proof fn lemma_encodings_agree_on_size(v: u64)
    ensures
        crate::binary::var_uint::var_uint_bytes(v as nat).len() == flex_uint_bytes(v).len(),
        flex_uint_bytes(v).len() == encoded_size(v as nat),
{
    crate::binary::var_uint::lemma_var_uint_bytes_len(v as nat);
}

/// Decoding the Ion 1.1 encoding of a value yields that value and the length
/// of the encoding, whatever bytes follow it.
#[verifier::rlimit(50)]
pub proof fn lemma_flex_uint_round_trip(v: u64, rest: Seq<u8>)
    ensures
        flex_uint_parse(flex_uint_bytes(v) + rest) == Ok::<(u64, nat), ParseFault>(
            (v, encoded_size(v as nat)),
        ),
{
    let n = encoded_size(v as nat);
    let bytes = flex_uint_bytes(v);
    let p = zero_padded(bytes + rest);
    crate::binary::var_uint::lemma_encoded_size_u64(v);
    lemma_encoded_size_range(v as nat);
    lemma_pow128_values();
    assert forall|i: int| 0 <= i < n implies p[i] == flex_uint_byte(v, i) by {
        assert((bytes + rest)[i] == bytes[i]);
    }
    if n <= 8 {
        let k = n as u64;
        let e: u64 = (v << k) | (1u64 << ((k - 1) as u64));
        let limit: u64 = (1u64 << ((7 * k) as u64));
        assert(1 <= k <= 8 ==> (k == 1 ==> (1u64 << ((7 * k) as u64)) == 0x80) && (k == 2 ==> (1u64
            << ((7 * k) as u64)) == 0x4000) && (k == 3 ==> (1u64 << ((7 * k) as u64)) == 0x20_0000)
            && (k == 4 ==> (1u64 << ((7 * k) as u64)) == 0x1000_0000) && (k == 5 ==> (1u64 << ((7
            * k) as u64)) == 0x8_0000_0000) && (k == 6 ==> (1u64 << ((7 * k) as u64))
            == 0x400_0000_0000) && (k == 7 ==> (1u64 << ((7 * k) as u64)) == 0x2_0000_0000_0000)
            && (k == 8 ==> (1u64 << ((7 * k) as u64)) == 0x100_0000_0000_0000)) by (bit_vector);
        assert(v < limit);
        let first = p[0];
        assert(first == le_byte(e, 0));
        let w = le_u64(p, 0);
        let mask = if k >= 8 {
            0xffff_ffff_ffff_ffffu64
        } else {
            ((1u64 << ((8 * k) as u64)) - 1) as u64
        };
        let (b0, b1, b2, b3, b4, b5, b6, b7) = (p[0], p[1], p[2], p[3], p[4], p[5], p[6], p[7]);
        assert(b1 == le_byte(e, 1) || k <= 1);
        assert(b2 == le_byte(e, 2) || k <= 2);
        assert(b3 == le_byte(e, 3) || k <= 3);
        assert(b4 == le_byte(e, 4) || k <= 4);
        assert(b5 == le_byte(e, 5) || k <= 5);
        assert(b6 == le_byte(e, 6) || k <= 6);
        assert(b7 == le_byte(e, 7) || k <= 7);
        // The low `8 * k` bits of the word read back are those of `e`.
        assert((w & mask) == e) by (bit_vector)
            requires
                1 <= k <= 8,
                v < (1u64 << ((7 * k) as u64)),
                e == (v << k) | (1u64 << ((k - 1) as u64)),
                mask == if k >= 8 {
                    0xffff_ffff_ffff_ffffu64
                } else {
                    ((1u64 << ((8 * k) as u64)) - 1) as u64
                },
                w == (b0 as u64) | ((b1 as u64) << 8) | ((b2 as u64) << 16) | ((b3 as u64) << 24)
                    | ((b4 as u64) << 32) | ((b5 as u64) << 40) | ((b6 as u64) << 48) | ((b7 as u64)
                    << 56),
                b0 == ((e >> 0) & 0xff) as u8,
                k <= 1 || b1 == ((e >> 8) & 0xff) as u8,
                k <= 2 || b2 == ((e >> 16) & 0xff) as u8,
                k <= 3 || b3 == ((e >> 24) & 0xff) as u8,
                k <= 4 || b4 == ((e >> 32) & 0xff) as u8,
                k <= 5 || b5 == ((e >> 40) & 0xff) as u8,
                k <= 6 || b6 == ((e >> 48) & 0xff) as u8,
                k <= 7 || b7 == ((e >> 56) & 0xff) as u8,
        ;
        // The end flag is the lowest set bit of the first byte.
        assert(first != 0 && (first >> ((k - 1) as u8)) & 1 == 1 && e >> k == v && (forall|
            j: u8,
        |
            j < (k - 1) as u8 ==> (first >> j) & 1 == 0)) by {
            assert(first != 0 && (first >> ((k - 1) as u8)) & 1 == 1 && e >> k == v) by (bit_vector)
                requires
                    1 <= k <= 8,
                    v < (1u64 << ((7 * k) as u64)),
                    e == (v << k) | (1u64 << ((k - 1) as u64)),
                    first == ((e >> 0) & 0xff) as u8,
            ;
            assert forall|j: u8| j < (k - 1) as u8 implies (first >> j) & 1 == 0 by {
                assert((first >> j) & 1 == 0) by (bit_vector)
                    requires
                        1 <= k <= 8,
                        j < (k - 1) as u8,
                        e == (v << k) | (1u64 << ((k - 1) as u64)),
                        first == ((e >> 0) & 0xff) as u8,
                ;
            }
        }
        axiom_u8_trailing_zeros(first);
        let t = u8_trailing_zeros(first);
        assert(t == k - 1) by {
            if t < k - 1 {
                assert((first >> (t as u8)) & 1 == 0);
            } else if t > k - 1 {
                assert((first >> ((k - 1) as u8)) & 1 == 0);
            }
        }
    } else if n == 9 {
        let e: u64 = (v << 1) | 1;
        let w = le_u64(p, 1);
        let (b0, b1, b2, b3, b4, b5, b6, b7) = (p[1], p[2], p[3], p[4], p[5], p[6], p[7], p[8]);
        assert(p[0] == 0);
        assert(b0 == le_byte(e, 0));
        assert(b1 == le_byte(e, 1));
        assert(b2 == le_byte(e, 2));
        assert(b3 == le_byte(e, 3));
        assert(b4 == le_byte(e, 4));
        assert(b5 == le_byte(e, 5));
        assert(b6 == le_byte(e, 6));
        assert(b7 == le_byte(e, 7));
        assert(w >> 1 == v && b0 & 0b11 != 0b00 && b0 & 0b11 != 0b10) by (bit_vector)
            requires
                v < 0x8000_0000_0000_0000,
                e == (v << 1) | 1,
                w == (b0 as u64) | ((b1 as u64) << 8) | ((b2 as u64) << 16) | ((b3 as u64) << 24)
                    | ((b4 as u64) << 32) | ((b5 as u64) << 40) | ((b6 as u64) << 48) | ((b7 as u64)
                    << 56),
                b0 == ((e >> 0) & 0xff) as u8,
                b1 == ((e >> 8) & 0xff) as u8,
                b2 == ((e >> 16) & 0xff) as u8,
                b3 == ((e >> 24) & 0xff) as u8,
                b4 == ((e >> 32) & 0xff) as u8,
                b5 == ((e >> 40) & 0xff) as u8,
                b6 == ((e >> 48) & 0xff) as u8,
                b7 == ((e >> 56) & 0xff) as u8,
        ;
    } else {
        let e: u64 = v >> 6;
        let w = le_u64(p, 2);
        let second = p[1];
        let (b0, b1, b2, b3, b4, b5, b6, b7) = (p[2], p[3], p[4], p[5], p[6], p[7], p[8], p[9]);
        assert(p[0] == 0);
        assert(second == ((((v & 0x3f) << 2) | 2) & 0xff) as u8);
        assert(b0 == le_byte(e, 0));
        assert(b1 == le_byte(e, 1));
        assert(b2 == le_byte(e, 2));
        assert(b3 == le_byte(e, 3));
        assert(b4 == le_byte(e, 4));
        assert(b5 == le_byte(e, 5));
        assert(b6 == le_byte(e, 6));
        assert(b7 == le_byte(e, 7));
        assert(w <= 0x03ff_ffff_ffff_ffff && (w << 6) | ((second >> 2) as u64) == v && second & 0b11
            == 0b10) by (bit_vector)
            requires
                e == v >> 6,
                second == ((((v & 0x3f) << 2) | 2) & 0xff) as u8,
                w == (b0 as u64) | ((b1 as u64) << 8) | ((b2 as u64) << 16) | ((b3 as u64) << 24)
                    | ((b4 as u64) << 32) | ((b5 as u64) << 40) | ((b6 as u64) << 48) | ((b7 as u64)
                    << 56),
                b0 == ((e >> 0) & 0xff) as u8,
                b1 == ((e >> 8) & 0xff) as u8,
                b2 == ((e >> 16) & 0xff) as u8,
                b3 == ((e >> 24) & 0xff) as u8,
                b4 == ((e >> 32) & 0xff) as u8,
                b5 == ((e >> 40) & 0xff) as u8,
                b6 == ((e >> 48) & 0xff) as u8,
                b7 == ((e >> 56) & 0xff) as u8,
        ;
    }
}

} // verus!
