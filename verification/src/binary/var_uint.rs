//! The Ion 1.0 variable-length unsigned integer.
//!
//! A `VarUInt` is written in base 128, most significant group first. Every byte
//! carries seven bits of magnitude; the high bit is clear on all bytes but the
//! last one, where it is set.

use vstd::prelude::*;
use crate::result::{IonError, IonResult, ParseFault};

verus! {

/// The largest number of bytes a `VarUInt` that fits in 64 bits can take.
pub const MAX_ENCODED_SIZE_IN_BYTES: usize = 10;

/// 128 to the power `n`.
pub open spec fn pow128(n: nat) -> nat
    decreases n,
{
    if n == 0 {
        1
    } else {
        128 * pow128((n - 1) as nat)
    }
}

/// The number of bytes that encode `v`, in Ion 1.0 and in Ion 1.1 alike: the
/// number of base-128 digits of `v`, and one for zero.
pub open spec fn encoded_size(v: nat) -> nat
    decreases v,
{
    if v < 128 {
        1
    } else {
        1 + encoded_size(v / 128)
    }
}

/// The base-128 digits of `v`, most significant first; empty for zero.
pub open spec fn var_uint_groups(v: nat) -> Seq<u8>
    decreases v,
{
    if v == 0 {
        Seq::empty()
    } else {
        var_uint_groups(v / 128).push((v % 128) as u8)
    }
}

/// The Ion 1.0 encoding of `v`: its leading digits, then the last digit with
/// the end flag set.
pub open spec fn var_uint_bytes(v: nat) -> Seq<u8> {
    var_uint_groups(v / 128).push((128 + v % 128) as u8)
}

/// The number that the low seven bits of each byte of `s` spell, most
/// significant group first.
pub open spec fn var_uint_magnitude(s: Seq<u8>) -> nat
    decreases s.len(),
{
    if s.len() == 0 {
        0
    } else {
        var_uint_magnitude(s.drop_last()) * 128 + (s.last() % 128) as nat
    }
}

/// The position of the first byte of `s` whose end flag is set.
pub open spec fn first_end_flag(s: Seq<u8>) -> Option<int>
    decreases s.len(),
{
    if s.len() == 0 {
        None
    } else if s[0] >= 128 {
        Some(0)
    } else {
        match first_end_flag(s.drop_first()) {
            Some(i) => Some(i + 1),
            None => None,
        }
    }
}

/// What reading a `VarUInt` from the front of `s` yields: the value and the
/// number of bytes it took. An encoding longer than ten bytes is malformed, and
/// so is one of ten bytes whose first byte holds more than one bit.
pub open spec fn var_uint_parse(s: Seq<u8>) -> Result<(nat, nat), ParseFault> {
    let window = if s.len() <= 10 {
        s
    } else {
        s.take(10)
    };
    match first_end_flag(window) {
        Some(i) => if i == 9 && s[0] > 1 {
            Err(ParseFault::Malformed)
        } else {
            Ok((var_uint_magnitude(s.take(i + 1)), (i + 1) as nat))
        },
        None => if s.len() >= 10 {
            Err(ParseFault::Malformed)
        } else {
            Err(ParseFault::Incomplete)
        },
    }
}

/// `first_end_flag` finds `i` when the flag is clear before `i` and set at `i`.
pub proof fn lemma_first_end_flag_at(s: Seq<u8>, i: int)
    requires
        0 <= i < s.len(),
        s[i] >= 128,
        forall|j: int| 0 <= j < i ==> s[j] < 128,
    ensures
        first_end_flag(s) == Some(i),
    decreases i,
{
    if i > 0 {
        lemma_first_end_flag_at(s.drop_first(), i - 1);
    }
}

/// `first_end_flag` finds nothing when the flag is clear on every byte.
pub proof fn lemma_first_end_flag_none(s: Seq<u8>)
    requires
        forall|j: int| 0 <= j < s.len() ==> s[j] < 128,
    ensures
        first_end_flag(s) is None,
    decreases s.len(),
{
    if s.len() > 0 {
        lemma_first_end_flag_none(s.drop_first());
    }
}

/// Only the bytes up to the first end flag decide where it stands.
pub proof fn lemma_first_end_flag_prefix(s: Seq<u8>, rest: Seq<u8>)
    requires
        first_end_flag(s) is Some,
    ensures
        first_end_flag(s + rest) == first_end_flag(s),
    decreases s.len(),
{
    if s[0] < 128 {
        assert((s + rest).drop_first() =~= s.drop_first() + rest);
        lemma_first_end_flag_prefix(s.drop_first(), rest);
    }
}

/// The magnitude of `n` bytes is below 128 to the `n`, and at least the first
/// group times 128 to the `n - 1`.
pub proof fn lemma_magnitude_bounds(s: Seq<u8>)
    ensures
        var_uint_magnitude(s) < pow128(s.len()),
        s.len() > 0 ==> var_uint_magnitude(s) >= (s[0] % 128) as nat * pow128((s.len() - 1) as nat),
        s.len() > 0 ==> var_uint_magnitude(s) < ((s[0] % 128) as nat
            + 1) * pow128((s.len() - 1) as nat),
    decreases s.len(),
{
    if s.len() == 0 {
    } else if s.len() == 1 {
        assert(s.drop_last().len() == 0);
        assert(var_uint_magnitude(s.drop_last()) == 0);
        reveal_with_fuel(pow128, 2);
        let d = (s[0] % 128) as nat;
        assert(pow128(0) == 1);
        assert(var_uint_magnitude(s) == d);
        assert(d * 1 == d && (d + 1) * 1 == d + 1) by (nonlinear_arith);
    } else {
        let head = s.drop_last();
        lemma_magnitude_bounds(head);
        assert(head[0] == s[0]);
        let p = pow128((head.len() - 1) as nat);
        let d = (s[0] % 128) as nat;
        let m = var_uint_magnitude(head);
        let low = (s.last() % 128) as nat;
        assert(var_uint_magnitude(s) == m * 128 + low);
        assert(pow128(head.len()) == 128 * p);
        assert(pow128(s.len()) == 128 * pow128(head.len()));
        assert(pow128((s.len() - 1) as nat) == 128 * p);
        assert(m * 128 + low < 128 * pow128(head.len())) by (nonlinear_arith)
            requires
                m < pow128(head.len()),
                low < 128,
        ;
        assert(m * 128 + low >= d * (128 * p)) by (nonlinear_arith)
            requires
                m >= d * p,
        ;
        assert(m * 128 + low < (d + 1) * (128 * p)) by (nonlinear_arith)
            requires
                m < (d + 1) * p,
                low < 128,
        ;
    }
}

/// The digits of `v` carry no end flag, and spell `v`.
pub proof fn lemma_groups(v: nat)
    ensures
        forall|j: int| 0 <= j < var_uint_groups(v).len() ==> var_uint_groups(v)[j] < 128,
        var_uint_magnitude(var_uint_groups(v)) == v,
        v > 0 ==> var_uint_groups(v).len() == encoded_size(v),
        v == 0 ==> var_uint_groups(v).len() == 0,
    decreases v,
{
    if v > 0 {
        lemma_groups(v / 128);
        let g = var_uint_groups(v);
        assert(g.drop_last() =~= var_uint_groups(v / 128));
        assert(g.last() == (v % 128) as u8);
    }
}

/// The encoding of `v` takes `encoded_size(v)` bytes.
pub proof fn lemma_var_uint_bytes_len(v: nat)
    ensures
        var_uint_bytes(v).len() == encoded_size(v),
{
    lemma_groups(v / 128);
}

/// A number below 2 to the 64 takes at most ten bytes.
pub proof fn lemma_encoded_size_u64(v: u64)
    ensures
        1 <= encoded_size(v as nat) <= 10,
{
    let v0 = v as nat;
    let v1 = v0 / 128;
    let v2 = v1 / 128;
    let v3 = v2 / 128;
    let v4 = v3 / 128;
    let v5 = v4 / 128;
    let v6 = v5 / 128;
    let v7 = v6 / 128;
    let v8 = v7 / 128;
    let v9 = v8 / 128;
    assert(v9 < 128);
    reveal_with_fuel(encoded_size, 11);
}

/// Reading back the encoding of a 64-bit number yields that number and the
/// length of the encoding, whatever bytes follow it.
#[verifier::rlimit(50)]
pub proof fn lemma_var_uint_round_trip(v: u64, rest: Seq<u8>)
    ensures
        var_uint_parse(var_uint_bytes(v as nat) + rest) == Ok::<(nat, nat), ParseFault>(
            (v as nat, encoded_size(v as nat)),
        ),
{
    let n = v as nat;
    let bytes = var_uint_bytes(n);
    let s = bytes + rest;
    let last = bytes.len() - 1;
    lemma_groups(n / 128);
    lemma_var_uint_bytes_len(n);
    lemma_encoded_size_u64(v);
    assert(bytes.drop_last() =~= var_uint_groups(n / 128));
    assert(var_uint_magnitude(bytes) == (n / 128) * 128 + n % 128);
    lemma_first_end_flag_at(bytes, last);
    let window = if s.len() <= 10 {
        s
    } else {
        s.take(10)
    };
    assert(s =~= bytes + rest);
    if s.len() <= 10 {
        lemma_first_end_flag_prefix(bytes, rest);
    } else {
        assert(window =~= bytes + rest.take(10 - bytes.len()));
        lemma_first_end_flag_prefix(bytes, rest.take(10 - bytes.len()));
    }
    assert(first_end_flag(window) == Some(last));
    assert(s.take(last + 1) =~= bytes);
    if last == 9 {
        lemma_magnitude_bounds(bytes);
        assert(s[0] == bytes[0]);
        assert(bytes[0] < 128);
        reveal_with_fuel(pow128, 10);
        assert(pow128(9) == 0x8000_0000_0000_0000);
        let d = (bytes[0] % 128) as nat;
        assert(d < 2) by (nonlinear_arith)
            requires
                d * 0x8000_0000_0000_0000 <= n,
                n < 0x1_0000_0000_0000_0000,
        ;
    }
}

/// A decoded variable-length unsigned integer: the value and the number of
/// bytes its encoding took.
#[derive(Debug, Clone, Copy, PartialEq, Eq, Structural)]
pub struct VarUInt {
    value: u64,
    size_in_bytes: usize,
}

impl VarUInt {
    /// The decoded number.
    pub closed spec fn spec_value(&self) -> u64 {
        self.value
    }

    /// The number of bytes the encoding took.
    pub closed spec fn spec_size_in_bytes(&self) -> usize {
        self.size_in_bytes
    }

    pub fn new(value: u64, size_in_bytes: usize) -> (v: Self)
        ensures
            v.spec_value() == value,
            v.spec_size_in_bytes() == size_in_bytes,
    {
        VarUInt { value, size_in_bytes }
    }

    /// Reads a `VarUInt` from the front of `bytes`.
    ///
    /// Succeeds exactly when `var_uint_parse` yields a value; reports
    /// `Incomplete`, with the length of `bytes` as the offset, when fewer than
    /// ten bytes are given and none ends the number; reports `Decoding`
    /// otherwise.
    #[verifier::rlimit(50)]
    pub fn read(bytes: &[u8]) -> (r: IonResult<VarUInt>)
        ensures
            match var_uint_parse(bytes@) {
                Ok((value, size)) => r is Ok && r->Ok_0.spec_value() == value
                    && r->Ok_0.spec_size_in_bytes() == size && 1 <= size <= 10 && size
                    <= bytes@.len(),
                Err(ParseFault::Incomplete) => r == Err::<VarUInt, IonError>(
                    IonError::Incomplete { offset: bytes@.len() as usize },
                ),
                Err(ParseFault::Malformed) => r == Err::<VarUInt, IonError>(IonError::Decoding),
            },
    {
        let mut magnitude: u64 = 0;
        let mut i: usize = 0;
        let ghost window = if bytes@.len() <= 10 {
            bytes@
        } else {
            bytes@.take(10)
        };
        while i < bytes.len() && i < MAX_ENCODED_SIZE_IN_BYTES
            invariant
                i <= bytes@.len(),
                i <= 10,
                window == if bytes@.len() <= 10 {
                    bytes@
                } else {
                    bytes@.take(10)
                },
                forall|j: int| 0 <= j < i ==> bytes@[j] < 128,
                magnitude == var_uint_magnitude(bytes@.take(i as int)),
                i <= 8 ==> magnitude < pow128(i as nat),
                i == 9 ==> magnitude < 0x8000_0000_0000_0000,
            decreases 10 - i,
        {
            let byte = bytes[i];
            if i == 9 && bytes[0] > 1 {
                proof {
                    if byte >= 128 {
                        lemma_first_end_flag_at(window, 9);
                    } else {
                        lemma_first_end_flag_none(window);
                    }
                }
                return Err(IonError::Decoding);
            }
            proof {
                lemma_magnitude_bounds(bytes@.take(i as int));
                reveal_with_fuel(pow128, 10);
                assert(bytes@.take(i as int + 1).drop_last() =~= bytes@.take(i as int));
                if i == 9 {
                    assert(bytes@.take(9)[0] == bytes@[0]);
                    assert(pow128(8) == 0x0100_0000_0000_0000);
                }
                assert(pow128(8) == 0x0100_0000_0000_0000);
                assert(magnitude < 0x0200_0000_0000_0000) by {
                    if i <= 8 {
                        lemma_pow128_monotonic(i as nat, 8);
                    } else {
                        let d = (bytes@[0] % 128) as nat;
                        assert((d + 1) * pow128(8) <= 2 * pow128(8)) by (nonlinear_arith)
                            requires
                                d <= 1,
                        ;
                    }
                }
                let m = magnitude;
                assert(m < 0x0200_0000_0000_0000 ==> ((m << 7) | ((byte & 0x7f) as u64)) == m * 128
                    + (byte % 128) as u64) by (bit_vector);
            }
            magnitude = (magnitude << 7) | ((byte & 0x7f) as u64);
            i += 1;
            proof {
                lemma_magnitude_bounds(bytes@.take(i as int));
                if i == 9 {
                    assert(pow128(9) == 0x8000_0000_0000_0000);
                }
            }
            if byte >= 0x80 {
                proof {
                    lemma_first_end_flag_at(window, i - 1);
                }
                return Ok(VarUInt { value: magnitude, size_in_bytes: i });
            }
        }
        proof {
            lemma_first_end_flag_none(window);
        }
        if i == MAX_ENCODED_SIZE_IN_BYTES {
            Err(IonError::Decoding)
        } else {
            Err(IonError::Incomplete { offset: i })
        }
    }

    /// Appends the encoding of `magnitude` to `sink` and returns the number of
    /// bytes appended.
    #[verifier::rlimit(50)]
    pub fn write_u64(sink: &mut Vec<u8>, magnitude: u64) -> (r: IonResult<usize>)
        ensures
            final(sink)@ == old(sink)@ + var_uint_bytes(magnitude as nat),
            r == Ok::<usize, IonError>(encoded_size(magnitude as nat) as usize),
            1 <= encoded_size(magnitude as nat) <= 10,
    {
        proof {
            lemma_encoded_size_u64(magnitude);
            lemma_var_uint_bytes_len(magnitude as nat);
        }
        if magnitude == 0 {
            sink.push(0x80);
            assert(var_uint_bytes(0) =~= seq![0x80u8]);
            assert(final(sink)@ =~= old(sink)@ + seq![0x80u8]);
            return Ok(1);
        }
        // The encoding is built right to left; the last byte starts out with
        // its end flag set.
        let mut buffer: [u8; 10] = [0, 0, 0, 0, 0, 0, 0, 0, 0, 0x80];
        let mut remaining: u64 = magnitude;
        let mut first_byte: usize = MAX_ENCODED_SIZE_IN_BYTES;
        assert(remaining as nat * pow128(0) <= magnitude) by (nonlinear_arith)
            requires
                pow128(0) == 1,
                remaining == magnitude,
        ;
        while first_byte > 0 && (remaining != 0 || first_byte == MAX_ENCODED_SIZE_IN_BYTES)
            invariant
                first_byte <= 10,
                first_byte == 10 ==> remaining == magnitude && buffer@[9] == 0x80,
                forall|j: int| 0 <= j < first_byte && j < 9 ==> buffer@[j] == 0,
                first_byte < 10 ==> var_uint_bytes(magnitude as nat) == var_uint_groups(
                    remaining as nat,
                ) + buffer@.subrange(first_byte as int, 10),
                remaining as nat * pow128((10 - first_byte) as nat) <= magnitude,
            decreases first_byte,
        {
            let ghost before = buffer@;
            let ghost k = (10 - first_byte) as nat;
            first_byte -= 1;
            let low: u8 = (remaining % 128) as u8;
            let flagged: u8 = buffer[first_byte] | low;
            assert(low < 128 ==> (0x80u8 | low) == 128 + low) by (bit_vector);
            assert(0u8 | low == low) by (bit_vector);
            buffer[first_byte] = flagged;
            let ghost previous = remaining;
            assert(remaining >> 7 == remaining / 128) by (bit_vector);
            remaining = remaining >> 7;
            proof {
                let tail = buffer@.subrange(first_byte as int, 10);
                if first_byte == 9 {
                    assert(flagged == 128 + low);
                    assert(tail =~= seq![(128 + magnitude % 128) as u8]);
                    assert(var_uint_groups(remaining as nat).push((128 + magnitude % 128) as u8)
                        =~= var_uint_groups(remaining as nat) + tail);
                } else {
                    assert(previous > 0);
                    assert(flagged == low);
                    assert(tail =~= seq![low] + before.subrange(first_byte as int + 1, 10));
                    assert(var_uint_groups(previous as nat) =~= var_uint_groups(
                        remaining as nat,
                    ).push(low));
                    assert(var_uint_groups(previous as nat) + before.subrange(
                        first_byte as int + 1,
                        10,
                    ) =~= var_uint_groups(remaining as nat) + tail);
                }
                assert(pow128(k + 1) == 128 * pow128(k));
                assert(remaining as nat * pow128(k + 1) <= magnitude) by (nonlinear_arith)
                    requires
                        remaining as nat * 128 <= previous as nat,
                        previous as nat * pow128(k) <= magnitude,
                        pow128(k + 1) == 128 * pow128(k),
                ;
            }
        }
        proof {
            if remaining != 0 {
                assert(first_byte == 0);
                reveal_with_fuel(pow128, 11);
                assert(pow128(10) > 0xffff_ffff_ffff_ffff);
                assert(false) by (nonlinear_arith)
                    requires
                        remaining as nat * pow128(10) <= magnitude,
                        remaining >= 1,
                        pow128(10) > 0xffff_ffff_ffff_ffff,
                        magnitude <= 0xffff_ffff_ffff_ffff,
                ;
            }
            assert(var_uint_groups(0) =~= Seq::<u8>::empty());
            assert(var_uint_bytes(magnitude as nat) =~= buffer@.subrange(first_byte as int, 10));
        }
        let encoded_size = MAX_ENCODED_SIZE_IN_BYTES - first_byte;
        let mut i: usize = first_byte;
        while i < MAX_ENCODED_SIZE_IN_BYTES
            invariant
                first_byte <= i <= 10,
                sink@ == old(sink)@ + buffer@.subrange(first_byte as int, i as int),
            decreases 10 - i,
        {
            sink.push(buffer[i]);
            i += 1;
            assert(buffer@.subrange(first_byte as int, i as int) =~= buffer@.subrange(
                first_byte as int,
                i as int - 1,
            ).push(buffer@[i as int - 1]));
        }
        Ok(encoded_size)
    }

    /// Returns the magnitude of the unsigned integer.
    #[inline(always)]
    #[verifier::when_used_as_spec(spec_value)]
    pub fn value(&self) -> (v: u64)
        ensures
            v == self.spec_value(),
    {
        self.value
    }

    /// Returns the number of bytes that were read to decode this integer.
    #[inline(always)]
    #[verifier::when_used_as_spec(spec_size_in_bytes)]
    pub fn size_in_bytes(&self) -> (n: usize)
        ensures
            n == self.spec_size_in_bytes(),
    {
        self.size_in_bytes
    }
}

/// `pow128` grows with its argument.
pub proof fn lemma_pow128_monotonic(a: nat, b: nat)
    requires
        a <= b,
    ensures
        pow128(a) <= pow128(b),
        pow128(a) >= 1,
    decreases b,
{
    if a < b {
        lemma_pow128_monotonic(a, (b - 1) as nat);
    } else if a > 0 {
        lemma_pow128_monotonic((a - 1) as nat, (a - 1) as nat);
    }
}

/// A `VarUInt` that parses takes between one and ten bytes, all of them in
/// the input.
pub proof fn lemma_var_uint_parse_size(s: Seq<u8>)
    ensures
        var_uint_parse(s) is Ok ==> 1 <= var_uint_parse(s)->Ok_0.1 <= 10 && var_uint_parse(
            s,
        )->Ok_0.1 <= s.len(),
{
    let window = if s.len() <= 10 {
        s
    } else {
        s.take(10)
    };
    lemma_first_end_flag_range(window);
}

/// The position that `first_end_flag` finds lies in the sequence.
pub proof fn lemma_first_end_flag_range(s: Seq<u8>)
    ensures
        first_end_flag(s) is Some ==> 0 <= first_end_flag(s)->Some_0 < s.len(),
    decreases s.len(),
{
    if s.len() > 0 && s[0] < 128 {
        lemma_first_end_flag_range(s.drop_first());
    }
}

} // verus!
