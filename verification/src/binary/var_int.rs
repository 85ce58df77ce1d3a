//! The Ion 1.0 variable-length signed integer.
//!
//! A `VarInt` is a `VarUInt` whose first byte gives up a bit of magnitude to
//! the sign: bit 6 of the first byte is set for a negative number. Negative
//! zero can be written, and means "unknown" where a timestamp's offset stands.

use vstd::prelude::*;
use crate::binary::var_uint::{
    first_end_flag,
    lemma_first_end_flag_at,
    lemma_first_end_flag_none,
    lemma_pow128_monotonic,
    pow128,
};
use crate::result::{IonError, IonResult, ParseFault};

verus! {

/// The largest magnitude that a `VarInt` of this library holds, plus one: 2
/// to the 62, which nine bytes spell.
pub const MAGNITUDE_LIMIT: u64 = 0x4000_0000_0000_0000;

/// The number that the bytes of `s` spell: six bits from the first byte and
/// seven from each byte after it, most significant group first.
pub open spec fn var_int_magnitude(s: Seq<u8>) -> nat
    decreases s.len(),
{
    if s.len() == 0 {
        0
    } else if s.len() == 1 {
        (s[0] % 64) as nat
    } else {
        var_int_magnitude(s.drop_last()) * 128 + (s.last() % 128) as nat
    }
}

/// What a `VarInt` holds.
pub struct VarIntView {
    /// True when the sign bit is set.
    pub negative: bool,
    /// The magnitude.
    pub magnitude: nat,
    /// The number of bytes of the encoding.
    pub size: nat,
}

/// What reading a `VarInt` from the front of `s` yields. An encoding longer
/// than nine bytes is malformed.
pub open spec fn var_int_parse(s: Seq<u8>) -> Result<VarIntView, ParseFault> {
    let window = if s.len() <= 9 {
        s
    } else {
        s.take(9)
    };
    match first_end_flag(window) {
        Some(i) => Ok(
            VarIntView {
                negative: (s[0] / 64) % 2 == 1,
                magnitude: var_int_magnitude(s.take(i + 1)),
                size: (i + 1) as nat,
            },
        ),
        None => if s.len() >= 9 {
            Err(ParseFault::Malformed)
        } else {
            Err(ParseFault::Incomplete)
        },
    }
}

/// The bytes of a `VarInt` before the end flag is set: the sign and the top
/// bits in the first byte, then groups of seven bits.
pub open spec fn var_int_groups(negative: bool, magnitude: nat) -> Seq<u8>
    decreases magnitude,
{
    if magnitude < 64 {
        seq![(if negative {
            64 + magnitude
        } else {
            magnitude
        }) as u8]
    } else {
        var_int_groups(negative, magnitude / 128).push((magnitude % 128) as u8)
    }
}

/// The encoding of the `VarInt` with the given sign and magnitude.
pub open spec fn var_int_bytes(negative: bool, magnitude: nat) -> Seq<u8> {
    let groups = var_int_groups(negative, magnitude);
    groups.update(groups.len() - 1, (groups.last() + 128) as u8)
}

/// The magnitude of `n` bytes is below 64 times 128 to the `n - 1`.
pub proof fn lemma_var_int_magnitude_bound(s: Seq<u8>)
    requires
        s.len() > 0,
    ensures
        var_int_magnitude(s) < 64 * pow128((s.len() - 1) as nat),
    decreases s.len(),
{
    reveal_with_fuel(pow128, 2);
    if s.len() > 1 {
        lemma_var_int_magnitude_bound(s.drop_last());
        let m = var_int_magnitude(s.drop_last());
        let p = pow128((s.len() - 2) as nat);
        assert(pow128((s.len() - 1) as nat) == 128 * p);
        assert(m * 128 + 127 < 64 * (128 * p)) by (nonlinear_arith)
            requires
                m < 64 * p,
        ;
    }
}

/// The groups of a magnitude carry no end flag, spell the magnitude, and
/// carry the sign in bit 6 of the first byte.
pub proof fn lemma_var_int_groups(negative: bool, magnitude: nat)
    ensures
        var_int_groups(negative, magnitude).len() >= 1,
        forall|j: int|
            0 <= j < var_int_groups(negative, magnitude).len() ==> var_int_groups(
                negative,
                magnitude,
            )[j] < 128,
        var_int_magnitude(var_int_groups(negative, magnitude)) == magnitude,
        (var_int_groups(negative, magnitude)[0] / 64) % 2 == 1 <==> negative,
    decreases magnitude,
{
    if magnitude >= 64 {
        lemma_var_int_groups(negative, magnitude / 128);
        let g = var_int_groups(negative, magnitude);
        let head = var_int_groups(negative, magnitude / 128);
        assert(g.drop_last() =~= head);
        assert(g[0] == head[0]);
        if g.len() == 1 {
            assert(false);
        }
    }
}

/// A decoded variable-length signed integer.
#[derive(Debug, Clone, Copy, PartialEq, Eq, Structural)]
pub struct VarInt {
    value: i64,
    is_negative: bool,
    size_in_bytes: usize,
}

impl VarInt {
    /// The decoded number.
    pub closed spec fn spec_value(&self) -> i64 {
        self.value
    }

    /// True when the sign bit was set; negative zero has it set too.
    pub closed spec fn spec_is_negative(&self) -> bool {
        self.is_negative
    }

    /// The number of bytes the encoding took.
    pub closed spec fn spec_size_in_bytes(&self) -> usize {
        self.size_in_bytes
    }

    /// True when this value is what `view` holds.
    pub open spec fn matches(&self, view: VarIntView) -> bool {
        &&& self.spec_is_negative() == view.negative
        &&& self.spec_size_in_bytes() == view.size
        &&& self.spec_value() == if view.negative {
            -(view.magnitude as int)
        } else {
            view.magnitude as int
        }
    }

    /// Reads a `VarInt` from the front of `bytes`.
    #[verifier::rlimit(50)]
    pub fn read(bytes: &[u8]) -> (r: IonResult<VarInt>)
        ensures
            match var_int_parse(bytes@) {
                Ok(view) => r is Ok && r->Ok_0.matches(view) && 1 <= view.size <= 9 && view.size
                    <= bytes@.len() && view.magnitude < MAGNITUDE_LIMIT,
                Err(ParseFault::Incomplete) => r == Err::<VarInt, IonError>(
                    IonError::Incomplete { offset: bytes@.len() as usize },
                ),
                Err(ParseFault::Malformed) => r == Err::<VarInt, IonError>(IonError::Decoding),
            },
    {
        let mut magnitude: u64 = 0;
        let mut i: usize = 0;
        let ghost window = if bytes@.len() <= 9 {
            bytes@
        } else {
            bytes@.take(9)
        };
        while i < bytes.len() && i < 9
            invariant
                i <= bytes@.len(),
                i <= 9,
                window == if bytes@.len() <= 9 {
                    bytes@
                } else {
                    bytes@.take(9)
                },
                forall|j: int| 0 <= j < i ==> bytes@[j] < 128,
                magnitude == var_int_magnitude(bytes@.take(i as int)),
                i >= 1 ==> magnitude < 64 * pow128((i - 1) as nat),
            decreases 9 - i,
        {
            let byte = bytes[i];
            proof {
                reveal_with_fuel(pow128, 10);
                assert(bytes@.take(i + 1).drop_last() =~= bytes@.take(i as int));
                lemma_var_int_magnitude_bound(bytes@.take(i + 1));
                if i >= 1 {
                    lemma_pow128_monotonic((i - 1) as nat, 7);
                }
                assert(pow128(7) == 0x2_0000_0000_0000);
                assert(pow128(8) == 0x100_0000_0000_0000);
                lemma_pow128_monotonic(i as nat, 8);
            }
            if i == 0 {
                magnitude = (byte % 64) as u64;
            } else {
                magnitude = magnitude * 128 + (byte % 128) as u64;
            }
            i += 1;
            if byte >= 0x80 {
                proof {
                    lemma_first_end_flag_at(window, i - 1);
                }
                let is_negative = (bytes[0] / 64) % 2 == 1;
                let value: i64 = if is_negative {
                    -(magnitude as i64)
                } else {
                    magnitude as i64
                };
                return Ok(VarInt { value, is_negative, size_in_bytes: i });
            }
        }
        proof {
            lemma_first_end_flag_none(window);
        }
        if i == 9 {
            Err(IonError::Decoding)
        } else {
            Err(IonError::Incomplete { offset: i })
        }
    }

    /// Appends the encoding of the `VarInt` with the given sign and magnitude
    /// to `sink` and returns the number of bytes appended. A magnitude of 2
    /// to the 62 or more cannot be written.
    #[verifier::rlimit(50)]
    pub fn write_parts(sink: &mut Vec<u8>, negative: bool, magnitude: u64) -> (r: IonResult<usize>)
        ensures
            magnitude < MAGNITUDE_LIMIT ==> r == Ok::<usize, IonError>(
                var_int_bytes(negative, magnitude as nat).len() as usize,
            ) && final(sink)@ == old(sink)@ + var_int_bytes(negative, magnitude as nat) && 1
                <= var_int_bytes(negative, magnitude as nat).len() <= 9,
            magnitude >= MAGNITUDE_LIMIT ==> r == Err::<usize, IonError>(IonError::Encoding)
                && final(sink)@ == old(sink)@,
    {
        if magnitude >= MAGNITUDE_LIMIT {
            return Err(IonError::Encoding);
        }
        // The encoding is built right to left.
        let mut buffer: [u8; 9] = [0, 0, 0, 0, 0, 0, 0, 0, 0];
        let mut remaining: u64 = magnitude;
        let mut first_byte: usize = 9;
        proof {
            reveal_with_fuel(pow128, 10);
        }
        assert(remaining as nat * pow128(0) <= magnitude) by (nonlinear_arith)
            requires
                pow128(0) == 1,
                remaining == magnitude,
        ;
        while remaining >= 64 && first_byte > 1
            invariant
                1 <= first_byte <= 9,
                var_int_groups(negative, magnitude as nat) == var_int_groups(
                    negative,
                    remaining as nat,
                ) + buffer@.subrange(first_byte as int, 9),
                remaining as nat * pow128((9 - first_byte) as nat) <= magnitude,
                forall|j: int| first_byte <= j < 9 ==> buffer@[j] < 128,
            decreases first_byte,
        {
            let ghost before = buffer@;
            let ghost previous = remaining;
            let ghost k = (9 - first_byte) as nat;
            first_byte -= 1;
            buffer[first_byte] = (remaining % 128) as u8;
            remaining = remaining / 128;
            proof {
                let tail = buffer@.subrange(first_byte as int, 9);
                assert(tail =~= seq![(previous % 128) as u8] + before.subrange(first_byte + 1, 9));
                assert(var_int_groups(negative, previous as nat) =~= var_int_groups(
                    negative,
                    remaining as nat,
                ).push((previous % 128) as u8));
                assert(var_int_groups(negative, previous as nat) + before.subrange(
                    first_byte + 1,
                    9,
                ) =~= var_int_groups(negative, remaining as nat) + tail);
                assert(pow128(k + 1) == 128 * pow128(k));
                assert(remaining as nat * pow128(k + 1) <= magnitude) by (nonlinear_arith)
                    requires
                        remaining as nat * 128 <= previous as nat,
                        previous as nat * pow128(k) <= magnitude,
                        pow128(k + 1) == 128 * pow128(k),
                ;
            }
        }
        proof {
            if remaining >= 64 {
                reveal_with_fuel(pow128, 10);
                assert(pow128(8) == 0x100_0000_0000_0000);
                assert(false) by (nonlinear_arith)
                    requires
                        remaining as nat * pow128(8) <= magnitude,
                        remaining >= 64,
                        pow128(8) == 0x100_0000_0000_0000,
                        magnitude < 0x4000_0000_0000_0000,
                ;
            }
        }
        let ghost before = buffer@;
        first_byte -= 1;
        buffer[first_byte] = if negative {
            64 + remaining as u8
        } else {
            remaining as u8
        };
        proof {
            let tail = buffer@.subrange(first_byte as int, 9);
            assert(tail =~= seq![buffer@[first_byte as int]] + before.subrange(first_byte + 1, 9));
            assert(var_int_groups(negative, magnitude as nat) =~= tail);
        }
        let ghost groups = buffer@.subrange(first_byte as int, 9);
        buffer[8] = buffer[8] + 128;
        assert(buffer@.subrange(first_byte as int, 9) =~= var_int_bytes(negative, magnitude as nat));
        let encoded_size = 9 - first_byte;
        let mut i: usize = first_byte;
        while i < 9
            invariant
                first_byte <= i <= 9,
                sink@ == old(sink)@ + buffer@.subrange(first_byte as int, i as int),
            decreases 9 - i,
        {
            sink.push(buffer[i]);
            i += 1;
            assert(buffer@.subrange(first_byte as int, i as int) =~= buffer@.subrange(
                first_byte as int,
                i - 1,
            ).push(buffer@[i - 1]));
        }
        Ok(encoded_size)
    }

    /// Appends the encoding of `value` to `sink` and returns the number of
    /// bytes appended. A value whose magnitude is 2 to the 62 or more cannot be
    /// written.
    pub fn write_i64(sink: &mut Vec<u8>, value: i64) -> (r: IonResult<usize>)
        ensures
            vstd::math::abs(value as int) < MAGNITUDE_LIMIT ==> r is Ok && final(sink)@
                == old(sink)@ + var_int_bytes(value < 0, vstd::math::abs(value as int)),
            vstd::math::abs(value as int) >= MAGNITUDE_LIMIT ==> r == Err::<usize, IonError>(
                IonError::Encoding,
            ) && final(sink)@ == old(sink)@,
    {
        let magnitude = crate::types::integer::unsigned_abs(value);
        VarInt::write_parts(sink, value < 0, magnitude)
    }

    /// Returns the decoded number; zero for negative zero.
    #[verifier::when_used_as_spec(spec_value)]
    pub fn value(&self) -> (v: i64)
        ensures
            v == self.spec_value(),
    {
        self.value
    }

    /// Reports whether the sign bit was set and the magnitude zero.
    pub fn is_negative_zero(&self) -> (b: bool)
        ensures
            b == (self.spec_is_negative() && self.spec_value() == 0),
    {
        self.is_negative && self.value == 0
    }

    /// Reports whether the sign bit was set.
    #[verifier::when_used_as_spec(spec_is_negative)]
    pub fn is_negative(&self) -> (b: bool)
        ensures
            b == self.spec_is_negative(),
    {
        self.is_negative
    }

    /// Returns the number of bytes that were read to decode this integer.
    #[verifier::when_used_as_spec(spec_size_in_bytes)]
    pub fn size_in_bytes(&self) -> (n: usize)
        ensures
            n == self.spec_size_in_bytes(),
    {
        self.size_in_bytes
    }
}

/// A magnitude below 64 times 128 to the `k` takes at most `k + 1` groups.
pub proof fn lemma_var_int_groups_len(negative: bool, magnitude: nat, k: nat)
    requires
        magnitude < 64 * pow128(k),
    ensures
        var_int_groups(negative, magnitude).len() <= k + 1,
    decreases k,
{
    reveal_with_fuel(pow128, 2);
    if magnitude >= 64 {
        if k == 0 {
            assert(pow128(0) == 1);
        } else {
            assert(pow128(k) == 128 * pow128((k - 1) as nat));
            lemma_var_int_groups_len(negative, magnitude / 128, (k - 1) as nat);
        }
    }
}

/// Reading back the encoding of a `VarInt` yields its sign, its magnitude
/// and the length of the encoding, whatever bytes follow it.
#[verifier::rlimit(50)]
pub proof fn lemma_var_int_round_trip(negative: bool, magnitude: nat, rest: Seq<u8>)
    requires
        magnitude < MAGNITUDE_LIMIT,
    ensures
        var_int_parse(var_int_bytes(negative, magnitude) + rest) == Ok::<VarIntView, ParseFault>(
            VarIntView { negative, magnitude, size: var_int_bytes(negative, magnitude).len() },
        ),
        1 <= var_int_bytes(negative, magnitude).len() <= 9,
{
    let groups = var_int_groups(negative, magnitude);
    let bytes = var_int_bytes(negative, magnitude);
    let s = bytes + rest;
    let last = bytes.len() - 1;
    lemma_var_int_groups(negative, magnitude);
    reveal_with_fuel(pow128, 10);
    assert(pow128(8) == 0x100_0000_0000_0000);
    lemma_var_int_groups_len(negative, magnitude, 8);
    assert(bytes.len() == groups.len());
    assert forall|j: int| 0 <= j < last implies bytes[j] < 128 by {
        assert(bytes[j] == groups[j]);
    }
    lemma_first_end_flag_at(bytes, last);
    let window = if s.len() <= 9 {
        s
    } else {
        s.take(9)
    };
    if s.len() <= 9 {
        crate::binary::var_uint::lemma_first_end_flag_prefix(bytes, rest);
    } else {
        assert(window =~= bytes + rest.take(9 - bytes.len()));
        crate::binary::var_uint::lemma_first_end_flag_prefix(bytes, rest.take(9 - bytes.len()));
    }
    assert(s.take(last + 1) =~= bytes);
    assert(s[0] == bytes[0]);
    // The end flag changes neither the magnitude nor the sign.
    if bytes.len() == 1 {
        assert(var_int_magnitude(bytes) == (bytes[0] % 64) as nat);
        assert(var_int_magnitude(groups) == (groups[0] % 64) as nat);
    } else {
        assert(bytes.drop_last() =~= groups.drop_last());
        assert(bytes[0] == groups[0]);
    }
}

} // verus!
