//! Integers of any size.

use vstd::prelude::*;
use crate::binary::uint::{
    be_bytes,
    be_nat,
    decode_u64,
    encode_u64,
    is_normalized,
    lemma_be_bytes,
    lemma_be_nat_leading_zero,
    lemma_normalized_is_be_bytes,
    lemma_normalized_lower_bound,
    lemma_pow256_monotonic,
    lemma_pow256_values,
};

verus! {

/// Returns the magnitude of `value`.
pub fn unsigned_abs(value: i64) -> (magnitude: u64)
    ensures
        magnitude == vstd::math::abs(value as int),
{
    if value >= 0 {
        value as u64
    } else if value == i64::MIN {
        0x8000_0000_0000_0000
    } else {
        (-value) as u64
    }
}

/// An integer, held as a sign and the big-endian bytes of its magnitude.
///
/// The magnitude has no leading zero byte, and zero is not negative, so two
/// integers are equal exactly when their parts are.
#[derive(Debug, Clone, PartialEq, Eq, Hash)]
pub struct Int {
    negative: bool,
    magnitude: Vec<u8>,
}

impl Int {
    /// True for an integer below zero.
    pub closed spec fn spec_is_negative(&self) -> bool {
        self.negative
    }

    /// The big-endian bytes of the magnitude.
    pub closed spec fn spec_magnitude(&self) -> Seq<u8> {
        self.magnitude@
    }

    /// The integer as a mathematical number.
    pub open spec fn value(&self) -> int {
        if self.spec_is_negative() {
            -(be_nat(self.spec_magnitude()) as int)
        } else {
            be_nat(self.spec_magnitude()) as int
        }
    }

    /// The magnitude has no leading zero, and zero has no sign.
    pub open spec fn wf(&self) -> bool {
        &&& is_normalized(self.spec_magnitude())
        &&& self.spec_is_negative() ==> self.spec_magnitude().len() > 0
    }

    /// Builds the integer with the given sign and the magnitude that `bytes`
    /// spell, most significant byte first. Leading zero bytes are dropped,
    /// and a zero magnitude yields zero whatever the sign.
    pub fn from_sign_and_magnitude(negative: bool, bytes: &[u8]) -> (r: Int)
        ensures
            r.wf(),
            r.spec_magnitude() == be_bytes(be_nat(bytes@)),
            r.spec_is_negative() == (negative && be_nat(bytes@) > 0),
            r.value() == if negative {
                -(be_nat(bytes@) as int)
            } else {
                be_nat(bytes@) as int
            },
    {
        let mut start: usize = 0;
        assert(bytes@.skip(0) =~= bytes@);
        while start < bytes.len() && bytes[start] == 0
            invariant
                start <= bytes@.len(),
                be_nat(bytes@.skip(start as int)) == be_nat(bytes@),
            decreases bytes@.len() - start,
        {
            proof {
                lemma_be_nat_leading_zero(bytes@.skip(start as int));
                assert(bytes@.skip(start as int).drop_first() =~= bytes@.skip(start + 1));
            }
            start += 1;
        }
        let mut magnitude: Vec<u8> = Vec::new();
        let mut i: usize = start;
        while i < bytes.len()
            invariant
                start <= i <= bytes@.len(),
                magnitude@ == bytes@.subrange(start as int, i as int),
            decreases bytes@.len() - i,
        {
            magnitude.push(bytes[i]);
            assert(bytes@.subrange(start as int, i + 1) =~= bytes@.subrange(
                start as int,
                i as int,
            ).push(bytes@[i as int]));
            i += 1;
        }
        proof {
            assert(magnitude@ =~= bytes@.skip(start as int));
            lemma_normalized_is_be_bytes(magnitude@);
            lemma_be_bytes(be_nat(bytes@));
            if magnitude@.len() > 0 {
                crate::binary::uint::lemma_be_nat_positive(magnitude@);
            }
        }
        let is_zero = magnitude.len() == 0;
        Int { negative: negative && !is_zero, magnitude }
    }

    /// Builds the integer with the given unsigned value.
    pub fn from_u64(value: u64) -> (r: Int)
        ensures
            r.wf(),
            r.value() == value,
            !r.spec_is_negative(),
            r.spec_magnitude() == be_bytes(value as nat),
    {
        let mut magnitude: Vec<u8> = Vec::new();
        encode_u64(&mut magnitude, value);
        proof {
            lemma_be_bytes(value as nat);
            assert(magnitude@ =~= be_bytes(value as nat));
        }
        Int { negative: false, magnitude }
    }

    /// Builds the integer with the given signed value.
    pub fn from_i64(value: i64) -> (r: Int)
        ensures
            r.wf(),
            r.value() == value,
            r.spec_is_negative() == (value < 0),
            r.spec_magnitude() == be_bytes(vstd::math::abs(value as int)),
    {
        let mut magnitude: Vec<u8> = Vec::new();
        let absolute: u64 = unsigned_abs(value);
        encode_u64(&mut magnitude, absolute);
        proof {
            lemma_be_bytes(absolute as nat);
            assert(magnitude@ =~= be_bytes(absolute as nat));
        }
        Int { negative: value < 0, magnitude }
    }

    /// Reports whether the integer is well-formed. Integers made by this
    /// library are.
    pub fn is_well_formed(&self) -> (b: bool)
        ensures
            b == self.wf(),
    {
        if self.magnitude.len() == 0 {
            !self.negative
        } else {
            self.magnitude[0] != 0
        }
    }

    /// Reports whether the integer is below zero.
    #[verifier::when_used_as_spec(spec_is_negative)]
    pub fn is_negative(&self) -> (b: bool)
        ensures
            b == self.spec_is_negative(),
    {
        self.negative
    }

    /// Reports whether the integer is zero.
    pub fn is_zero(&self) -> (b: bool)
        requires
            self.wf(),
        ensures
            b == (self.value() == 0),
    {
        proof {
            if self.magnitude@.len() > 0 {
                crate::binary::uint::lemma_be_nat_positive(self.magnitude@);
            }
        }
        self.magnitude.len() == 0
    }

    /// Returns the big-endian bytes of the magnitude, without leading zeros;
    /// none for zero.
    pub fn magnitude_be_bytes(&self) -> (bytes: &[u8])
        ensures
            bytes@ == self.spec_magnitude(),
    {
        self.magnitude.as_slice()
    }

    /// Returns the integer as an `i64` when it is one.
    pub fn as_i64(&self) -> (r: Option<i64>)
        requires
            self.wf(),
        ensures
            r is Some <==> i64::MIN <= self.value() <= i64::MAX,
            r is Some ==> r->Some_0 == self.value(),
    {
        proof {
            lemma_pow256_values();
        }
        if self.magnitude.len() > 8 {
            proof {
                lemma_normalized_lower_bound(self.magnitude@);
                lemma_pow256_monotonic(8, (self.magnitude@.len() - 1) as nat);
            }
            return None;
        }
        let magnitude: u64 = decode_u64(self.magnitude.as_slice());
        if self.negative {
            if magnitude > 0x8000_0000_0000_0000 {
                None
            } else if magnitude == 0x8000_0000_0000_0000 {
                Some(i64::MIN)
            } else {
                Some(-(magnitude as i64))
            }
        } else {
            if magnitude > 0x7fff_ffff_ffff_ffff {
                None
            } else {
                Some(magnitude as i64)
            }
        }
    }

    /// Returns a copy of the integer.
    pub fn duplicate(&self) -> (r: Int)
        ensures
            r.spec_is_negative() == self.spec_is_negative(),
            r.spec_magnitude() == self.spec_magnitude(),
            r.wf() == self.wf(),
            r.value() == self.value(),
    {
        let mut magnitude: Vec<u8> = Vec::new();
        let mut i: usize = 0;
        while i < self.magnitude.len()
            invariant
                i <= self.magnitude@.len(),
                magnitude@ == self.magnitude@.take(i as int),
            decreases self.magnitude@.len() - i,
        {
            magnitude.push(self.magnitude[i]);
            assert(self.magnitude@.take(i + 1) =~= self.magnitude@.take(i as int).push(
                self.magnitude@[i as int],
            ));
            i += 1;
        }
        assert(magnitude@ =~= self.magnitude@);
        Int { negative: self.negative, magnitude }
    }
}

impl From<i64> for Int {
    fn from(value: i64) -> (r: Int) {
        Int::from_i64(value)
    }
}

impl vstd::std_specs::convert::FromSpecImpl<i64> for Int {
    open spec fn obeys_from_spec() -> bool {
        false
    }

    open spec fn from_spec(value: i64) -> Int {
        arbitrary()
    }
}

/// The bits of an IEEE-754 number, single or double precision.
///
/// The readers and writers move floating-point numbers as bits and never
/// compute with them.
#[derive(Debug, Clone, Copy, PartialEq, Eq, Structural, Hash)]
pub enum FloatBits {
    /// The 32 bits of a single-precision number.
    Single(u32),
    /// The 64 bits of a double-precision number.
    Double(u64),
}

} // verus!
