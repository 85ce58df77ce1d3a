//! Decimal numbers of any precision.

use vstd::prelude::*;
use crate::types::integer::Int;

verus! {

/// A decimal number: a sign, the magnitude of a coefficient and a power of
/// ten. The number is the coefficient times ten to the exponent. The sign is
/// kept apart from the magnitude because Ion tells `-0` from `0`.
#[derive(Debug, Clone, PartialEq, Eq, Hash)]
pub struct Decimal {
    negative: bool,
    magnitude: Int,
    exponent: i64,
}

impl Decimal {
    /// True for a number with a minus sign, negative zero included.
    pub closed spec fn spec_is_negative(&self) -> bool {
        self.negative
    }

    /// The magnitude of the coefficient.
    pub closed spec fn spec_magnitude(&self) -> Int {
        self.magnitude
    }

    /// The power of ten.
    pub closed spec fn spec_exponent(&self) -> i64 {
        self.exponent
    }

    /// The coefficient as a mathematical number.
    pub open spec fn coefficient(&self) -> int {
        if self.spec_is_negative() {
            -self.spec_magnitude().value()
        } else {
            self.spec_magnitude().value()
        }
    }

    /// The magnitude is a well-formed integer that is not negative.
    pub open spec fn wf(&self) -> bool {
        self.spec_magnitude().wf() && !self.spec_magnitude().spec_is_negative()
    }

    /// Builds a decimal from its parts. The sign of `magnitude` is dropped.
    pub fn new(negative: bool, magnitude: Int, exponent: i64) -> (d: Decimal)
        requires
            magnitude.wf(),
        ensures
            d.wf(),
            d.spec_is_negative() == negative,
            d.spec_magnitude().spec_magnitude() == magnitude.spec_magnitude(),
            d.spec_exponent() == exponent,
    {
        proof {
            crate::binary::uint::lemma_normalized_is_be_bytes(magnitude.spec_magnitude());
        }
        let magnitude = if magnitude.is_negative() {
            Int::from_sign_and_magnitude(false, magnitude.magnitude_be_bytes())
        } else {
            magnitude
        };
        Decimal { negative, magnitude, exponent }
    }

    /// Builds the decimal `coefficient` times ten to the `exponent`.
    pub fn from_i64(coefficient: i64, exponent: i64) -> (d: Decimal)
        ensures
            d.wf(),
            d.coefficient() == coefficient,
            d.spec_is_negative() == (coefficient < 0),
            d.spec_exponent() == exponent,
    {
        let magnitude = Int::from_u64(crate::types::integer::unsigned_abs(coefficient));
        Decimal { negative: coefficient < 0, magnitude, exponent }
    }

    /// Reports whether the decimal is well-formed. Decimals made by this
    /// library are.
    pub fn is_well_formed(&self) -> (b: bool)
        ensures
            b == self.wf(),
    {
        self.magnitude.is_well_formed() && !self.magnitude.is_negative()
    }

    /// Reports whether the number has a minus sign.
    #[verifier::when_used_as_spec(spec_is_negative)]
    pub fn is_negative(&self) -> (b: bool)
        ensures
            b == self.spec_is_negative(),
    {
        self.negative
    }

    /// Returns the magnitude of the coefficient.
    pub fn magnitude(&self) -> (m: &Int)
        ensures
            *m == self.spec_magnitude(),
    {
        &self.magnitude
    }

    /// Returns the power of ten.
    #[verifier::when_used_as_spec(spec_exponent)]
    pub fn exponent(&self) -> (e: i64)
        ensures
            e == self.spec_exponent(),
    {
        self.exponent
    }
}

} // verus!
