//! The body of an Ion 1.0 decimal: a `VarInt` exponent and a coefficient in
//! sign-and-magnitude form.

use vstd::prelude::*;
use crate::binary::uint::{be_bytes, be_nat, lemma_be_bytes};
use crate::binary::var_int::{var_int_bytes, var_int_parse, VarInt, MAGNITUDE_LIMIT};
use crate::result::{IonError, IonResult};
use crate::types::decimal::Decimal;
use crate::types::integer::Int;

verus! {

/// What a decimal holds, as mathematical values.
pub struct DecimalView {
    /// True when the coefficient has a minus sign.
    pub negative: bool,
    /// The magnitude of the coefficient.
    pub magnitude: nat,
    /// The power of ten.
    pub exponent: int,
}

impl Decimal {
    /// The mathematical values that this decimal holds.
    pub open spec fn view_parts(&self) -> DecimalView {
        DecimalView {
            negative: self.spec_is_negative(),
            magnitude: be_nat(self.spec_magnitude().spec_magnitude()),
            exponent: self.spec_exponent() as int,
        }
    }
}

/// The magnitude that the bytes of a sign-and-magnitude integer spell: the
/// bytes as one big-endian number, without the high bit of the first byte.
pub open spec fn signed_magnitude(s: Seq<u8>) -> nat {
    if s.len() == 0 {
        0
    } else {
        be_nat(s.update(0, (s[0] % 128) as u8))
    }
}

/// The sign that the bytes of a sign-and-magnitude integer spell: the high
/// bit of the first byte.
pub open spec fn signed_negative(s: Seq<u8>) -> bool {
    s.len() > 0 && s[0] >= 128
}

/// The bytes of the sign-and-magnitude integer with the given sign and
/// magnitude: the shortest spelling of the magnitude, with one more byte in
/// front when its high bit is taken, and nothing at all for positive zero.
pub open spec fn signed_bytes(negative: bool, magnitude: nat) -> Seq<u8> {
    let digits = be_bytes(magnitude);
    let sign: u8 = if negative {
        128
    } else {
        0
    };
    if digits.len() == 0 {
        if negative {
            seq![128u8]
        } else {
            Seq::empty()
        }
    } else if digits[0] >= 128 {
        seq![sign] + digits
    } else {
        digits.update(0, (digits[0] + sign) as u8)
    }
}

/// The decimal that `body` spells; `None` when it spells none. An empty body
/// is zero. A negative zero exponent is read as zero.
pub open spec fn decimal_parse(body: Seq<u8>) -> Option<DecimalView> {
    if body.len() == 0 {
        Some(DecimalView { negative: false, magnitude: 0, exponent: 0 })
    } else {
        match var_int_parse(body) {
            Err(_) => None,
            Ok(exponent) => {
                let coefficient = body.skip(exponent.size as int);
                Some(
                    DecimalView {
                        negative: signed_negative(coefficient),
                        magnitude: signed_magnitude(coefficient),
                        exponent: if exponent.negative {
                            -(exponent.magnitude as int)
                        } else {
                            exponent.magnitude as int
                        },
                    },
                )
            },
        }
    }
}

/// The body of the decimal with the given parts: empty for positive zero
/// with exponent zero, and else the exponent followed by the coefficient.
pub open spec fn decimal_body(decimal: DecimalView) -> Seq<u8> {
    if decimal.magnitude == 0 && !decimal.negative && decimal.exponent == 0 {
        Seq::empty()
    } else {
        var_int_bytes(decimal.exponent < 0, vstd::math::abs(decimal.exponent)) + signed_bytes(
            decimal.negative,
            decimal.magnitude,
        )
    }
}

/// Reads the sign-and-magnitude integer that `bytes` spell and returns its
/// sign and its magnitude.
pub fn read_signed(bytes: &[u8]) -> (r: (bool, Int))
    ensures
        r.0 == signed_negative(bytes@),
        r.1.wf(),
        !r.1.spec_is_negative(),
        r.1.value() == signed_magnitude(bytes@),
{
    if bytes.len() == 0 {
        let zero = Int::from_sign_and_magnitude(false, bytes);
        assert(be_nat(bytes@) == 0);
        return (false, zero);
    }
    let negative = bytes[0] >= 128;
    let mut magnitude_bytes: Vec<u8> = Vec::new();
    magnitude_bytes.push(bytes[0] % 128);
    let mut i: usize = 1;
    while i < bytes.len()
        invariant
            1 <= i <= bytes@.len(),
            magnitude_bytes@ == bytes@.update(0, (bytes@[0] % 128) as u8).take(i as int),
        decreases bytes@.len() - i,
    {
        magnitude_bytes.push(bytes[i]);
        assert(bytes@.update(0, (bytes@[0] % 128) as u8).take(i + 1) =~= bytes@.update(
            0,
            (bytes@[0] % 128) as u8,
        ).take(i as int).push(bytes@[i as int]));
        i += 1;
    }
    assert(magnitude_bytes@ =~= bytes@.update(0, (bytes@[0] % 128) as u8));
    (negative, Int::from_sign_and_magnitude(false, magnitude_bytes.as_slice()))
}

/// Appends the bytes of the sign-and-magnitude integer with the given sign
/// and magnitude to `sink`.
pub fn write_signed(sink: &mut Vec<u8>, negative: bool, magnitude: &Int)
    requires
        magnitude.wf(),
    ensures
        final(sink)@ == old(sink)@ + signed_bytes(
            negative,
            be_nat(magnitude.spec_magnitude()),
        ),
{
    let digits = magnitude.magnitude_be_bytes();
    proof {
        crate::binary::uint::lemma_normalized_is_be_bytes(digits@);
    }
    let sign: u8 = if negative {
        128
    } else {
        0
    };
    if digits.len() == 0 {
        if negative {
            sink.push(128);
            assert(sink@ =~= old(sink)@ + seq![128u8]);
        } else {
            assert(sink@ =~= old(sink)@ + Seq::<u8>::empty());
        }
        return ;
    }
    let mut i: usize = 0;
    let ghost expected = signed_bytes(negative, be_nat(digits@));
    if digits[0] >= 128 {
        sink.push(sign);
        while i < digits.len()
            invariant
                i <= digits@.len(),
                digits@.len() > 0,
                expected == seq![sign] + digits@,
                sink@ == old(sink)@ + expected.take(i + 1),
            decreases digits@.len() - i,
        {
            sink.push(digits[i]);
            assert(expected.take(i + 2) =~= expected.take(i + 1).push(digits@[i as int]));
            i += 1;
        }
        assert(expected.take(digits@.len() as int + 1) =~= expected);
    } else {
        sink.push(digits[0] + sign);
        i = 1;
        while i < digits.len()
            invariant
                1 <= i <= digits@.len(),
                expected == digits@.update(0, (digits@[0] + sign) as u8),
                sink@ == old(sink)@ + expected.take(i as int),
            decreases digits@.len() - i,
        {
            sink.push(digits[i]);
            assert(expected.take(i + 1) =~= expected.take(i as int).push(digits@[i as int]));
            i += 1;
        }
        assert(expected.take(digits@.len() as int) =~= expected);
    }
}

/// Reads the decimal that `body` spells. A body that spells none is a
/// decoding error.
pub fn read_decimal(body: &[u8]) -> (r: IonResult<Decimal>)
    ensures
        match decimal_parse(body@) {
            Some(view) => r is Ok && r->Ok_0.wf() && r->Ok_0.view_parts() == view,
            None => r == Err::<Decimal, IonError>(IonError::Decoding),
        },
{
    if body.len() == 0 {
        let zero = Decimal::from_i64(0, 0);
        return Ok(zero);
    }
    let exponent = match VarInt::read(body) {
        Ok(exponent) => exponent,
        Err(_) => {
            return Err(IonError::Decoding);
        },
    };
    let coefficient_bytes = vstd::slice::slice_subrange(
        body,
        exponent.size_in_bytes(),
        body.len(),
    );
    assert(coefficient_bytes@ =~= body@.skip(exponent.spec_size_in_bytes() as int));
    let (negative, magnitude) = read_signed(coefficient_bytes);
    Ok(Decimal::new(negative, magnitude, exponent.value()))
}

/// Appends the body of `decimal` to `sink`. An exponent whose magnitude is 2
/// to the 62 or more cannot be written.
pub fn write_decimal_body(sink: &mut Vec<u8>, decimal: &Decimal) -> (r: IonResult<()>)
    requires
        decimal.wf(),
    ensures
        vstd::math::abs(decimal.spec_exponent() as int) < MAGNITUDE_LIMIT ==> r is Ok
            && final(sink)@ == old(sink)@ + decimal_body(decimal.view_parts()),
        vstd::math::abs(decimal.spec_exponent() as int) >= MAGNITUDE_LIMIT ==> r == Err::<
            (),
            IonError,
        >(IonError::Encoding) && final(sink)@ == old(sink)@,
{
    let is_zero = decimal.magnitude().is_zero();
    if is_zero && !decimal.is_negative() && decimal.exponent() == 0 {
        assert(sink@ =~= old(sink)@ + Seq::<u8>::empty());
        return Ok(());
    }
    match VarInt::write_i64(sink, decimal.exponent()) {
        Ok(_) => {},
        Err(error) => {
            return Err(error);
        },
    }
    let ghost middle = sink@;
    write_signed(sink, decimal.is_negative(), decimal.magnitude());
    assert(sink@ =~= old(sink)@ + decimal_body(decimal.view_parts()));
    Ok(())
}

/// The bytes of a sign-and-magnitude integer spell the sign and the
/// magnitude they were made of.
pub proof fn lemma_signed_round_trip(negative: bool, magnitude: nat)
    ensures
        signed_negative(signed_bytes(negative, magnitude)) == negative,
        signed_magnitude(signed_bytes(negative, magnitude)) == magnitude,
{
    let digits = be_bytes(magnitude);
    let bytes = signed_bytes(negative, magnitude);
    lemma_be_bytes(magnitude);
    let sign: u8 = if negative {
        128
    } else {
        0
    };
    if digits.len() == 0 {
        if negative {
            let zero = bytes.update(0, (bytes[0] % 128) as u8);
            assert(zero =~= seq![0u8]);
            assert(zero.drop_last() =~= Seq::<u8>::empty());
            assert(be_nat(zero) == 0);
        }
    } else if digits[0] >= 128 {
        let cleared = bytes.update(0, (bytes[0] % 128) as u8);
        assert(cleared =~= seq![0u8] + digits);
        crate::binary::uint::lemma_be_nat_leading_zero(cleared);
        assert(cleared.drop_first() =~= digits);
    } else {
        let cleared = bytes.update(0, (bytes[0] % 128) as u8);
        assert(cleared =~= digits);
    }
}

/// Reading back the body of a decimal yields the decimal.
///
/// The exponent has a magnitude below 2 to the 62.
pub proof fn lemma_decimal_body_round_trip(decimal: DecimalView)
    requires
        vstd::math::abs(decimal.exponent) < MAGNITUDE_LIMIT,
    ensures
        decimal_parse(decimal_body(decimal)) == Some(decimal),
{
    if decimal.magnitude == 0 && !decimal.negative && decimal.exponent == 0 {
    } else {
        let exponent = var_int_bytes(decimal.exponent < 0, vstd::math::abs(decimal.exponent));
        let coefficient = signed_bytes(decimal.negative, decimal.magnitude);
        crate::binary::var_int::lemma_var_int_round_trip(
            decimal.exponent < 0,
            vstd::math::abs(decimal.exponent),
            coefficient,
        );
        lemma_signed_round_trip(decimal.negative, decimal.magnitude);
        let body = decimal_body(decimal);
        assert(body.skip(exponent.len() as int) =~= coefficient);
    }
}

} // verus!
