//! The body of an Ion 1.0 timestamp: the offset as a `VarInt`, then the year
//! and as many of month, day, hour with minute, and second as the precision
//! asks for, each a `VarUInt`, and last the fraction of a second as an
//! exponent and a coefficient.

use vstd::prelude::*;
use crate::binary::decimal::{
    decimal_parse,
    read_decimal,
    signed_bytes,
    write_signed,
    DecimalView,
};
use crate::binary::var_int::{var_int_bytes, var_int_parse, VarInt, MAGNITUDE_LIMIT};
use crate::binary::var_uint::{
    lemma_var_uint_parse_size,
    var_uint_bytes,
    var_uint_parse,
    VarUInt,
};
use crate::result::{IonError, IonResult};
use crate::types::decimal::Decimal;
use crate::types::timestamp::{Precision, Timestamp};

verus! {

/// What a timestamp holds, as mathematical values.
pub struct TimestampView {
    pub precision: Precision,
    pub offset_minutes: Option<int>,
    pub year: nat,
    pub month: nat,
    pub day: nat,
    pub hour: nat,
    pub minute: nat,
    pub second: nat,
    pub fraction: Option<DecimalView>,
}

impl Timestamp {
    /// The mathematical values that this timestamp holds.
    pub open spec fn view_parts(&self) -> TimestampView {
        TimestampView {
            precision: self.precision,
            offset_minutes: match self.offset_minutes {
                Some(offset) => Some(offset as int),
                None => None,
            },
            year: self.year as nat,
            month: self.month as nat,
            day: self.day as nat,
            hour: self.hour as nat,
            minute: self.minute as nat,
            second: self.second as nat,
            fraction: match self.fractional_seconds {
                Some(fraction) => Some(fraction.view_parts()),
                None => None,
            },
        }
    }
}

/// Up to `limit` `VarUInt` fields of at most 32 bits each from the front of
/// `s`, and the number of bytes they take. Reading stops where `s` ends.
pub open spec fn uint_fields(s: Seq<u8>, limit: nat) -> Option<(Seq<nat>, nat)>
    decreases limit,
{
    if limit == 0 || s.len() == 0 {
        Some((Seq::empty(), 0))
    } else {
        match var_uint_parse(s) {
            Err(_) => None,
            Ok((value, size)) => {
                if value > u32::MAX {
                    None
                } else {
                    match uint_fields(s.skip(size as int), (limit - 1) as nat) {
                        None => None,
                        Some((values, more)) => Some((seq![value] + values, size + more)),
                    }
                }
            },
        }
    }
}

/// The precision of a timestamp with `count` fields from the year on; none
/// for a timestamp without a year, and for one with an hour and no minute.
pub open spec fn precision_of(count: nat) -> Option<Precision> {
    if count == 1 {
        Some(Precision::Year)
    } else if count == 2 {
        Some(Precision::Month)
    } else if count == 3 {
        Some(Precision::Day)
    } else if count == 5 {
        Some(Precision::HourAndMinute)
    } else if count == 6 {
        Some(Precision::Second)
    } else {
        None
    }
}

/// Field `index` of `values`, or `default` when there is none.
pub open spec fn field_or(values: Seq<nat>, index: int, default: nat) -> nat {
    if index < values.len() {
        values[index]
    } else {
        default
    }
}

/// The timestamp that `body` spells; `None` when it spells none.
///
/// The offset has at most 31 bits, and negative zero says that it is unknown.
/// Bytes after the second are the fraction of a second.
pub open spec fn timestamp_parse(body: Seq<u8>) -> Option<TimestampView> {
    match var_int_parse(body) {
        Err(_) => None,
        Ok(offset) => {
            if offset.magnitude > i32::MAX {
                None
            } else {
                let after_offset = body.skip(offset.size as int);
                match uint_fields(after_offset, 6) {
                    None => None,
                    Some((values, consumed)) => {
                        match precision_of(values.len()) {
                            None => None,
                            Some(precision) => {
                                let rest = after_offset.skip(consumed as int);
                                let fraction = if rest.len() == 0 {
                                    None
                                } else {
                                    decimal_parse(rest)
                                };
                                if rest.len() > 0 && fraction is None {
                                    None
                                } else {
                                    Some(
                                        TimestampView {
                                            precision,
                                            offset_minutes: if offset.negative
                                                && offset.magnitude == 0 {
                                                None
                                            } else if offset.negative {
                                                Some(-(offset.magnitude as int))
                                            } else {
                                                Some(offset.magnitude as int)
                                            },
                                            year: values[0],
                                            month: field_or(values, 1, 1),
                                            day: field_or(values, 2, 1),
                                            hour: field_or(values, 3, 0),
                                            minute: field_or(values, 4, 0),
                                            second: field_or(values, 5, 0),
                                            fraction,
                                        },
                                    )
                                }
                            },
                        }
                    },
                }
            }
        },
    }
}

/// The bytes of the offset: negative zero for an unknown one.
pub open spec fn offset_bytes(offset_minutes: Option<int>) -> Seq<u8> {
    match offset_minutes {
        None => var_int_bytes(true, 0),
        Some(offset) => var_int_bytes(offset < 0, vstd::math::abs(offset)),
    }
}

/// The bytes of the fields after the year that the precision asks for.
pub open spec fn fields_after_year(t: TimestampView) -> Seq<u8> {
    let rank = t.precision.spec_rank();
    let month = if rank >= 1 {
        var_uint_bytes(t.month)
    } else {
        Seq::empty()
    };
    let day = if rank >= 2 {
        var_uint_bytes(t.day)
    } else {
        Seq::empty()
    };
    let time = if rank >= 4 {
        var_uint_bytes(t.hour) + var_uint_bytes(t.minute)
    } else {
        Seq::empty()
    };
    let second = if rank >= 5 {
        var_uint_bytes(t.second)
    } else {
        Seq::empty()
    };
    month + day + time + second
}

/// The bytes of the fraction of a second: its exponent and its coefficient.
pub open spec fn fraction_bytes(fraction: Option<DecimalView>) -> Seq<u8> {
    match fraction {
        None => Seq::empty(),
        Some(f) => var_int_bytes(f.exponent < 0, vstd::math::abs(f.exponent)) + signed_bytes(
            f.negative,
            f.magnitude,
        ),
    }
}

/// The body of the timestamp `t`.
pub open spec fn timestamp_body(t: TimestampView) -> Seq<u8> {
    offset_bytes(t.offset_minutes) + var_uint_bytes(t.year) + fields_after_year(t)
        + fraction_bytes(t.fraction)
}

/// Reads the timestamp that `body` spells. A body that spells none is a
/// decoding error.
#[verifier::rlimit(50)]
pub fn read_timestamp(body: &[u8]) -> (r: IonResult<Timestamp>)
    ensures
        match timestamp_parse(body@) {
            Some(view) => r is Ok && r->Ok_0.wf() && r->Ok_0.view_parts() == view,
            None => r == Err::<Timestamp, IonError>(IonError::Decoding),
        },
{
    let offset = match VarInt::read(body) {
        Ok(offset) => offset,
        Err(_) => {
            return Err(IonError::Decoding);
        },
    };
    if offset.value() > i32::MAX as i64 || offset.value() < -(i32::MAX as i64) {
        return Err(IonError::Decoding);
    }
    let offset_minutes: Option<i32> = if offset.is_negative_zero() {
        None
    } else {
        Some(offset.value() as i32)
    };
    let after_offset = vstd::slice::slice_subrange(body, offset.size_in_bytes(), body.len());
    assert(after_offset@ =~= body@.skip(offset.spec_size_in_bytes() as int));
    let mut fields: [u32; 6] = [0, 1, 1, 0, 0, 0];
    let mut count: usize = 0;
    let mut position: usize = 0;
    let ghost mut values: Seq<nat> = Seq::empty();
    assert(after_offset@.skip(0) =~= after_offset@);
    while count < 6 && position < after_offset.len()
        invariant
            count <= 6,
            position <= after_offset@.len(),
            values.len() == count,
            uint_fields(after_offset@, 6) is None ==> timestamp_parse(body@) is None,
            forall|j: int| 0 <= j < count ==> fields@[j] == values[j],
            count <= 1 ==> fields@[1] == 1,
            count <= 2 ==> fields@[2] == 1,
            forall|j: int| count <= j < 6 && j >= 3 ==> fields@[j] == 0,
            match uint_fields(after_offset@.skip(position as int), (6 - count) as nat) {
                None => uint_fields(after_offset@, 6) is None,
                Some((more, consumed)) => uint_fields(after_offset@, 6) == Some(
                    (values + more, (position + consumed) as nat),
                ),
            },
        decreases 6 - count,
    {
        let rest = vstd::slice::slice_subrange(after_offset, position, after_offset.len());
        assert(rest@ =~= after_offset@.skip(position as int));
        proof {
            lemma_var_uint_parse_size(rest@);
        }
        let ghost here = uint_fields(rest@, (6 - count) as nat);
        assert(here == uint_fields(after_offset@.skip(position as int), (6 - count) as nat));
        let field = match VarUInt::read(rest) {
            Ok(field) => field,
            Err(_) => {
                assert(var_uint_parse(rest@) is Err);
                assert(here is None);
                return Err(IonError::Decoding);
            },
        };
        if field.value() > u32::MAX as u64 {
            assert(here is None);
            return Err(IonError::Decoding);
        }
        proof {
            let size = field.spec_size_in_bytes() as int;
            assert(rest@.skip(size) =~= after_offset@.skip(position + size));
            let tail = uint_fields(rest@.skip(size), (5 - count) as nat);
            if tail is Some {
                assert(values + (seq![field.spec_value() as nat] + tail->Some_0.0) =~= values.push(
                    field.spec_value() as nat,
                ) + tail->Some_0.0);
            }
            values = values.push(field.spec_value() as nat);
        }
        fields[count] = field.value() as u32;
        count += 1;
        position += field.size_in_bytes();
    }
    proof {
        let last = uint_fields(after_offset@.skip(position as int), (6 - count) as nat);
        assert(last == Some((Seq::<nat>::empty(), 0nat)));
        assert(values + Seq::<nat>::empty() =~= values);
    }
    let precision = if count == 1 {
        Precision::Year
    } else if count == 2 {
        Precision::Month
    } else if count == 3 {
        Precision::Day
    } else if count == 5 {
        Precision::HourAndMinute
    } else if count == 6 {
        Precision::Second
    } else {
        return Err(IonError::Decoding);
    };
    let rest = vstd::slice::slice_subrange(after_offset, position, after_offset.len());
    assert(rest@ =~= after_offset@.skip(position as int));
    let fractional_seconds: Option<Decimal> = if rest.len() == 0 {
        None
    } else {
        match read_decimal(rest) {
            Ok(fraction) => Some(fraction),
            Err(_) => {
                return Err(IonError::Decoding);
            },
        }
    };
    Ok(
        Timestamp {
            precision,
            offset_minutes,
            year: fields[0],
            month: fields[1],
            day: fields[2],
            hour: fields[3],
            minute: fields[4],
            second: fields[5],
            fractional_seconds,
        },
    )
}

/// Appends the bytes of the offset to `sink`.
fn write_offset(sink: &mut Vec<u8>, offset_minutes: Option<i32>)
    ensures
        final(sink)@ == old(sink)@ + offset_bytes(
            match offset_minutes {
                Some(offset) => Some(offset as int),
                None => None,
            },
        ),
{
    match offset_minutes {
        None => {
            let _ = VarInt::write_parts(sink, true, 0);
        },
        Some(offset) => {
            let _ = VarInt::write_i64(sink, offset as i64);
        },
    }
}

/// Appends the fields after the year that the precision asks for to `sink`.
fn write_fields_after_year(sink: &mut Vec<u8>, timestamp: &Timestamp)
    ensures
        final(sink)@ == old(sink)@ + fields_after_year(timestamp.view_parts()),
{
    let ghost view = timestamp.view_parts();
    let ghost start = sink@;
    let rank = timestamp.precision.rank();
    if rank >= 1 {
        let _ = VarUInt::write_u64(sink, timestamp.month as u64);
    }
    let ghost after_month = sink@;
    assert(after_month =~= start + if rank >= 1 {
        var_uint_bytes(view.month)
    } else {
        Seq::empty()
    });
    if rank >= 2 {
        let _ = VarUInt::write_u64(sink, timestamp.day as u64);
    }
    let ghost after_day = sink@;
    assert(after_day =~= after_month + if rank >= 2 {
        var_uint_bytes(view.day)
    } else {
        Seq::empty()
    });
    if rank >= 4 {
        let _ = VarUInt::write_u64(sink, timestamp.hour as u64);
        let _ = VarUInt::write_u64(sink, timestamp.minute as u64);
    }
    let ghost after_time = sink@;
    assert(after_time =~= after_day + if rank >= 4 {
        var_uint_bytes(view.hour) + var_uint_bytes(view.minute)
    } else {
        Seq::empty()
    });
    if rank >= 5 {
        let _ = VarUInt::write_u64(sink, timestamp.second as u64);
    }
    assert(sink@ =~= after_time + if rank >= 5 {
        var_uint_bytes(view.second)
    } else {
        Seq::empty()
    });
    assert(sink@ =~= start + fields_after_year(view));
}

/// Appends the bytes of the fraction of a second to `sink`.
fn write_fraction(sink: &mut Vec<u8>, fraction: &Option<Decimal>)
    requires
        fraction is Some ==> fraction->Some_0.wf() && vstd::math::abs(
            fraction->Some_0.spec_exponent() as int,
        ) < MAGNITUDE_LIMIT,
    ensures
        final(sink)@ == old(sink)@ + fraction_bytes(
            match *fraction {
                Some(f) => Some(f.view_parts()),
                None => None,
            },
        ),
{
    match fraction {
        Some(fraction) => {
            let _ = VarInt::write_i64(sink, fraction.exponent());
            write_signed(sink, fraction.is_negative(), fraction.magnitude());
            assert(sink@ =~= old(sink)@ + fraction_bytes(Some(fraction.view_parts())));
        },
        None => {
            assert(sink@ =~= old(sink)@ + Seq::<u8>::empty());
        },
    }
}

/// Appends the body of `timestamp` to `sink`. A fraction whose exponent has a
/// magnitude of 2 to the 62 or more cannot be written.
pub fn write_timestamp_body(sink: &mut Vec<u8>, timestamp: &Timestamp) -> (r: IonResult<()>)
    requires
        timestamp.wf(),
    ensures
        match r {
            Ok(_) => final(sink)@ == old(sink)@ + timestamp_body(timestamp.view_parts()),
            Err(error) => error == IonError::Encoding && final(sink)@ == old(sink)@,
        },
        r is Err <==> timestamp.fractional_seconds is Some && vstd::math::abs(
            timestamp.fractional_seconds->Some_0.spec_exponent() as int,
        ) >= MAGNITUDE_LIMIT,
{
    match &timestamp.fractional_seconds {
        Some(fraction) => {
            let magnitude = crate::types::integer::unsigned_abs(fraction.exponent());
            if magnitude >= MAGNITUDE_LIMIT {
                return Err(IonError::Encoding);
            }
        },
        None => {},
    }
    let ghost view = timestamp.view_parts();
    let ghost start = sink@;
    write_offset(sink, timestamp.offset_minutes);
    let ghost after_offset = sink@;
    let _ = VarUInt::write_u64(sink, timestamp.year as u64);
    let ghost after_year = sink@;
    write_fields_after_year(sink, timestamp);
    let ghost after_fields = sink@;
    write_fraction(sink, &timestamp.fractional_seconds);
    assert(sink@ =~= start + (offset_bytes(view.offset_minutes) + var_uint_bytes(view.year)
        + fields_after_year(view) + fraction_bytes(view.fraction)));
    Ok(())
}

/// The `VarUInt` encodings of `values`, one after another.
pub open spec fn fields_bytes(values: Seq<nat>) -> Seq<u8>
    decreases values.len(),
{
    if values.len() == 0 {
        Seq::empty()
    } else {
        var_uint_bytes(values[0]) + fields_bytes(values.drop_first())
    }
}

/// Reading back fields that were written one after another yields the
/// fields, when nothing follows them or the limit is reached.
pub proof fn lemma_uint_fields_round_trip(values: Seq<nat>, rest: Seq<u8>, limit: nat)
    requires
        values.len() <= limit,
        forall|i: int| 0 <= i < values.len() ==> values[i] <= u32::MAX,
        values.len() < limit ==> rest.len() == 0,
    ensures
        uint_fields(fields_bytes(values) + rest, limit) == Some(
            (values, fields_bytes(values).len()),
        ),
    decreases values.len(),
{
    if values.len() == 0 {
        assert(fields_bytes(values) + rest =~= rest);
    } else {
        let first = var_uint_bytes(values[0]);
        let tail = values.drop_first();
        let s = fields_bytes(values) + rest;
        crate::binary::var_uint::lemma_var_uint_round_trip(
            values[0] as u64,
            fields_bytes(tail) + rest,
        );
        crate::binary::var_uint::lemma_var_uint_bytes_len(values[0]);
        assert(s =~= first + (fields_bytes(tail) + rest));
        assert(s.skip(first.len() as int) =~= fields_bytes(tail) + rest);
        assert forall|i: int| 0 <= i < tail.len() implies tail[i] <= u32::MAX by {
            assert(tail[i] == values[i + 1]);
        }
        lemma_uint_fields_round_trip(tail, rest, (limit - 1) as nat);
        assert(seq![values[0]] + tail =~= values);
    }
}

/// The fields of a timestamp from the year on, as many as its precision
/// asks for.
pub open spec fn fields_of(t: TimestampView) -> Seq<nat> {
    let rank = t.precision.spec_rank();
    if rank >= 5 {
        seq![t.year, t.month, t.day, t.hour, t.minute, t.second]
    } else if rank >= 4 {
        seq![t.year, t.month, t.day, t.hour, t.minute]
    } else if rank >= 2 {
        seq![t.year, t.month, t.day]
    } else if rank >= 1 {
        seq![t.year, t.month]
    } else {
        seq![t.year]
    }
}

/// True for the timestamps that can be written and read back: fields beyond
/// the precision have their default values, every field fits in 32 bits, the
/// offset in 31, and the exponent of the fraction has a magnitude below 2 to
/// the 62.
pub open spec fn is_writable(t: TimestampView) -> bool {
    let rank = t.precision.spec_rank();
    &&& rank < 1 ==> t.month == 1
    &&& rank < 2 ==> t.day == 1
    &&& rank < 4 ==> t.hour == 0 && t.minute == 0
    &&& rank < 5 ==> t.second == 0 && t.fraction is None
    &&& t.year <= u32::MAX && t.month <= u32::MAX && t.day <= u32::MAX
    &&& t.hour <= u32::MAX && t.minute <= u32::MAX && t.second <= u32::MAX
    &&& t.offset_minutes is Some ==> vstd::math::abs(t.offset_minutes->Some_0) <= i32::MAX
    &&& t.fraction is Some ==> vstd::math::abs(t.fraction->Some_0.exponent) < MAGNITUDE_LIMIT
}

/// Reading back the fraction of a second that was written yields the
/// fraction.
pub proof fn lemma_fraction_round_trip(fraction: DecimalView)
    requires
        vstd::math::abs(fraction.exponent) < MAGNITUDE_LIMIT,
    ensures
        fraction_bytes(Some(fraction)).len() > 0,
        decimal_parse(fraction_bytes(Some(fraction))) == Some(fraction),
{
    let exponent = var_int_bytes(fraction.exponent < 0, vstd::math::abs(fraction.exponent));
    let coefficient = signed_bytes(fraction.negative, fraction.magnitude);
    crate::binary::var_int::lemma_var_int_round_trip(
        fraction.exponent < 0,
        vstd::math::abs(fraction.exponent),
        coefficient,
    );
    crate::binary::decimal::lemma_signed_round_trip(fraction.negative, fraction.magnitude);
    let body = fraction_bytes(Some(fraction));
    assert(body.skip(exponent.len() as int) =~= coefficient);
}

/// The year and the fields after it are the fields of the timestamp, one
/// after another.
pub proof fn lemma_fields_of(t: TimestampView)
    ensures
        var_uint_bytes(t.year) + fields_after_year(t) == fields_bytes(fields_of(t)),
        1 <= fields_of(t).len() <= 6,
        precision_of(fields_of(t).len()) == Some(t.precision),
        fields_of(t).len() == 6 <==> t.precision.spec_rank() >= 5,
{
    let values = fields_of(t);
    reveal_with_fuel(fields_bytes, 8);
    let v1 = values.drop_first();
    if v1.len() > 0 {
        let v2 = v1.drop_first();
        if v2.len() > 0 {
            let v3 = v2.drop_first();
            if v3.len() > 0 {
                let v4 = v3.drop_first();
                if v4.len() > 0 {
                    let v5 = v4.drop_first();
                    if v5.len() > 0 {
                        let v6 = v5.drop_first();
                        assert(v6.len() == 0);
                    }
                }
            }
        }
    }
    assert(var_uint_bytes(t.year) + fields_after_year(t) =~= fields_bytes(values));
}

/// Reading back the offset that starts the body of a timestamp yields the
/// offset, and what follows it is the fields and the fraction.
#[verifier::rlimit(50)]
pub proof fn lemma_offset_round_trip(offset_minutes: Option<int>, rest: Seq<u8>)
    requires
        offset_minutes is Some ==> vstd::math::abs(offset_minutes->Some_0) <= i32::MAX,
    ensures
        var_int_parse(offset_bytes(offset_minutes) + rest) is Ok,
        ({
            let offset = var_int_parse(offset_bytes(offset_minutes) + rest)->Ok_0;
            &&& offset.size == offset_bytes(offset_minutes).len()
            &&& offset.magnitude <= i32::MAX
            &&& (offset.negative && offset.magnitude == 0) == (offset_minutes is None)
            &&& offset_minutes is Some ==> offset_minutes->Some_0 == if offset.negative {
                -(offset.magnitude as int)
            } else {
                offset.magnitude as int
            }
            &&& (offset_bytes(offset_minutes) + rest).skip(offset.size as int) == rest
        }),
{
    match offset_minutes {
        None => {
            crate::binary::var_int::lemma_var_int_round_trip(true, 0, rest);
        },
        Some(minutes) => {
            crate::binary::var_int::lemma_var_int_round_trip(
                minutes < 0,
                vstd::math::abs(minutes),
                rest,
            );
        },
    }
    let bytes = offset_bytes(offset_minutes);
    assert((bytes + rest).skip(bytes.len() as int) =~= rest);
}

/// Reading back the fields and the fraction of a timestamp that was written
/// yields the fields, and leaves the fraction.
#[verifier::rlimit(50)]
pub proof fn lemma_fields_round_trip(t: TimestampView)
    requires
        is_writable(t),
    ensures
        ({
            let fields = var_uint_bytes(t.year) + fields_after_year(t);
            let after_offset = fields + fraction_bytes(t.fraction);
            &&& uint_fields(after_offset, 6) == Some((fields_of(t), fields.len()))
            &&& after_offset.skip(fields.len() as int) == fraction_bytes(t.fraction)
            &&& precision_of(fields_of(t).len()) == Some(t.precision)
            &&& fields.len() >= 1
            &&& t.fraction is Some ==> fraction_bytes(t.fraction).len() > 0 && decimal_parse(
                fraction_bytes(t.fraction),
            ) == t.fraction
            &&& t.fraction is None ==> fraction_bytes(t.fraction).len() == 0
        }),
{
    let fields = var_uint_bytes(t.year) + fields_after_year(t);
    let fraction = fraction_bytes(t.fraction);
    lemma_fields_of(t);
    if t.fraction is Some {
        lemma_fraction_round_trip(t.fraction->Some_0);
    }
    lemma_uint_fields_round_trip(fields_of(t), fraction, 6);
    crate::binary::var_uint::lemma_var_uint_bytes_len(t.year);
    assert((fields + fraction).skip(fields.len() as int) =~= fraction);
}

/// Reading back the body of a timestamp yields the timestamp.
#[verifier::rlimit(80)]
#[verifier::spinoff_prover]
pub proof fn lemma_timestamp_body_round_trip(t: TimestampView)
    requires
        is_writable(t),
    ensures
        timestamp_parse(timestamp_body(t)) == Some(t),
        timestamp_body(t).len() >= 2,
{
    let offset = offset_bytes(t.offset_minutes);
    let fields = var_uint_bytes(t.year) + fields_after_year(t);
    let fraction = fraction_bytes(t.fraction);
    let body = timestamp_body(t);
    let values = fields_of(t);
    assert(body =~= offset + (fields + fraction));
    lemma_offset_round_trip(t.offset_minutes, fields + fraction);
    lemma_fields_round_trip(t);
    let parsed_offset = var_int_parse(body)->Ok_0;
    let after_offset = body.skip(parsed_offset.size as int);
    assert(after_offset == fields + fraction);
    assert(uint_fields(after_offset, 6) == Some((values, fields.len())));
    let rest = after_offset.skip(fields.len() as int);
    assert(rest == fraction);
    assert(values[0] == t.year);
    assert(field_or(values, 1, 1) == t.month);
    assert(field_or(values, 2, 1) == t.day);
    assert(field_or(values, 3, 0) == t.hour);
    assert(field_or(values, 4, 0) == t.minute);
    assert(field_or(values, 5, 0) == t.second);
    let parsed = timestamp_parse(body);
    assert(parsed is Some);
    assert(parsed->Some_0.offset_minutes == t.offset_minutes);
    assert(parsed->Some_0.fraction == t.fraction);
    assert(parsed->Some_0.precision == t.precision);
    assert(parsed->Some_0 == t);
}

} // verus!
