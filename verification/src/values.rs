//! Plain-value forms of the decimal, date and timestamp columns.

use vstd::prelude::*;
use chrono::Datelike;
use crate::hashing::{lemma_split_eq, lemma_split_tag};


verus! {

/// A fixed-point decimal number `mantissa * 10^(-scale)`, as held by
/// `rust_decimal::Decimal` (a 96-bit mantissa and a scale of at most 28).
#[derive(Clone, Copy, Debug, PartialEq, Eq, Structural)]
pub struct DecimalValue {
    pub mantissa: i128,
    pub scale: u32,
}

/// Largest scale that `rust_decimal::Decimal` accepts.
pub const MAX_DECIMAL_SCALE: u32 = 28;

/// Calls `rust_decimal::Decimal::new(num, scale)` and reads back the
/// decimal's mantissa and scale. `Decimal::new` panics when `scale` exceeds
/// `Decimal::MAX_SCALE` (28); otherwise it stores `num` as the 96-bit
/// mantissa and `scale` as the scale, so `mantissa()` and `scale()` return
/// them unchanged.
#[verifier::external_body]
pub fn decimal_new(num: i64, scale: u32) -> (d: DecimalValue)
    requires
        scale <= MAX_DECIMAL_SCALE,
    ensures
        d.mantissa == num as i128,
        d.scale == scale,
{
    let d = rust_decimal::Decimal::new(num, scale);
    DecimalValue { mantissa: d.mantissa(), scale: d.scale() }
}

/// `Decimal::from(n)` for an integer `n`: the decimal with mantissa `n` and
/// scale 0.
pub fn decimal_from_int(n: i64) -> (d: DecimalValue)
    ensures
        d.mantissa == n as i128,
        d.scale == 0,
{
    decimal_new(n, 0)
}

/// A proleptic Gregorian calendar date, as held by `chrono::NaiveDate`.
#[derive(Clone, Copy, Debug, PartialEq, Eq, Structural)]
pub struct CalendarDate {
    pub year: i32,
    pub month: u32,
    pub day: u32,
}

/// Smallest and largest years that `chrono::NaiveDate` represents.
pub const MIN_DATE_YEAR: i32 = -262143;
pub const MAX_DATE_YEAR: i32 = 262142;

pub open spec fn is_leap_year(y: int) -> bool {
    (y % 4 == 0 && y % 100 != 0) || y % 400 == 0
}

pub open spec fn days_in_month(y: int, m: int) -> int {
    if m == 2 {
        if is_leap_year(y) { 29 } else { 28 }
    } else if m == 4 || m == 6 || m == 9 || m == 11 {
        30
    } else {
        31
    }
}

/// The year/month/day triples that name a date `chrono::NaiveDate` can hold.
pub open spec fn is_valid_ymd(y: i32, m: u32, d: u32) -> bool {
    &&& MIN_DATE_YEAR <= y <= MAX_DATE_YEAR
    &&& 1 <= m <= 12
    &&& 1 <= d <= days_in_month(y as int, m as int)
}

/// Calls `chrono::NaiveDate::from_ymd_opt(year, month, day)` and reads the
/// date back through `Datelike::{year, month, day}`. `from_ymd_opt` returns
/// `None` for a year outside chrono's range, a month outside 1..=12 or a day
/// that the month does not have, and otherwise the date itself.
#[verifier::external_body]
pub fn date_from_ymd(year: i32, month: u32, day: u32) -> (r: Option<CalendarDate>)
    ensures
        r is Some <==> is_valid_ymd(year, month, day),
        r matches Some(dt) ==> dt == (CalendarDate { year, month, day }),
{
    match chrono::NaiveDate::from_ymd_opt(year, month, day) {
        Some(nd) => Some(CalendarDate { year: nd.year(), month: nd.month(), day: nd.day() }),
        None => None,
    }
}

/// A point in time: microseconds since the Unix epoch, UTC, as read from a
/// `chrono::DateTime<Utc>` by `timestamp_micros`.
#[derive(Clone, Copy, Debug, PartialEq, Eq, Structural)]
pub struct Timestamp {
    pub micros: i64,
}

/// Calls `chrono::Utc::now()` and returns its `timestamp_micros()`. The value
/// is the machine's clock reading; what holds of every reading is that it is
/// not before the Unix epoch (`Utc::now` panics on a clock set earlier).
#[verifier::external_body]
pub fn now_utc() -> (t: Timestamp)
    ensures
        t.micros >= 0,
{
    Timestamp { micros: chrono::Utc::now().timestamp_micros() }
}

pub open spec fn enc_decimal(d: DecimalValue) -> Seq<u64> {
    seq![(d.mantissa >> 64u32) as u64, d.mantissa as u64, d.scale as u64]
}

pub open spec fn enc_opt_decimal(o: Option<DecimalValue>) -> Seq<u64> {
    match o {
        None => seq![0u64],
        Some(d) => seq![1u64] + enc_decimal(d),
    }
}

pub open spec fn enc_date(d: CalendarDate) -> Seq<u64> {
    seq![d.year as u64, d.month as u64, d.day as u64]
}

pub open spec fn enc_opt_date(o: Option<CalendarDate>) -> Seq<u64> {
    match o {
        None => seq![0u64],
        Some(d) => seq![1u64] + enc_date(d),
    }
}

pub open spec fn enc_timestamp(t: Timestamp) -> Seq<u64> {
    seq![t.micros as u64]
}

pub fn push_decimal(out: &mut Vec<u64>, d: DecimalValue)
    ensures
        final(out)@ == old(out)@ + enc_decimal(d),
{
    out.push((d.mantissa >> 64u32) as u64);
    out.push(d.mantissa as u64);
    out.push(d.scale as u64);
}

pub fn push_opt_decimal(out: &mut Vec<u64>, o: Option<DecimalValue>)
    ensures
        final(out)@ == old(out)@ + enc_opt_decimal(o),
{
    match o {
        None => {
            out.push(0u64);
        },
        Some(d) => {
            out.push(1u64);
            push_decimal(out, d);
        },
    }
}

pub fn push_date(out: &mut Vec<u64>, d: CalendarDate)
    ensures
        final(out)@ == old(out)@ + enc_date(d),
{
    out.push(d.year as u64);
    out.push(d.month as u64);
    out.push(d.day as u64);
}

pub fn push_opt_date(out: &mut Vec<u64>, o: Option<CalendarDate>)
    ensures
        final(out)@ == old(out)@ + enc_opt_date(o),
{
    match o {
        None => {
            out.push(0u64);
        },
        Some(d) => {
            out.push(1u64);
            push_date(out, d);
        },
    }
}

pub fn push_timestamp(out: &mut Vec<u64>, t: Timestamp)
    ensures
        final(out)@ == old(out)@ + enc_timestamp(t),
{
    out.push(t.micros as u64);
}

/// A copy of an optional text.
pub fn copy_opt_text(o: &Option<String>) -> (r: Option<String>)
    ensures
        r == *o,
{
    match o {
        None => None,
        Some(s) => Some(s.clone()),
    }
}

pub proof fn lemma_peel_decimal(a: DecimalValue, b: DecimalValue, ra: Seq<u64>, rb: Seq<u64>)
    requires
        enc_decimal(a) + ra == enc_decimal(b) + rb,
    ensures
        a == b,
        ra == rb,
{
    lemma_split_eq(enc_decimal(a), ra, enc_decimal(b), rb);
    assert(enc_decimal(a)[0] == enc_decimal(b)[0]);
    assert(enc_decimal(a)[1] == enc_decimal(b)[1]);
    assert(enc_decimal(a)[2] == enc_decimal(b)[2]);
    let (x, y) = (a.mantissa, b.mantissa);
    let (s, t) = (a.scale, b.scale);
    assert(((x >> 64u32) as u64 == (y >> 64u32) as u64 && x as u64 == y as u64) ==> x == y)
        by (bit_vector);
    assert(s as u64 == t as u64 ==> s == t) by (bit_vector);
}

pub proof fn lemma_peel_opt_decimal(
    a: Option<DecimalValue>,
    b: Option<DecimalValue>,
    ra: Seq<u64>,
    rb: Seq<u64>,
)
    requires
        enc_opt_decimal(a) + ra == enc_opt_decimal(b) + rb,
    ensures
        a == b,
        ra == rb,
{
    assert((enc_opt_decimal(a) + ra)[0] == (enc_opt_decimal(b) + rb)[0]);
    match (a, b) {
        (Some(x), Some(y)) => {
            lemma_split_tag(1u64, enc_decimal(x), ra);
            lemma_split_tag(1u64, enc_decimal(y), rb);
            lemma_split_eq(seq![1u64], enc_decimal(x) + ra, seq![1u64], enc_decimal(y) + rb);
            lemma_peel_decimal(x, y, ra, rb);
        },
        (None, None) => {
            lemma_split_eq(enc_opt_decimal(a), ra, enc_opt_decimal(b), rb);
        },
        (Some(x), None) => {
            lemma_split_tag(1u64, enc_decimal(x), ra);
        },
        (None, Some(y)) => {
            lemma_split_tag(1u64, enc_decimal(y), rb);
        },
    }
}

pub proof fn lemma_peel_date(a: CalendarDate, b: CalendarDate, ra: Seq<u64>, rb: Seq<u64>)
    requires
        enc_date(a) + ra == enc_date(b) + rb,
    ensures
        a == b,
        ra == rb,
{
    lemma_split_eq(enc_date(a), ra, enc_date(b), rb);
    assert(enc_date(a)[0] == enc_date(b)[0]);
    assert(enc_date(a)[1] == enc_date(b)[1]);
    assert(enc_date(a)[2] == enc_date(b)[2]);
    let (y1, y2) = (a.year, b.year);
    let (m1, m2) = (a.month, b.month);
    let (d1, d2) = (a.day, b.day);
    assert(y1 as u64 == y2 as u64 ==> y1 == y2) by (bit_vector);
    assert(m1 as u64 == m2 as u64 ==> m1 == m2) by (bit_vector);
    assert(d1 as u64 == d2 as u64 ==> d1 == d2) by (bit_vector);
}

pub proof fn lemma_peel_opt_date(
    a: Option<CalendarDate>,
    b: Option<CalendarDate>,
    ra: Seq<u64>,
    rb: Seq<u64>,
)
    requires
        enc_opt_date(a) + ra == enc_opt_date(b) + rb,
    ensures
        a == b,
        ra == rb,
{
    assert((enc_opt_date(a) + ra)[0] == (enc_opt_date(b) + rb)[0]);
    match (a, b) {
        (Some(x), Some(y)) => {
            lemma_split_tag(1u64, enc_date(x), ra);
            lemma_split_tag(1u64, enc_date(y), rb);
            lemma_split_eq(seq![1u64], enc_date(x) + ra, seq![1u64], enc_date(y) + rb);
            lemma_peel_date(x, y, ra, rb);
        },
        (None, None) => {
            lemma_split_eq(enc_opt_date(a), ra, enc_opt_date(b), rb);
        },
        (Some(x), None) => {
            lemma_split_tag(1u64, enc_date(x), ra);
        },
        (None, Some(y)) => {
            lemma_split_tag(1u64, enc_date(y), rb);
        },
    }
}

pub proof fn lemma_peel_timestamp(a: Timestamp, b: Timestamp, ra: Seq<u64>, rb: Seq<u64>)
    requires
        enc_timestamp(a) + ra == enc_timestamp(b) + rb,
    ensures
        a == b,
        ra == rb,
{
    lemma_split_eq(enc_timestamp(a), ra, enc_timestamp(b), rb);
    assert(enc_timestamp(a)[0] == enc_timestamp(b)[0]);
    let (x, y) = (a.micros, b.micros);
    assert(x as u64 == y as u64 ==> x == y) by (bit_vector);
}

} // verus!
