//! The start of a calendar day, as the store writes timestamps.

use vstd::prelude::*;
use crate::loader::{transactions_since, SELECT_TRANSACTIONS_SINCE};
use crate::sql::Statement;
use crate::text::{decimal, digits_value, lemma_decimal_reads_back};

verus! {

/// The latest year a calendar date can have.
pub const LAST_YEAR: i32 = 262142i32;

/// The earliest year a calendar date can have.
pub const FIRST_YEAR: i32 = -262143i32;

/// Leap years of the proleptic Gregorian calendar.
pub open spec fn is_leap_year(y: int) -> bool {
    (y % 4 == 0 && y % 100 != 0) || y % 400 == 0
}

/// The number of days in a month of a year.
pub open spec fn days_in_month(y: int, m: int) -> int {
    if m == 2 {
        if is_leap_year(y) { 29 } else { 28 }
    } else if m == 4 || m == 6 || m == 9 || m == 11 {
        30
    } else {
        31
    }
}

/// Whether year, month and day name a calendar date that can be represented.
pub open spec fn valid_date(y: i32, m: u32, d: u32) -> bool {
    &&& FIRST_YEAR <= y <= LAST_YEAR
    &&& 1 <= m <= 12
    &&& 1 <= d <= days_in_month(y as int, m as int)
}

/// Decimal digits of `n`, padded with zeros on the left to at least `width`.
pub open spec fn padded(n: nat, width: nat) -> Seq<char> {
    let digits = decimal(n);
    if digits.len() < width {
        Seq::new((width - digits.len()) as nat, |i: int| '0') + digits
    } else {
        digits
    }
}

/// A year as four digits when it is between 0 and 9999, else with its sign
/// and at least four digits.
pub open spec fn year_text(y: int) -> Seq<char> {
    if 0 <= y <= 9999 {
        padded(y as nat, 4)
    } else if y < 0 {
        seq!['-'] + padded((-y) as nat, 4)
    } else {
        seq!['+'] + padded(y as nat, 4)
    }
}

/// Whether hour, minute and second name a time of day (no leap second).
pub open spec fn valid_time(h: u32, mi: u32, sec: u32) -> bool {
    h < 24 && mi < 60 && sec < 60
}

/// "YYYY-MM-DD hh:mm:ss": a moment as the store writes timestamps.
pub open spec fn datetime_text(y: i32, m: u32, d: u32, h: u32, mi: u32, sec: u32) -> Seq<char> {
    year_text(y as int) + seq!['-'] + padded(m as nat, 2) + seq!['-'] + padded(d as nat, 2)
        + seq![' '] + padded(h as nat, 2) + seq![':'] + padded(mi as nat, 2) + seq![':']
        + padded(sec as nat, 2)
}

/// "YYYY-MM-DD 00:00:00": the first moment of a day.
pub open spec fn midnight_text(y: i32, m: u32, d: u32) -> Seq<char> {
    datetime_text(y, m, d, 0, 0, 0)
}

/// A moment written as chrono writes a `NaiveDateTime`
/// (`NaiveDateTime::new(NaiveDate::from_ymd(..), NaiveTime::from_hms(..))`
/// then `to_string`). The contract states chrono's `Display` format: the date
/// as year-month-day, the year as four digits for years 0 to 9999 and signed
/// otherwise, month and day as two digits, then a space and the time as
/// hour:minute:second, two digits each (no fraction: the time has none).
/// `from_ymd` panics on a date that does not exist or is out of range, and
/// `from_hms` on an hour, minute or second out of range; `requires` leaves
/// both out.
#[verifier::external_body]
fn chrono_datetime(year: i32, month: u32, day: u32, hour: u32, minute: u32, second: u32) -> (s: String)
    requires
        valid_date(year, month, day),
        valid_time(hour, minute, second),
    ensures
        s@ == datetime_text(year, month, day, hour, minute, second),
{
    #[allow(deprecated)]
    let date = chrono::NaiveDate::from_ymd(year, month, day);
    #[allow(deprecated)]
    let time = chrono::NaiveTime::from_hms(hour, minute, second);
    chrono::NaiveDateTime::new(date, time).to_string()
}

/// Whether year, month and day name a calendar date that can be represented.
pub fn is_valid_date(year: i32, month: u32, day: u32) -> (b: bool)
    ensures
        b == valid_date(year, month, day),
{
    if year < FIRST_YEAR || year > LAST_YEAR || month < 1 || month > 12 || day < 1 {
        return false;
    }
    let leap = (year % 4 == 0 && year % 100 != 0) || year % 400 == 0;
    assert(leap == is_leap_year(year as int)) by {
        assert((year % 4 == 0) == ((year as int) % 4 == 0));
    }
    let last: u32 = if month == 2 {
        if leap { 29 } else { 28 }
    } else if month == 4 || month == 6 || month == 9 || month == 11 {
        30
    } else {
        31
    };
    day <= last
}

/// The first moment of a day, as the store writes timestamps.
pub fn midnight(year: i32, month: u32, day: u32) -> (s: String)
    requires
        valid_date(year, month, day),
    ensures
        s@ == midnight_text(year, month, day),
{
    chrono_datetime(year, month, day, 0, 0, 0)
}

/// Builds the lookup of the sales made since the start of the given day,
/// newest first.
pub fn sales_of_the_day(year: i32, month: u32, day: u32) -> (st: Statement)
    requires
        valid_date(year, month, day),
    ensures
        st@.sql == SELECT_TRANSACTIONS_SINCE@,
        st@.params == seq![crate::sql::ParamView::Text(midnight_text(year, month, day))],
{
    let moment = midnight(year, month, day);
    transactions_since(&moment)
}

/// Ten to the power `k`.
pub open spec fn ten_pow(k: nat) -> nat
    decreases k,
{
    if k == 0 { 1 } else { 10 * ten_pow((k - 1) as nat) }
}

proof fn lemma_decimal_len(n: nat, k: nat)
    requires
        k >= 1,
        n < ten_pow(k),
    ensures
        decimal(n).len() <= k,
    decreases n,
{
    if n >= 10 {
        let k1 = (k - 1) as nat;
        if k == 1 {
            assert(ten_pow(1) == 10 * ten_pow(0));
        }
        assert(k >= 2);
        assert(ten_pow(k) == 10 * ten_pow(k1));
        assert(n / 10 < ten_pow(k1)) by (nonlinear_arith)
            requires n < 10 * ten_pow(k1);
        lemma_decimal_len(n / 10, k1);
    }
}

proof fn lemma_leading_zeros(z: nat, s: Seq<char>)
    ensures
        digits_value(Seq::new(z, |i: int| '0') + s) == digits_value(s),
    decreases z + s.len(),
{
    let zs = Seq::new(z, |i: int| '0');
    if s.len() == 0 {
        assert(zs + s =~= zs);
        if z > 0 {
            let z1 = (z - 1) as nat;
            lemma_leading_zeros(z1, s);
            assert(zs.drop_last() =~= Seq::new(z1, |i: int| '0') + s);
            assert(('0' as u32) == 48);
        }
    } else {
        lemma_leading_zeros(z, s.drop_last());
        assert((zs + s).drop_last() =~= zs + s.drop_last());
        assert((zs + s).last() == s.last());
    }
}

/// The number `n` padded to `width` digits reads back as `n`, and is exactly
/// `width` characters long when `n` has no more than `width` digits.
proof fn lemma_padded(n: nat, width: nat)
    requires
        width >= 1,
        n < ten_pow(width),
    ensures
        padded(n, width).len() == width,
        digits_value(padded(n, width)) == n,
{
    lemma_decimal_len(n, width);
    lemma_decimal_reads_back(n);
    if decimal(n).len() < width {
        lemma_leading_zeros((width - decimal(n).len()) as nat, decimal(n));
    }
}

/// How a moment is written: for a year from 0 to 9999, the year in four
/// digits, '-', the month in two, '-', the day in two, ' ', then hour,
/// minute and second in two digits each separated by ':', each field reading
/// back as the value given; a year before 0 starts with '-', one after 9999
/// with '+'.
pub proof fn lemma_datetime_layout(y: i32, m: u32, d: u32, h: u32, mi: u32, sec: u32)
    requires
        valid_date(y, m, d),
        valid_time(h, mi, sec),
    ensures
        ({
            let t = datetime_text(y, m, d, h, mi, sec);
            &&& 0 <= y <= 9999 ==> {
                &&& t.len() == 19
                &&& t[4] == '-' && t[7] == '-' && t[10] == ' ' && t[13] == ':' && t[16] == ':'
                &&& digits_value(t.subrange(0, 4)) == y
                &&& digits_value(t.subrange(5, 7)) == m
                &&& digits_value(t.subrange(8, 10)) == d
                &&& digits_value(t.subrange(11, 13)) == h
                &&& digits_value(t.subrange(14, 16)) == mi
                &&& digits_value(t.subrange(17, 19)) == sec
            }
            &&& y < 0 ==> t[0] == '-'
            &&& y > 9999 ==> t[0] == '+'
        }),
{
    assert(ten_pow(1) == 10) by { assert(ten_pow(0) == 1); }
    assert(ten_pow(2) == 100) by { assert(ten_pow(1) == 10) by { assert(ten_pow(0) == 1); } }
    assert(ten_pow(4) == 10000) by {
        assert(ten_pow(0) == 1);
        assert(ten_pow(1) == 10);
        assert(ten_pow(2) == 100);
        assert(ten_pow(3) == 1000);
    }
    let mp = padded(m as nat, 2);
    let dp = padded(d as nat, 2);
    let hp = padded(h as nat, 2);
    let mip = padded(mi as nat, 2);
    let sp = padded(sec as nat, 2);
    lemma_padded(m as nat, 2);
    lemma_padded(d as nat, 2);
    lemma_padded(h as nat, 2);
    lemma_padded(mi as nat, 2);
    lemma_padded(sec as nat, 2);
    let yt = year_text(y as int);
    let t = datetime_text(y, m, d, h, mi, sec);
    assert(t == yt + seq!['-'] + mp + seq!['-'] + dp + seq![' '] + hp + seq![':'] + mip + seq![':'] + sp);
    if 0 <= y <= 9999 {
        lemma_padded(y as nat, 4);
        assert(yt.len() == 4);
        assert(t.subrange(0, 4) =~= yt);
        assert(t.subrange(5, 7) =~= mp);
        assert(t.subrange(8, 10) =~= dp);
        assert(t.subrange(11, 13) =~= hp);
        assert(t.subrange(14, 16) =~= mip);
        assert(t.subrange(17, 19) =~= sp);
    }
}

/// A year has 366 days when it is a leap year and 365 otherwise; every
/// month has 28 to 31 days, and the calendar repeats every 400 years.
pub proof fn lemma_year_length(y: int)
    ensures
        days_in_month(y, 1) + days_in_month(y, 2) + days_in_month(y, 3) + days_in_month(y, 4)
            + days_in_month(y, 5) + days_in_month(y, 6) + days_in_month(y, 7) + days_in_month(y, 8)
            + days_in_month(y, 9) + days_in_month(y, 10) + days_in_month(y, 11) + days_in_month(y, 12)
            == if is_leap_year(y) { 366int } else { 365int },
        forall|m: int| 1 <= m <= 12 ==> 28 <= #[trigger] days_in_month(y, m) <= 31,
        is_leap_year(y + 400) == is_leap_year(y),
{
    assert((y + 400) % 4 == y % 4);
    assert((y + 400) % 100 == y % 100);
    assert((y + 400) % 400 == y % 400);
}

} // verus!
