//! Calendar dates held as plain values, and their text forms.

use chrono::Datelike;
use vstd::prelude::*;

verus! {

/// Smallest year that a calendar date may carry.
pub const MIN_YEAR: i32 = -262143;

/// Largest year that a calendar date may carry.
pub const MAX_YEAR: i32 = 262142;

/// A day of the proleptic Gregorian calendar.
#[derive(Clone, Copy, Debug, PartialEq, Eq)]
pub struct Date {
    pub year: i32,
    pub month: u32,
    pub day: u32,
}

/// Leap years of the Gregorian calendar.
pub open spec fn is_leap_year(y: int) -> bool {
    (y % 4 == 0 && y % 100 != 0) || y % 400 == 0
}

/// Number of days in month `m` (1 to 12) of year `y`.
pub open spec fn days_in_month(y: int, m: int) -> int {
    if m == 2 {
        if is_leap_year(y) { 29 } else { 28 }
    } else if m == 4 || m == 6 || m == 9 || m == 11 {
        30
    } else {
        31
    }
}

/// Whether the three numbers name a real calendar day in the supported range.
pub open spec fn valid_date(y: int, m: int, d: int) -> bool {
    &&& MIN_YEAR <= y <= MAX_YEAR
    &&& 1 <= m <= 12
    &&& 1 <= d <= days_in_month(y, m)
}

impl Date {
    /// The date is a real calendar day in the supported range.
    pub open spec fn wf(&self) -> bool {
        valid_date(self.year as int, self.month as int, self.day as int)
    }

    /// The date with these fields, if they name a real calendar day.
    pub fn new(year: i32, month: u32, day: u32) -> (r: Option<Date>)
        ensures
            r is Some <==> valid_date(year as int, month as int, day as int),
            r matches Some(d) ==> d.year == year && d.month == month && d.day == day,
    {
        if year < MIN_YEAR || year > MAX_YEAR || month < 1 || month > 12 || day < 1 {
            return None;
        }
        let leap = (year % 4 == 0 && year % 100 != 0) || year % 400 == 0;
        let last: u32 = if month == 2 {
            if leap { 29 } else { 28 }
        } else if month == 4 || month == 6 || month == 9 || month == 11 {
            30
        } else {
            31
        };
        if day > last {
            None
        } else {
            Some(Date { year, month, day })
        }
    }
}

/// The decimal digit for `n`, from 0 to 9.
pub open spec fn digit_char(n: int) -> char {
    if n == 0 { '0' }
    else if n == 1 { '1' }
    else if n == 2 { '2' }
    else if n == 3 { '3' }
    else if n == 4 { '4' }
    else if n == 5 { '5' }
    else if n == 6 { '6' }
    else if n == 7 { '7' }
    else if n == 8 { '8' }
    else { '9' }
}

/// Decimal digits of `n`, without leading zeros.
pub open spec fn decimal(n: nat) -> Seq<char>
    decreases n,
{
    if n < 10 {
        seq![digit_char(n as int)]
    } else {
        decimal(n / 10).push(digit_char((n % 10) as int))
    }
}

/// Decimal digits of `n`, padded with zeros to at least four.
pub open spec fn pad4(n: nat) -> Seq<char> {
    if n < 10 {
        seq!['0', '0', '0'] + decimal(n)
    } else if n < 100 {
        seq!['0', '0'] + decimal(n)
    } else if n < 1000 {
        seq!['0'] + decimal(n)
    } else {
        decimal(n)
    }
}

/// A year as dates are written: four digits for 0 to 9999, and a sign before
/// the (padded) digits of any other year.
pub open spec fn year_text(y: int) -> Seq<char> {
    if 0 <= y <= 9999 {
        pad4(y as nat)
    } else if y < 0 {
        seq!['-'] + pad4((-y) as nat)
    } else {
        seq!['+'] + pad4(y as nat)
    }
}

/// A number below one hundred as two digits.
pub open spec fn two_digits(n: int) -> Seq<char> {
    seq![digit_char(n / 10), digit_char(n % 10)]
}

/// `YYYY-MM-DD`.
pub open spec fn iso_text(d: Date) -> Seq<char> {
    year_text(d.year as int) + seq!['-'] + two_digits(d.month as int) + seq!['-'] + two_digits(
        d.day as int,
    )
}

fn digit_str(n: u32) -> (r: &'static str)
    requires
        n < 10,
    ensures
        r@ == seq![digit_char(n as int)],
{
    proof {
        reveal_strlit("0");
        reveal_strlit("1");
        reveal_strlit("2");
        reveal_strlit("3");
        reveal_strlit("4");
        reveal_strlit("5");
        reveal_strlit("6");
        reveal_strlit("7");
        reveal_strlit("8");
        reveal_strlit("9");
    }
    let r = if n == 0 { "0" }
    else if n == 1 { "1" }
    else if n == 2 { "2" }
    else if n == 3 { "3" }
    else if n == 4 { "4" }
    else if n == 5 { "5" }
    else if n == 6 { "6" }
    else if n == 7 { "7" }
    else if n == 8 { "8" }
    else { "9" };
    assert(r@ =~= seq![digit_char(n as int)]);
    r
}

fn push_decimal(s: &mut String, n: u32)
    ensures
        final(s)@ == old(s)@ + decimal(n as nat),
    decreases n,
{
    if n >= 10 {
        push_decimal(s, n / 10);
    }
    s.append(digit_str(n % 10));
    assert(s@ =~= old(s)@ + decimal(n as nat));
}

fn push_pad4(s: &mut String, n: u32)
    ensures
        final(s)@ == old(s)@ + pad4(n as nat),
{
    proof {
        reveal_strlit("000");
        reveal_strlit("00");
        reveal_strlit("0");
    }
    if n < 10 {
        s.append("000");
    } else if n < 100 {
        s.append("00");
    } else if n < 1000 {
        s.append("0");
    }
    push_decimal(s, n);
    assert(s@ =~= old(s)@ + pad4(n as nat));
}

/// Appends the year as `year_text` writes it.
pub fn push_year(s: &mut String, y: i32)
    requires
        MIN_YEAR <= y <= MAX_YEAR,
    ensures
        final(s)@ == old(s)@ + year_text(y as int),
{
    proof {
        reveal_strlit("-");
        reveal_strlit("+");
    }
    if 0 <= y && y <= 9999 {
        push_pad4(s, y as u32);
    } else if y < 0 {
        s.append("-");
        push_pad4(s, (-y) as u32);
    } else {
        s.append("+");
        push_pad4(s, y as u32);
    }
    assert(s@ =~= old(s)@ + year_text(y as int));
}

/// Appends a number below one hundred as two digits.
pub fn push_two_digits(s: &mut String, n: u32)
    requires
        n < 100,
    ensures
        final(s)@ == old(s)@ + two_digits(n as int),
{
    s.append(digit_str(n / 10));
    s.append(digit_str(n % 10));
    assert(s@ =~= old(s)@ + two_digits(n as int));
}

/// The date written as `YYYY-MM-DD`.
pub fn iso_date(d: &Date) -> (r: String)
    requires
        d.wf(),
    ensures
        r@ == iso_text(*d),
{
    proof {
        reveal_strlit("-");
    }
    let mut s = String::new();
    push_year(&mut s, d.year);
    s.append("-");
    push_two_digits(&mut s, d.month);
    s.append("-");
    push_two_digits(&mut s, d.day);
    assert(s@ =~= iso_text(*d));
    s
}

/// The weekday of a calendar day, counted from Monday as zero.
pub uninterp spec fn weekday_number(year: int, month: int, day: int) -> int;

/// Relies on chrono's `NaiveDate::from_ymd_opt`, which gives a date for every
/// valid day in its range, and `Datelike::weekday` with
/// `Weekday::num_days_from_monday`, which count Monday as 0 and Sunday as 6.
#[verifier::external_body]
pub(crate) fn weekday_of(d: &Date) -> (r: u8)
    requires
        d.wf(),
    ensures
        r < 7,
        r as int == weekday_number(d.year as int, d.month as int, d.day as int),
{
    let day = chrono::NaiveDate::from_ymd_opt(d.year, d.month, d.day).unwrap();
    day.weekday().num_days_from_monday() as u8
}

/// English name of the weekday, counted from Monday as zero.
pub open spec fn weekday_name(w: int) -> Seq<char> {
    if w == 0 { "Monday"@ }
    else if w == 1 { "Tuesday"@ }
    else if w == 2 { "Wednesday"@ }
    else if w == 3 { "Thursday"@ }
    else if w == 4 { "Friday"@ }
    else if w == 5 { "Saturday"@ }
    else { "Sunday"@ }
}

/// Three-letter English abbreviation of month `m` (1 to 12).
pub open spec fn month_abbrev(m: int) -> Seq<char> {
    if m == 1 { "Jan"@ }
    else if m == 2 { "Feb"@ }
    else if m == 3 { "Mar"@ }
    else if m == 4 { "Apr"@ }
    else if m == 5 { "May"@ }
    else if m == 6 { "Jun"@ }
    else if m == 7 { "Jul"@ }
    else if m == 8 { "Aug"@ }
    else if m == 9 { "Sep"@ }
    else if m == 10 { "Oct"@ }
    else if m == 11 { "Nov"@ }
    else { "Dec"@ }
}

/// The long form of a day, `Monday 04 Mar 2024`, given its weekday.
pub open spec fn long_text(d: Date, weekday: int) -> Seq<char> {
    weekday_name(weekday) + " "@ + two_digits(d.day as int) + " "@ + month_abbrev(d.month as int)
        + " "@ + year_text(d.year as int)
}

fn weekday_str(w: u8) -> (r: &'static str)
    ensures
        r@ == weekday_name(w as int),
{
    if w == 0 { "Monday" }
    else if w == 1 { "Tuesday" }
    else if w == 2 { "Wednesday" }
    else if w == 3 { "Thursday" }
    else if w == 4 { "Friday" }
    else if w == 5 { "Saturday" }
    else { "Sunday" }
}

fn month_str(m: u32) -> (r: &'static str)
    ensures
        r@ == month_abbrev(m as int),
{
    if m == 1 { "Jan" }
    else if m == 2 { "Feb" }
    else if m == 3 { "Mar" }
    else if m == 4 { "Apr" }
    else if m == 5 { "May" }
    else if m == 6 { "Jun" }
    else if m == 7 { "Jul" }
    else if m == 8 { "Aug" }
    else if m == 9 { "Sep" }
    else if m == 10 { "Oct" }
    else if m == 11 { "Nov" }
    else { "Dec" }
}

/// The long form of the date, given the weekday it falls on (Monday is 0).
pub fn long_date_with_weekday(d: &Date, weekday: u8) -> (r: String)
    requires
        d.wf(),
    ensures
        r@ == long_text(*d, weekday as int),
{
    let mut s = String::new();
    s.append(weekday_str(weekday));
    s.append(" ");
    push_two_digits(&mut s, d.day);
    s.append(" ");
    s.append(month_str(d.month));
    s.append(" ");
    push_year(&mut s, d.year);
    assert(s@ =~= long_text(*d, weekday as int));
    s
}

/// The long form of the date, with the weekday it falls on.
pub fn long_date(d: &Date) -> (r: String)
    requires
        d.wf(),
    ensures
        r@ == long_text(*d, weekday_number(d.year as int, d.month as int, d.day as int)),
{
    let w = weekday_of(d);
    long_date_with_weekday(d, w)
}

} // verus!
