//! Calendar dates for the date picker: validity, month arithmetic, the
//! month grid and the text of a date.
//!
//! Dates are proleptic Gregorian, as chrono's `NaiveDate` holds them; the
//! calls into chrono stand behind the trusted functions of this module.
use vstd::prelude::*;
use crate::numfmt::{decimal, decimal_string};
use chrono::{Datelike, NaiveDate};

verus! {

/// The earliest year a `NaiveDate` can hold.
pub const MIN_YEAR: i32 = -262143;

/// The latest year a `NaiveDate` can hold.
pub const MAX_YEAR: i32 = 262142;

/// Leap years of the proleptic Gregorian calendar.
pub open spec fn is_leap_year(y: int) -> bool {
    y % 4 == 0 && (y % 100 != 0 || y % 400 == 0)
}

/// Number of days of month `m` (1-based) of year `y`.
pub open spec fn month_len(y: int, m: int) -> int {
    if m == 2 {
        if is_leap_year(y) { 29 } else { 28 }
    } else if m == 4 || m == 6 || m == 9 || m == 11 {
        30
    } else {
        31
    }
}

/// A day that exists, in the range of years a `NaiveDate` holds.
pub open spec fn valid_date(y: i32, m: u32, d: u32) -> bool {
    &&& MIN_YEAR <= y <= MAX_YEAR
    &&& 1 <= m <= 12
    &&& 1 <= d <= month_len(y as int, m as int)
}

/// A calendar date.
#[derive(Debug, Clone, Copy, PartialEq, Eq, Structural)]
pub struct CalendarDate {
    /// The year (negative before 1 BCE + 1).
    pub year: i32,
    /// The month, 1 to 12.
    pub month: u32,
    /// The day of the month, from 1.
    pub day: u32,
}

impl CalendarDate {
    /// The date exists.
    pub open spec fn wf(&self) -> bool {
        valid_date(self.year, self.month, self.day)
    }
}

/// The day before `d`, or `None` before the first day a `NaiveDate` holds.
pub open spec fn day_before(d: CalendarDate) -> Option<CalendarDate> {
    if d.day > 1 {
        Some(CalendarDate { year: d.year, month: d.month, day: (d.day - 1) as u32 })
    } else if d.month > 1 {
        Some(CalendarDate { year: d.year, month: (d.month - 1) as u32, day: month_len(d.year as int, d.month - 1) as u32 })
    } else if d.year > MIN_YEAR {
        Some(CalendarDate { year: (d.year - 1) as i32, month: 12, day: 31 })
    } else {
        None
    }
}

/// Days of the months of year `y` before month `m`.
pub open spec fn days_before_month(y: int, m: int) -> int
    decreases m,
{
    if m <= 1 { 0 } else { days_before_month(y, m - 1) + month_len(y, m - 1) }
}

/// Days of the years before year `y`, counted from the first day of year 1
/// (negative for years before it).
pub open spec fn days_before_year(y: int) -> int {
    365 * (y - 1) + (y - 1) / 4 - (y - 1) / 100 + (y - 1) / 400
}

/// The weekday of a date, counted from Monday = 0: the proleptic
/// Gregorian calendar starts year 1 on a Monday.
pub open spec fn weekday_from_monday(year: i32, month: u32, day: u32) -> u32 {
    ((days_before_year(year as int) + days_before_month(year as int, month as int) + day - 1) % 7) as u32
}

/// Weekdays follow each other: the day after a date within the same month
/// falls on the next weekday (Sunday is followed by Monday), and the first
/// of a month follows the last day of the month before.
pub proof fn law_weekdays_follow_each_other(year: i32, month: u32, day: u32)
    requires
        1 <= month <= 12,
        1 <= day,
    ensures
        day < month_len(year as int, month as int) ==> weekday_from_monday(year, month, (day + 1) as u32)
            == (weekday_from_monday(year, month, day) + 1) % 7,
        month < 12 && day == month_len(year as int, month as int) ==> weekday_from_monday(year, (month + 1) as u32, 1)
            == (weekday_from_monday(year, month, day) + 1) % 7,
        weekday_from_monday(year, month, day) < 7,
        year < i32::MAX && month == 12 && day == 31 ==> weekday_from_monday((year + 1) as i32, 1, 1)
            == (weekday_from_monday(year, 12, 31) + 1) % 7,
{
    if year < i32::MAX && month == 12 && day == 31 {
        reveal_with_fuel(days_before_month, 13);
        let y = year as int;
        assert(y / 4 - (y - 1) / 4 == (if y % 4 == 0 { 1int } else { 0 }));
        assert(y / 100 - (y - 1) / 100 == (if y % 100 == 0 { 1int } else { 0 }));
        assert(y / 400 - (y - 1) / 400 == (if y % 400 == 0 { 1int } else { 0 }));
        assert(days_before_year(y + 1) == days_before_year(y) + 365 + (if is_leap_year(y) { 1int } else { 0 }));
    }
}

/// `n` in decimal, padded with zeros on the left to `width` digits.
pub open spec fn zero_padded(n: nat, width: nat) -> Seq<char> {
    if decimal(n).len() < width {
        Seq::new((width - decimal(n).len()) as nat, |i: int| '0') + decimal(n)
    } else {
        decimal(n)
    }
}

/// Zero padding only adds zeros in front: the padded text ends with the
/// number's digits, is exactly `width` long when the number has fewer
/// digits, and everything before the digits is `0`.
pub proof fn law_zero_padding_adds_leading_zeros(n: nat, width: nat)
    ensures
        ({
            let p = zero_padded(n, width);
            let d = decimal(n);
            &&& p.len() == (if d.len() < width { width as int } else { d.len() as int })
            &&& p.skip(p.len() - d.len()) == d
            &&& forall|i: int| 0 <= i < p.len() - d.len() ==> p[i] == '0'
        }),
{
    let p = zero_padded(n, width);
    let d = decimal(n);
    assert(p.skip(p.len() - d.len()) =~= d);
}

/// A year is written with a sign exactly when it lies outside 0 to 9999:
/// `-` before years below 0, `+` after 9999, and the digits of its
/// magnitude (at least four) follow.
pub proof fn law_year_sign(y: int)
    ensures
        ({
            let t = year_text(y);
            &&& y < 0 ==> t[0] == '-' && t.skip(1) == zero_padded((-y) as nat, 4)
            &&& y > 9999 ==> t[0] == '+' && t.skip(1) == zero_padded(y as nat, 4)
            &&& 0 <= y <= 9999 ==> t == zero_padded(y as nat, 4)
        }),
{
    let t = year_text(y);
    if y < 0 {
        assert(t.skip(1) =~= zero_padded((-y) as nat, 4));
    } else if y > 9999 {
        assert(t.skip(1) =~= zero_padded(y as nat, 4));
    }
}

/// A year as `%Y` writes it: four digits for years 0 to 9999, else a sign
/// followed by at least four digits.
pub open spec fn year_text(y: int) -> Seq<char> {
    if 0 <= y <= 9999 {
        zero_padded(y as nat, 4)
    } else if y < 0 {
        seq!['-'] + zero_padded((-y) as nat, 4)
    } else {
        seq!['+'] + zero_padded(y as nat, 4)
    }
}

/// A date as `%Y-%m-%d` writes it.
pub open spec fn date_text(d: CalendarDate) -> Seq<char> {
    year_text(d.year as int) + seq!['-'] + zero_padded(d.month as nat, 2) + seq!['-'] + zero_padded(d.day as nat, 2)
}

/// `NaiveDate::from_ymd_opt` of chrono, read back through `Datelike`: its
/// documentation and source give `None` exactly when the day does not
/// exist, the month or day is out of range, or the year lies outside
/// `MIN_YEAR..=MAX_YEAR`, and otherwise the date itself.
#[verifier::external_body]
fn chrono_from_ymd(year: i32, month: u32, day: u32) -> (r: Option<CalendarDate>)
    ensures
        r is Some <==> valid_date(year, month, day),
        r matches Some(d) ==> d == (CalendarDate { year, month, day }),
{
    match NaiveDate::from_ymd_opt(year, month, day) {
        Some(d) => Some(CalendarDate { year: d.year(), month: d.month(), day: d.day() }),
        None => None,
    }
}

/// `NaiveDate::pred_opt` of chrono: the previous day, or `None` at the
/// first day it holds.
#[verifier::external_body]
fn chrono_pred(date: CalendarDate) -> (r: Option<CalendarDate>)
    requires
        date.wf(),
    ensures
        r == day_before(date),
{
    match NaiveDate::from_ymd_opt(date.year, date.month, date.day).unwrap().pred_opt() {
        Some(d) => Some(CalendarDate { year: d.year(), month: d.month(), day: d.day() }),
        None => None,
    }
}

/// `Datelike::with_day` of chrono: the same month at another day, `None`
/// when that day does not exist.
#[verifier::external_body]
fn chrono_with_day(date: CalendarDate, day: u32) -> (r: Option<CalendarDate>)
    requires
        date.wf(),
    ensures
        r is Some <==> valid_date(date.year, date.month, day),
        r matches Some(d) ==> d == (CalendarDate { year: date.year, month: date.month, day }),
{
    match NaiveDate::from_ymd_opt(date.year, date.month, date.day).unwrap().with_day(day) {
        Some(d) => Some(CalendarDate { year: d.year(), month: d.month(), day: d.day() }),
        None => None,
    }
}

/// `Weekday::num_days_from_monday` of the date's `Datelike::weekday` in
/// chrono: 0 for Monday up to 6 for Sunday.
#[verifier::external_body]
fn chrono_weekday(date: CalendarDate) -> (r: u32)
    requires
        date.wf(),
    ensures
        r == weekday_from_monday(date.year, date.month, date.day),
        r < 7,
{
    NaiveDate::from_ymd_opt(date.year, date.month, date.day).unwrap().weekday().num_days_from_monday()
}

/// The date formatted by chrono with `%Y-%m-%d`: the year by its `%Y`
/// rule (four zero-padded digits for 0 to 9999, else a sign and at least
/// four digits), then the month and day as two zero-padded digits, joined
/// by dashes.
#[verifier::external_body]
fn chrono_format_ymd(date: CalendarDate) -> (s: String)
    requires
        date.wf(),
    ensures
        s@ == date_text(date),
{
    NaiveDate::from_ymd_opt(date.year, date.month, date.day).unwrap().format("%Y-%m-%d").to_string()
}

/// Whether year, month and day name a date that exists.
pub fn is_valid_date(year: i32, month: u32, day: u32) -> (r: bool)
    ensures
        r == valid_date(year, month, day),
{
    chrono_from_ymd(year, month, day).is_some()
}

/// The first day of the month of `date`.
pub fn first_of_month(date: CalendarDate) -> (r: CalendarDate)
    requires
        date.wf(),
    ensures
        r == (CalendarDate { year: date.year, month: date.month, day: 1 }),
        r.wf(),
{
    match chrono_from_ymd(date.year, date.month, 1) {
        Some(d) => d,
        None => date,
    }
}

/// The first day of the month before `first`; `first` itself when that
/// month lies before the first year a date can hold.
pub fn prev_month(first: CalendarDate) -> (r: CalendarDate)
    requires
        first.wf(),
    ensures
        r == (if first.month == 1 {
            if first.year > MIN_YEAR { CalendarDate { year: (first.year - 1) as i32, month: 12, day: 1 } } else { first }
        } else {
            CalendarDate { year: first.year, month: (first.month - 1) as u32, day: 1 }
        }),
{
    if first.month == 1 {
        match chrono_from_ymd(first.year - 1, 12, 1) {
            Some(d) => d,
            None => first,
        }
    } else {
        match chrono_from_ymd(first.year, first.month - 1, 1) {
            Some(d) => d,
            None => first,
        }
    }
}

/// The first day of the month after `first`; `first` itself when that
/// month lies past the last year a date can hold.
pub fn next_month(first: CalendarDate) -> (r: CalendarDate)
    requires
        first.wf(),
    ensures
        r == (if first.month == 12 {
            if first.year < MAX_YEAR { CalendarDate { year: (first.year + 1) as i32, month: 1, day: 1 } } else { first }
        } else {
            CalendarDate { year: first.year, month: (first.month + 1) as u32, day: 1 }
        }),
{
    if first.month == 12 {
        match chrono_from_ymd(first.year + 1, 1, 1) {
            Some(d) => d,
            None => first,
        }
    } else {
        match chrono_from_ymd(first.year, first.month + 1, 1) {
            Some(d) => d,
            None => first,
        }
    }
}

/// The number of days of a month: the day before the first of the next
/// month; 28 when the next month lies outside the dates chrono holds.
pub open spec fn days_in_month_spec(year: i32, month: u32) -> u32 {
    let (ny, nm): (int, int) = if month == 12 { (year + 1, 1) } else { (year as int, month + 1) };
    if MIN_YEAR <= ny <= MAX_YEAR && 1 <= nm <= 12 && !(ny == MIN_YEAR && nm == 1) {
        if nm == 1 { 31 } else { month_len(ny, nm - 1) as u32 }
    } else {
        28
    }
}

/// Number of days of `month` in `year`.
pub fn days_in_month(year: i32, month: u32) -> (r: u32)
    requires
        month == 12 ==> year < i32::MAX,
        month < u32::MAX,
    ensures
        r == days_in_month_spec(year, month),
{
    let next = if month == 12 {
        chrono_from_ymd(year + 1, 1, 1)
    } else {
        chrono_from_ymd(year, month + 1, 1)
    };
    match next {
        Some(d) => match chrono_pred(d) {
            Some(p) => p.day,
            None => 28,
        },
        None => 28,
    }
}

/// The weekday of `date`, from Monday = 0 to Sunday = 6.
pub fn weekday_index(date: CalendarDate) -> (r: u32)
    requires
        date.wf(),
    ensures
        r == weekday_from_monday(date.year, date.month, date.day),
        r < 7,
{
    chrono_weekday(date)
}

/// The English name of month `month` (1-based), "?" for any other number.
pub fn month_name(month: u32) -> (r: &'static str)
    ensures
        month == 1 ==> r@ == "January"@,
        month == 2 ==> r@ == "February"@,
        month == 3 ==> r@ == "March"@,
        month == 4 ==> r@ == "April"@,
        month == 5 ==> r@ == "May"@,
        month == 6 ==> r@ == "June"@,
        month == 7 ==> r@ == "July"@,
        month == 8 ==> r@ == "August"@,
        month == 9 ==> r@ == "September"@,
        month == 10 ==> r@ == "October"@,
        month == 11 ==> r@ == "November"@,
        month == 12 ==> r@ == "December"@,
        !(1 <= month <= 12) ==> r@ == "?"@,
{
    match month {
        1 => "January",
        2 => "February",
        3 => "March",
        4 => "April",
        5 => "May",
        6 => "June",
        7 => "July",
        8 => "August",
        9 => "September",
        10 => "October",
        11 => "November",
        12 => "December",
        _ => "?",
    }
}

/// The text of `date` as `%Y-%m-%d`.
pub fn format_date(date: CalendarDate) -> (s: String)
    requires
        date.wf(),
    ensures
        s@ == date_text(date),
{
    chrono_format_ymd(date)
}

/// `date` moved to day `day` of its month, when that day exists.
pub fn date_with_day(date: CalendarDate, day: u32) -> (r: Option<CalendarDate>)
    requires
        date.wf(),
    ensures
        r is Some <==> valid_date(date.year, date.month, day),
        r matches Some(d) ==> d == (CalendarDate { year: date.year, month: date.month, day }),
{
    chrono_with_day(date, day)
}

/// Going a month back and then a month forward returns to the month where
/// it started, away from the first month a date can hold.
pub proof fn law_prev_then_next_month(first: CalendarDate)
    requires
        first.wf(),
        first.day == 1,
        !(first.year == MIN_YEAR && first.month == 1),
    ensures
        crate::date_picker::next_month_of(crate::date_picker::prev_month_of(first)) == first,
{
}

/// Going a month forward and then a month back returns to the month where
/// it started, away from the last month a date can hold.
pub proof fn law_next_then_prev_month(first: CalendarDate)
    requires
        first.wf(),
        first.day == 1,
        !(first.year == MAX_YEAR && first.month == 12),
    ensures
        crate::date_picker::prev_month_of(crate::date_picker::next_month_of(first)) == first,
{
}

/// The number of days the picker gives a month is the month's length,
/// except for the last month a date can hold.
pub proof fn law_days_in_month_is_month_length(year: i32, month: u32)
    requires
        MIN_YEAR <= year <= MAX_YEAR,
        1 <= month <= 12,
        !(year == MAX_YEAR && month == 12),
    ensures
        days_in_month_spec(year, month) == month_len(year as int, month as int),
{
}

} // verus!
