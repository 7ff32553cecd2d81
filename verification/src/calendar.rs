//! Calendar days and their text forms.
//!
//! A day is held as its number in the proleptic Gregorian calendar, with
//! January 1 of year 1 as day 1 (chrono's `num_days_from_ce`).  Ordering and
//! distances between days are then plain integer ordering and subtraction.
//! Reading the clock, naming weekdays and years, adding days and the
//! conversions between days and text are done by chrono.

use chrono::{Datelike, Days, Local, NaiveDate};
use vstd::prelude::*;

verus! {

/// The first day that chrono can represent (January 1 of year -262143).
pub const MIN_DAY: i32 = -95746129;

/// The last day that chrono can represent (December 31 of year 262142).
pub const MAX_DAY: i32 = 95745399;

/// `d` is the number of a day that chrono can represent.
pub open spec fn is_calendar_day(d: int) -> bool {
    MIN_DAY <= d <= MAX_DAY
}

/// The weekday of day `d`, Monday being 1 and Sunday 7.  Day 1 (January 1
/// of year 1 in the proleptic Gregorian calendar) is a Monday.
pub open spec fn spec_weekday(d: int) -> int {
    (d - 1) % 7 + 1
}

/// What std's `str::to_lowercase` gives for a string.
pub uninterp spec fn spec_to_lowercase(s: Seq<char>) -> Seq<char>;

/// What `NaiveDate::parse_from_str` gives for a text and a format, as a day
/// number.
pub uninterp spec fn spec_parse_date(text: Seq<char>, fmt: Seq<char>) -> Option<i32>;

/// What `NaiveDate::format(..).to_string()` gives for a day and a format.
pub uninterp spec fn spec_format_date(d: int, fmt: Seq<char>) -> Seq<char>;

/// The number of days before January 1 of year `y` (day 1 being January 1
/// of year 1): 365 a year, plus one for each leap year, a year divisible by
/// 4 but not by 100 unless by 400.
pub open spec fn days_before_year(y: int) -> int {
    365 * (y - 1) + (y - 1) / 4 - (y - 1) / 100 + (y - 1) / 400
}

/// The calendar year of day `d`: the year whose days hold it.
pub open spec fn spec_year_of(d: int) -> int {
    choose|y: int| #[trigger] days_before_year(y) < d <= days_before_year(y + 1)
}

/// Later years begin later.
pub proof fn lemma_days_before_year_increases(a: int, b: int)
    requires
        a < b,
    ensures
        days_before_year(a) < days_before_year(b),
{
    let x = a - 1;
    let z = b - 1;
    assert(4 * (x / 4) <= x < 4 * (x / 4) + 4);
    assert(4 * (z / 4) <= z < 4 * (z / 4) + 4);
    assert(100 * (x / 100) <= x < 100 * (x / 100) + 100);
    assert(100 * (z / 100) <= z < 100 * (z / 100) + 100);
    assert(400 * (x / 400) <= x < 400 * (x / 400) + 400);
    assert(400 * (z / 400) <= z < 400 * (z / 400) + 400);
}

/// A day lies in one year only, the one `spec_year_of` names.
pub proof fn lemma_year_of(d: int, y: int)
    requires
        days_before_year(y) < d <= days_before_year(y + 1),
    ensures
        spec_year_of(d) == y,
{
    let c = spec_year_of(d);
    assert(days_before_year(c) < d <= days_before_year(c + 1));
    if c < y {
        if c + 1 < y {
            lemma_days_before_year_increases(c + 1, y);
        }
    } else if c > y {
        if y + 1 < c {
            lemma_days_before_year_increases(y + 1, c);
        }
    }
}

/// The strftime formats that this crate formats days with: the storage
/// format and the eleven display formats of the configuration.
pub open spec fn is_known_format(f: Seq<char>) -> bool {
    ||| f == "%Y-%m-%d"@
    ||| f == "%m-%d-%Y"@
    ||| f == "%y-%m-%d"@
    ||| f == "%m-%d-%y"@
    ||| f == "%B %d, %Y"@
    ||| f == "%B %d, %y"@
    ||| f == "%b %d, %Y"@
    ||| f == "%b %d, %y"@
    ||| f == "%m-%d"@
    ||| f == "%B %d"@
    ||| f == "%b %d"@
}

/// Today in the local time zone, read from the system clock through
/// chrono's `Local::now().date_naive()` and `num_days_from_ce`.  Nothing is
/// promised of the value but that it is a day chrono can represent, as
/// every `NaiveDate` is.
#[verifier::external_body]
pub fn local_today() -> (d: i32)
    ensures
        is_calendar_day(d as int),
{
    Local::now().date_naive().num_days_from_ce()
}

/// The weekday of a day through chrono's `Datelike::weekday` and
/// `Weekday::number_from_monday`; chrono counts day 1 as Monday, January 1
/// of year 1.
#[verifier::external_body]
pub fn weekday_of(d: i32) -> (w: u8)
    requires
        is_calendar_day(d as int),
    ensures
        w as int == spec_weekday(d as int),
{
    NaiveDate::from_num_days_from_ce_opt(d).unwrap().weekday().number_from_monday() as u8
}

/// The year of a day through chrono's `Datelike::year`: the year of the
/// proleptic Gregorian calendar whose days hold it.
#[verifier::external_body]
pub fn year_of(d: i32) -> (y: i32)
    requires
        is_calendar_day(d as int),
    ensures
        days_before_year(y as int) < d <= days_before_year(y + 1),
{
    NaiveDate::from_num_days_from_ce_opt(d).unwrap().year()
}

/// `n` days after `d` through chrono's `NaiveDate::checked_add_days`, which
/// gives `None` exactly when the result leaves chrono's range.
#[verifier::external_body]
pub fn add_days(d: i32, n: u64) -> (r: Option<i32>)
    requires
        is_calendar_day(d as int),
    ensures
        r == (if is_calendar_day(d + n) { Some((d + n) as i32) } else { None::<i32> }),
{
    match NaiveDate::from_num_days_from_ce_opt(d).unwrap().checked_add_days(Days::new(n)) {
        Some(x) => Some(x.num_days_from_ce()),
        None => None,
    }
}

/// Reads a day from a text in a strftime format, through chrono's
/// `NaiveDate::parse_from_str`.  The result is named, and a day that comes
/// back is one chrono can represent.
#[verifier::external_body]
pub fn parse_date(text: &str, fmt: &str) -> (r: Option<i32>)
    ensures
        r matches Some(d) ==> is_calendar_day(d as int),
        r == spec_parse_date(text@, fmt@),
{
    match NaiveDate::parse_from_str(text, fmt) {
        Ok(x) => Some(x.num_days_from_ce()),
        Err(_) => None,
    }
}

/// Writes a day in a strftime format, through chrono's `NaiveDate::format`
/// and `to_string`.  The formats admitted are all valid, so the formatting
/// does not fail.
#[verifier::external_body]
pub fn format_date(d: i32, fmt: &str) -> (s: String)
    requires
        is_calendar_day(d as int),
        is_known_format(fmt@),
    ensures
        s@ == spec_format_date(d as int, fmt@),
{
    NaiveDate::from_num_days_from_ce_opt(d).unwrap().format(fmt).to_string()
}

/// A string in lower case, through std's `str::to_lowercase`.
#[verifier::external_body]
pub fn lowercase(s: &str) -> (r: String)
    ensures
        r@ == spec_to_lowercase(s@),
{
    s.to_lowercase()
}

/// The decimal digit `d` as a character.
pub open spec fn digit_char(d: int) -> char {
    if d == 0 {
        '0'
    } else if d == 1 {
        '1'
    } else if d == 2 {
        '2'
    } else if d == 3 {
        '3'
    } else if d == 4 {
        '4'
    } else if d == 5 {
        '5'
    } else if d == 6 {
        '6'
    } else if d == 7 {
        '7'
    } else if d == 8 {
        '8'
    } else {
        '9'
    }
}

/// The decimal digits of a natural number, most significant first.
pub open spec fn spec_digits(n: nat) -> Seq<char>
    decreases n,
{
    if n < 10 {
        seq![digit_char(n as int)]
    } else {
        spec_digits(n / 10).push(digit_char((n % 10) as int))
    }
}

/// The decimal form of an integer, as Rust's `Display` writes it.
pub open spec fn spec_decimal(n: int) -> Seq<char> {
    if n < 0 {
        seq!['-'] + spec_digits((-n) as nat)
    } else {
        spec_digits(n as nat)
    }
}

fn digit_string(d: u64) -> (s: String)
    requires
        d < 10,
    ensures
        s@ == seq![digit_char(d as int)],
{
    if d == 0 {
        proof {
            reveal_strlit("0");
        }
        String::from_str("0")
    } else if d == 1 {
        proof {
            reveal_strlit("1");
        }
        String::from_str("1")
    } else if d == 2 {
        proof {
            reveal_strlit("2");
        }
        String::from_str("2")
    } else if d == 3 {
        proof {
            reveal_strlit("3");
        }
        String::from_str("3")
    } else if d == 4 {
        proof {
            reveal_strlit("4");
        }
        String::from_str("4")
    } else if d == 5 {
        proof {
            reveal_strlit("5");
        }
        String::from_str("5")
    } else if d == 6 {
        proof {
            reveal_strlit("6");
        }
        String::from_str("6")
    } else if d == 7 {
        proof {
            reveal_strlit("7");
        }
        String::from_str("7")
    } else if d == 8 {
        proof {
            reveal_strlit("8");
        }
        String::from_str("8")
    } else {
        proof {
            reveal_strlit("9");
        }
        String::from_str("9")
    }
}

fn digits_string(n: u64) -> (s: String)
    ensures
        s@ == spec_digits(n as nat),
    decreases n,
{
    if n < 10 {
        digit_string(n)
    } else {
        let mut s = digits_string(n / 10);
        let last = digit_string(n % 10);
        s.append(last.as_str());
        s
    }
}

/// The decimal form of an `i32`, as `to_string` writes it.
pub fn decimal(n: i32) -> (s: String)
    ensures
        s@ == spec_decimal(n as int),
{
    if n < 0 {
        let wide: i64 = n as i64;
        let magnitude: u64 = (0 - wide) as u64;
        proof {
            reveal_strlit("-");
        }
        let mut s = String::from_str("-");
        let digits = digits_string(magnitude);
        s.append(digits.as_str());
        s
    } else {
        digits_string(n as u64)
    }
}

} // verus!
