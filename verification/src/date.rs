//! From the clock to the date that the circuit commits to.
//!
//! A Unix timestamp is projected on its UTC calendar date and written as eight digits,
//! `YYYYMMDD`. Only the years 0000 to 9999 can be written so: outside them there is no
//! date text, and a statement about "today" cannot be checked.
//!
//! The calendar conversion is `chrono`'s. The model below is the proleptic Gregorian
//! calendar, counted in days from 1970-01-01.

use vstd::prelude::*;
use chrono::Datelike;
use crate::decimal::is_digit;

verus! {

/// A day of the proleptic Gregorian calendar.
#[derive(Clone, Copy)]
struct CivilDate {
    year: i32,
    month: u32,
    day: u32,
}

/// The first second of the year 0000.
pub open spec fn min_timestamp() -> int {
    -62167219200
}

/// The last second of the year 9999.
pub open spec fn max_timestamp() -> int {
    253402300799
}

/// The timestamps whose date has a year of four digits.
pub open spec fn in_four_digit_years(t: int) -> bool {
    min_timestamp() <= t <= max_timestamp()
}

pub open spec fn is_leap_year(y: int) -> bool {
    y % 4 == 0 && (y % 100 != 0 || y % 400 == 0)
}

pub open spec fn days_in_month(y: int, m: int) -> int {
    if m == 2 {
        if is_leap_year(y) {
            29
        } else {
            28
        }
    } else if m == 4 || m == 6 || m == 9 || m == 11 {
        30
    } else {
        31
    }
}

/// `m` is a month and `d` a day of it, in the year `y`.
pub open spec fn is_calendar_date(y: int, m: int, d: int) -> bool {
    1 <= m <= 12 && 1 <= d <= days_in_month(y, m)
}

/// The days from the first day of the year 0 to the first day of the year `y`.
pub open spec fn days_before_year(y: int) -> int {
    365 * y + (y + 3) / 4 - (y + 99) / 100 + (y + 399) / 400
}

/// The days from the first day of the year `y` to the first day of its month `m`.
pub open spec fn days_before_month(y: int, m: int) -> int {
    let leap: int = if m > 2 && is_leap_year(y) {
        1
    } else {
        0
    };
    leap + if m <= 1 {
        0int
    } else if m == 2 {
        31
    } else if m == 3 {
        59
    } else if m == 4 {
        90
    } else if m == 5 {
        120
    } else if m == 6 {
        151
    } else if m == 7 {
        181
    } else if m == 8 {
        212
    } else if m == 9 {
        243
    } else if m == 10 {
        273
    } else if m == 11 {
        304
    } else {
        334
    }
}

/// The days from 1970-01-01 to the given date; negative before it.
pub open spec fn epoch_day(y: int, m: int, d: int) -> int {
    days_before_year(y) + days_before_month(y, m) + (d - 1) - 719528
}

/// The date that lies `n` days after 1970-01-01, as year, month and day.
pub open spec fn civil_of_epoch_day(n: int) -> (int, int, int) {
    choose|c: (int, int, int)| is_calendar_date(c.0, c.1, c.2) && epoch_day(c.0, c.1, c.2) == n
}

/// The character of a digit.
pub open spec fn digit_char(n: int) -> char {
    if n == 0 {
        '0'
    } else if n == 1 {
        '1'
    } else if n == 2 {
        '2'
    } else if n == 3 {
        '3'
    } else if n == 4 {
        '4'
    } else if n == 5 {
        '5'
    } else if n == 6 {
        '6'
    } else if n == 7 {
        '7'
    } else if n == 8 {
        '8'
    } else {
        '9'
    }
}

/// `YYYYMMDD`: the year in four digits, the month and the day in two, zero-padded.
pub open spec fn ymd_digits(y: int, m: int, d: int) -> Seq<char> {
    seq![
        digit_char(y / 1000),
        digit_char(y / 100 % 10),
        digit_char(y / 10 % 10),
        digit_char(y % 10),
        digit_char(m / 10),
        digit_char(m % 10),
        digit_char(d / 10),
        digit_char(d % 10),
    ]
}

/// The date text of the timestamp `t`, where its year has four digits.
pub open spec fn date_text(t: int) -> Option<Seq<char>> {
    if in_four_digit_years(t) {
        let c = civil_of_epoch_day(t / 86400);
        Some(ymd_digits(c.0, c.1, c.2))
    } else {
        None
    }
}

/// A year is 365 days long, and a leap year 366.
pub proof fn lemma_year_length(y: int)
    ensures
        days_before_year(y + 1) == days_before_year(y) + 365 + if is_leap_year(y) {
            1int
        } else {
            0
        },
{
}

/// Later years begin later, by at least 365 days a year.
pub proof fn lemma_years_ordered(y1: int, y2: int)
    requires
        y1 <= y2,
    ensures
        days_before_year(y1) + 365 * (y2 - y1) <= days_before_year(y2),
    decreases y2 - y1,
{
    if y1 < y2 {
        lemma_years_ordered(y1, y2 - 1);
        lemma_year_length(y2 - 1);
    }
}

/// The day count follows the order of the calendar: of two dates the later one, by
/// year, then month, then day, has the greater count.
pub proof fn lemma_epoch_day_ordered(y1: int, m1: int, d1: int, y2: int, m2: int, d2: int)
    requires
        is_calendar_date(y1, m1, d1),
        is_calendar_date(y2, m2, d2),
        y1 < y2 || (y1 == y2 && (m1 < m2 || (m1 == m2 && d1 < d2))),
    ensures
        epoch_day(y1, m1, d1) < epoch_day(y2, m2, d2),
{
    if y1 < y2 {
        lemma_year_length(y1);
        lemma_years_ordered(y1 + 1, y2);
    }
}

/// No two dates have the same day count.
pub proof fn lemma_epoch_day_injective(y1: int, m1: int, d1: int, y2: int, m2: int, d2: int)
    requires
        is_calendar_date(y1, m1, d1),
        is_calendar_date(y2, m2, d2),
        epoch_day(y1, m1, d1) == epoch_day(y2, m2, d2),
    ensures
        y1 == y2 && m1 == m2 && d1 == d2,
{
    if y1 < y2 || (y1 == y2 && (m1 < m2 || (m1 == m2 && d1 < d2))) {
        lemma_epoch_day_ordered(y1, m1, d1, y2, m2, d2);
    } else if y2 < y1 || (y2 == y1 && (m2 < m1 || (m2 == m1 && d2 < d1))) {
        lemma_epoch_day_ordered(y2, m2, d2, y1, m1, d1);
    }
}

/// Every day count is the count of some date.
pub proof fn lemma_epoch_day_surjective(n: int) -> (c: (int, int, int))
    ensures
        is_calendar_date(c.0, c.1, c.2),
        epoch_day(c.0, c.1, c.2) == n,
    decreases
            if n >= 0 {
                n
            } else {
                -n
            },
{
    if n == 0 {
        (1970, 1, 1)
    } else if n > 0 {
        let (y, m, d) = lemma_epoch_day_surjective(n - 1);
        if d < days_in_month(y, m) {
            (y, m, d + 1)
        } else if m < 12 {
            (y, m + 1, 1)
        } else {
            lemma_year_length(y);
            (y + 1, 1, 1)
        }
    } else {
        let (y, m, d) = lemma_epoch_day_surjective(n + 1);
        if d > 1 {
            (y, m, d - 1)
        } else if m > 1 {
            (y, m - 1, days_in_month(y, m - 1))
        } else {
            lemma_year_length(y - 1);
            (y - 1, 12, 31)
        }
    }
}

/// The date of a day count is the one date that has it.
pub proof fn lemma_civil_of_epoch_day(y: int, m: int, d: int)
    requires
        is_calendar_date(y, m, d),
    ensures
        civil_of_epoch_day(epoch_day(y, m, d)) == (y, m, d),
{
    let c = civil_of_epoch_day(epoch_day(y, m, d));
    assert(is_calendar_date(c.0, c.1, c.2) && epoch_day(c.0, c.1, c.2) == epoch_day(y, m, d)) by {
        let w = (y, m, d);
        assert(is_calendar_date(w.0, w.1, w.2) && epoch_day(w.0, w.1, w.2) == epoch_day(y, m, d));
    }
    lemma_epoch_day_injective(c.0, c.1, c.2, y, m, d);
}

/// The date of a day count is a date, and has that count.
pub proof fn lemma_civil_of_epoch_day_is_date(n: int)
    ensures
        is_calendar_date(
            civil_of_epoch_day(n).0,
            civil_of_epoch_day(n).1,
            civil_of_epoch_day(n).2,
        ),
        epoch_day(civil_of_epoch_day(n).0, civil_of_epoch_day(n).1, civil_of_epoch_day(n).2)
            == n,
{
    let w = lemma_epoch_day_surjective(n);
    assert(is_calendar_date(w.0, w.1, w.2) && epoch_day(w.0, w.1, w.2) == n);
}

/// A date falls in the years 0000 to 9999 exactly if its seconds fall between the
/// first second of the one and the last second of the other.
pub proof fn lemma_four_digit_years(t: int, y: int, m: int, d: int)
    requires
        is_calendar_date(y, m, d),
        epoch_day(y, m, d) == t / 86400,
    ensures
        in_four_digit_years(t) <==> 0 <= y <= 9999,
{
    assert(epoch_day(0, 1, 1) == -719528);
    assert(epoch_day(9999, 12, 31) == 2932896);
    if y < 0 {
        lemma_epoch_day_ordered(y, m, d, 0, 1, 1);
    } else if y > 0 || m > 1 || d > 1 {
        lemma_epoch_day_ordered(0, 1, 1, y, m, d);
    }
    if y > 9999 {
        lemma_epoch_day_ordered(9999, 12, 31, y, m, d);
    } else if y < 9999 || m < 12 || d < 31 {
        lemma_epoch_day_ordered(y, m, d, 9999, 12, 31);
    }
}

/// The date text, where there is one, is eight decimal digits.
pub proof fn lemma_date_text_is_eight_digits(t: int)
    ensures
        date_text(t) matches Some(s) ==> s.len() == 8 && forall|i: int|
            0 <= i < 8 ==> is_digit(#[trigger] s[i]),
{
    if in_four_digit_years(t) {
        let c = civil_of_epoch_day(t / 86400);
        lemma_civil_of_epoch_day_is_date(t / 86400);
        lemma_four_digit_years(t, c.0, c.1, c.2);
        lemma_ymd_digits_are_digits(c.0, c.1, c.2);
    }
}

/// From the year 1000 on the date text is a canonical numeral; before it, it begins
/// with a zero and is none.
pub proof fn lemma_date_text_is_decimal(t: int)
    requires
        in_four_digit_years(t),
    ensures
        crate::decimal::is_decimal(date_text(t)->0) <==> t >= -30610224000,
{
    let c = civil_of_epoch_day(t / 86400);
    lemma_civil_of_epoch_day_is_date(t / 86400);
    lemma_four_digit_years(t, c.0, c.1, c.2);
    lemma_ymd_digits_are_digits(c.0, c.1, c.2);
    assert(epoch_day(1000, 1, 1) == -354285);
    if c.0 < 1000 {
        lemma_epoch_day_ordered(c.0, c.1, c.2, 1000, 1, 1);
    } else if c.0 > 1000 || c.1 > 1 || c.2 > 1 {
        lemma_epoch_day_ordered(1000, 1, 1, c.0, c.1, c.2);
    }
    let s = ymd_digits(c.0, c.1, c.2);
    assert(s[0] == digit_char(c.0 / 1000));
}

/// Written with a year of four digits, a date is eight decimal digits.
pub proof fn lemma_ymd_digits_are_digits(y: int, m: int, d: int)
    requires
        0 <= y <= 9999,
        is_calendar_date(y, m, d),
    ensures
        ymd_digits(y, m, d).len() == 8,
        forall|i: int| 0 <= i < 8 ==> is_digit(#[trigger] ymd_digits(y, m, d)[i]),
{
    let s = ymd_digits(y, m, d);
    assert(is_digit(s[0]) && is_digit(s[1]) && is_digit(s[2]) && is_digit(s[3]));
    assert(is_digit(s[4]) && is_digit(s[5]) && is_digit(s[6]) && is_digit(s[7]));
}

/// `DateTime::from_timestamp` of chrono, with no nanoseconds, and `Datelike::year`,
/// `month` and `day` of what it returns. Believed, not proved: the call is answered
/// for every second of the years 0000 to 9999 at least, and an answer is the calendar
/// date of the day that the second falls on.
#[verifier::external_body]
fn utc_civil_date(unix_seconds: i64) -> (r: Option<CivilDate>)
    ensures
        in_four_digit_years(unix_seconds as int) ==> r is Some,
        r matches Some(c) ==> is_calendar_date(c.year as int, c.month as int, c.day as int)
            && epoch_day(c.year as int, c.month as int, c.day as int) == unix_seconds as int
            / 86400,
{
    match chrono::DateTime::from_timestamp(unix_seconds, 0) {
        Some(t) => Some(CivilDate { year: t.year(), month: t.month(), day: t.day() }),
        None => None,
    }
}

/// A digit as text.
fn digit_str(n: u32) -> (s: &'static str)
    requires
        n < 10,
    ensures
        s@ == seq![digit_char(n as int)],
{
    proof {
        reveal_strlit("0");
        reveal_strlit("1");
        reveal_strlit("2");
        reveal_strlit("3");
        reveal_strlit("4");
        reveal_strlit("5");
        reveal_strlit("6");
        reveal_strlit("7");
        reveal_strlit("8");
        reveal_strlit("9");
    }
    let s = if n == 0 {
        "0"
    } else if n == 1 {
        "1"
    } else if n == 2 {
        "2"
    } else if n == 3 {
        "3"
    } else if n == 4 {
        "4"
    } else if n == 5 {
        "5"
    } else if n == 6 {
        "6"
    } else if n == 7 {
        "7"
    } else if n == 8 {
        "8"
    } else {
        "9"
    };
    assert(s@ =~= seq![digit_char(n as int)]);
    s
}

/// A date of the years 0000 to 9999 as `YYYYMMDD`.
fn ymd_string(c: &CivilDate) -> (s: String)
    requires
        0 <= c.year <= 9999,
        c.month <= 99,
        c.day <= 99,
    ensures
        s@ == ymd_digits(c.year as int, c.month as int, c.day as int),
{
    let y: u32 = c.year as u32;
    let mut s = String::new();
    s.append(digit_str(y / 1000));
    s.append(digit_str(y / 100 % 10));
    s.append(digit_str(y / 10 % 10));
    s.append(digit_str(y % 10));
    s.append(digit_str(c.month / 10));
    s.append(digit_str(c.month % 10));
    s.append(digit_str(c.day / 10));
    s.append(digit_str(c.day % 10));
    assert(s@ =~= ymd_digits(c.year as int, c.month as int, c.day as int));
    s
}

/// The UTC date of a timestamp, in seconds since 1970-01-01, as `YYYYMMDD`.
///
/// `None` for a timestamp before the year 0000 or after the year 9999.
pub fn project(unix_seconds: i64) -> (r: Option<String>)
    ensures
        r matches Some(s) ==> date_text(unix_seconds as int) == Some(s@),
        r is None ==> date_text(unix_seconds as int) is None,
{
    match utc_civil_date(unix_seconds) {
        None => None,
        Some(c) => {
            proof {
                lemma_four_digit_years(
                    unix_seconds as int,
                    c.year as int,
                    c.month as int,
                    c.day as int,
                );
                lemma_civil_of_epoch_day(c.year as int, c.month as int, c.day as int);
            }
            if 0 <= c.year && c.year <= 9999 {
                Some(ymd_string(&c))
            } else {
                None
            }
        },
    }
}

} // verus!
