//! Days, clocks and the trading calendar. A day is its number in the proleptic Gregorian
//! calendar, with January 1 of the year 1 as day 1.

use vstd::prelude::*;

use crate::text::{at_most, digit_char, same, two_digits, write_two};

verus! {

/// The first and the last day that the calendar holds.
pub const MIN_DAY: i32 = -95_746_129;

pub const MAX_DAY: i32 = 95_745_399;

/// The last day whose year has four digits.
pub const LAST_PLAIN_DAY: i32 = 3_652_059;

/// The day of the Unix epoch.
pub const EPOCH_DAY: i64 = 719_163;

pub open spec fn in_calendar(day: int) -> bool {
    MIN_DAY <= day <= MAX_DAY
}

/// A day whose year is written with four digits and no sign.
pub open spec fn is_plain(day: int) -> bool {
    1 <= day <= LAST_PLAIN_DAY
}

/// The text that chrono gives a day in the form `%Y-%m-%d`.
pub uninterp spec fn day_text_of(day: int) -> Seq<char>;

/// The day that chrono reads in a text in the form `%Y-%m-%d`.
pub uninterp spec fn parsed_day(text: Seq<char>) -> Option<i32>;

/// The Gregorian calendar has one more day in every fourth year, but of the hundredth years in
/// every fourth alone.
pub open spec fn is_leap(year: int) -> bool {
    year % 4 == 0 && (year % 100 != 0 || year % 400 == 0)
}

pub open spec fn month_length(year: int, month: int) -> int {
    if month == 2 {
        if is_leap(year) {
            29
        } else {
            28
        }
    } else if month == 4 || month == 6 || month == 9 || month == 11 {
        30
    } else {
        31
    }
}

/// The days of a year before a month.
pub open spec fn days_before_month(year: int, month: int) -> int
    decreases month,
{
    if month <= 1 {
        0
    } else {
        days_before_month(year, month - 1) + month_length(year, month - 1)
    }
}

/// The number of a day of a year from 1 on.
pub open spec fn day_number(year: int, month: int, day: int) -> int {
    365 * (year - 1) + (year - 1) / 4 - (year - 1) / 100 + (year - 1) / 400 + days_before_month(
        year,
        month,
    ) + day
}

/// A date of a year that is written with four digits.
pub open spec fn is_date(year: int, month: int, day: int) -> bool {
    1 <= year <= 9999 && 1 <= month <= 12 && 1 <= day <= month_length(year, month)
}

/// A date as four digits, two and two.
pub open spec fn date_text(year: int, month: int, day: int) -> Seq<char> {
    two_digits(year / 100) + two_digits(year % 100) + "-"@ + two_digits(month) + "-"@ + two_digits(
        day,
    )
}

/// The text writes the date of a day.
pub open spec fn writes_day(text: Seq<char>, n: int) -> bool {
    exists|year: int, month: int, day: int|
        {
            &&& is_date(year, month, day)
            &&& n == day_number(year, month, day)
            &&& text == #[trigger] date_text(year, month, day)
        }
}

/// Calls `chrono::NaiveDate::from_num_days_from_ce_opt` and formats the date with `%Y-%m-%d`.
/// A year from 1 to 9999 is written with four digits, month and day with two: such a text writes
/// the date of the day in the Gregorian calendar, is ten characters long, reads back as the day,
/// and sorts against another such text as the days do.
#[verifier::external_body]
pub(crate) fn day_text(day: i32) -> (r: String)
    requires
        in_calendar(day as int),
    ensures
        r@ == day_text_of(day as int),
        is_plain(day as int) ==> writes_day(r@, day as int),
        is_plain(day as int) ==> r@.len() == 10,
        is_plain(day as int) ==> parsed_day(r@) == Some(day),
        is_plain(day as int) ==> forall|other: int|
            is_plain(other) ==> (at_most(r@, #[trigger] day_text_of(other)) <==> day <= other),
{
    chrono::NaiveDate::from_num_days_from_ce_opt(day)
        .expect("in the calendar")
        .format("%Y-%m-%d")
        .to_string()
}

/// Calls `chrono::NaiveDate::parse_from_str` with `%Y-%m-%d`. What it reads depends on the text
/// alone, and is a day of the calendar.
#[verifier::external_body]
pub(crate) fn parse_day(text: &str) -> (r: Option<i32>)
    ensures
        r == parsed_day(text@),
        r matches Some(day) ==> in_calendar(day as int),
{
    match chrono::NaiveDate::parse_from_str(text, "%Y-%m-%d") {
        Ok(date) => Some(chrono::Datelike::num_days_from_ce(&date)),
        Err(_) => None,
    }
}

// ---------------------------------------------------------------- trading days

/// Saturday or Sunday: day 1 is a Monday.
pub open spec fn is_weekend(day: int) -> bool {
    day % 7 == 6 || day % 7 == 0
}

/// The days of 2026 on which the exchanges are closed.
pub open spec fn holidays() -> Seq<Seq<char>> {
    seq![
        "2026-01-01"@,
        "2026-01-02"@,
        "2026-01-03"@,
        "2026-02-15"@,
        "2026-02-16"@,
        "2026-02-17"@,
        "2026-02-18"@,
        "2026-02-19"@,
        "2026-02-20"@,
        "2026-02-21"@,
        "2026-02-22"@,
        "2026-02-23"@,
        "2026-04-04"@,
        "2026-04-05"@,
        "2026-04-06"@,
        "2026-05-01"@,
        "2026-05-02"@,
        "2026-05-03"@,
        "2026-05-04"@,
        "2026-05-05"@,
        "2026-06-19"@,
        "2026-06-20"@,
        "2026-06-21"@,
        "2026-09-25"@,
        "2026-09-26"@,
        "2026-09-27"@,
        "2026-10-01"@,
        "2026-10-02"@,
        "2026-10-03"@,
        "2026-10-04"@,
        "2026-10-05"@,
        "2026-10-06"@,
        "2026-10-07"@,
    ]
}

fn is_holiday(text: &str) -> (r: bool)
    ensures
        r == holidays().contains(text@),
{
    let list: [&'static str; 33] = [
        "2026-01-01",
        "2026-01-02",
        "2026-01-03",
        "2026-02-15",
        "2026-02-16",
        "2026-02-17",
        "2026-02-18",
        "2026-02-19",
        "2026-02-20",
        "2026-02-21",
        "2026-02-22",
        "2026-02-23",
        "2026-04-04",
        "2026-04-05",
        "2026-04-06",
        "2026-05-01",
        "2026-05-02",
        "2026-05-03",
        "2026-05-04",
        "2026-05-05",
        "2026-06-19",
        "2026-06-20",
        "2026-06-21",
        "2026-09-25",
        "2026-09-26",
        "2026-09-27",
        "2026-10-01",
        "2026-10-02",
        "2026-10-03",
        "2026-10-04",
        "2026-10-05",
        "2026-10-06",
        "2026-10-07",
    ];
    assert(list@.map_values(|s: &'static str| s@) =~= holidays());
    let mut i: usize = 0;
    while i < 33
        invariant
            i <= 33,
            list@.len() == 33,
            list@.map_values(|s: &'static str| s@) == holidays(),
            forall|j: int| 0 <= j < i ==> holidays()[j] != text@,
        decreases 33 - i,
    {
        assert(holidays()[i as int] == list@[i as int]@);
        if same(list[i], text) {
            return true;
        }
        i += 1;
    }
    false
}

/// The exchanges are open on a day that the text names, in a week and not on a holiday.
pub open spec fn is_trading(text: Seq<char>) -> bool {
    match parsed_day(text) {
        Some(day) => !is_weekend(day as int) && !holidays().contains(text),
        None => false,
    }
}

/// Whether the exchanges are open on the day read from a text; the rest as in
/// `is_trading_day`.
pub fn is_open_on(day: Option<i32>, text: &str) -> (r: bool)
    requires
        day matches Some(d) ==> in_calendar(d as int),
    ensures
        r == match day {
            Some(d) => !is_weekend(d as int) && !holidays().contains(text@),
            None => false,
        },
{
    match day {
        Some(d) => {
            // From a multiple of seven, so that the remainder is never negative.
            let n: i64 = (d as i64 + 700_000_000) % 7;
            assert(n == d as int % 7);
            n != 6 && n != 0 && !is_holiday(text)
        },
        None => false,
    }
}

/// Whether the exchanges are open on the day that a text names.
pub fn is_trading_day(date_str: &str) -> (r: bool)
    ensures
        r == is_trading(date_str@),
{
    is_open_on(parse_day(date_str), date_str)
}

/// How many days back from a day the last trading day is looked for.
pub const LOOK_BACK: i32 = 30;

/// No trading day among the `n` days back from a day, that day included.
pub open spec fn closed_for(from: int, n: int) -> bool {
    forall|k: int| 0 <= k < n ==> !is_trading(#[trigger] day_text_of(from - k))
}

/// The text of the last trading day up to `from`, looked for over thirty days; of `from` itself
/// where there is none.
pub open spec fn is_last_trading(text: Seq<char>, from: int) -> bool {
    &&& closed_for(from, LOOK_BACK as int) ==> text == day_text_of(from)
    &&& !closed_for(from, LOOK_BACK as int) ==> {
        &&& is_trading(text)
        &&& exists|k: int|
            {
                &&& 0 <= k < LOOK_BACK
                &&& closed_for(from, k)
                &&& text == #[trigger] day_text_of(from - k)
            }
    }
}

/// A text writes one date.
proof fn a_text_writes_one_day(text: Seq<char>, n: int, year: int, month: int, day: int)
    requires
        writes_day(text, n),
        is_date(year, month, day),
        text == date_text(year, month, day),
    ensures
        n == day_number(year, month, day),
{
    reveal_strlit("-");
    let (y, m, d) = choose|y: int, m: int, d: int|
        {
            &&& is_date(y, m, d)
            &&& n == day_number(y, m, d)
            &&& text == #[trigger] date_text(y, m, d)
        };
    assert(text[0] == digit_char(y / 100 / 10) && text[0] == digit_char(year / 100 / 10));
    assert(text[1] == digit_char(y / 100 % 10) && text[1] == digit_char(year / 100 % 10));
    assert(text[2] == digit_char(y % 100 / 10) && text[2] == digit_char(year % 100 / 10));
    assert(text[3] == digit_char(y % 100 % 10) && text[3] == digit_char(year % 100 % 10));
    assert(text[5] == digit_char(m / 10) && text[5] == digit_char(month / 10));
    assert(text[6] == digit_char(m % 10) && text[6] == digit_char(month % 10));
    assert(text[8] == digit_char(d / 10) && text[8] == digit_char(day / 10));
    assert(text[9] == digit_char(d % 10) && text[9] == digit_char(day % 10));
}

/// The first day of 2026.
pub const NEW_YEAR: i32 = 739_617;

proof fn months_of_the_year()
    ensures
        forall|d: int| #[trigger] day_number(2026, 1, d) == NEW_YEAR + -1 + d,
        forall|d: int| #[trigger] day_number(2026, 2, d) == NEW_YEAR + 30 + d,
        forall|d: int| #[trigger] day_number(2026, 4, d) == NEW_YEAR + 89 + d,
        forall|d: int| #[trigger] day_number(2026, 5, d) == NEW_YEAR + 119 + d,
        forall|d: int| #[trigger] day_number(2026, 6, d) == NEW_YEAR + 150 + d,
        forall|d: int| #[trigger] day_number(2026, 9, d) == NEW_YEAR + 242 + d,
        forall|d: int| #[trigger] day_number(2026, 10, d) == NEW_YEAR + 272 + d,
{
    reveal_with_fuel(days_before_month, 12);
}

/// Where in 2026 the holidays lie: each stretch by its first and its last day after New Year.
proof fn holidays_lie_apart(text: Seq<char>, n: int)
    requires
        writes_day(text, n),
        holidays().contains(text),
    ensures
        ({
            let k = n - NEW_YEAR;
            ||| 0 <= k <= 2
            ||| 45 <= k <= 53
            ||| 93 <= k <= 95
            ||| 120 <= k <= 124
            ||| 169 <= k <= 171
            ||| 267 <= k <= 269
            ||| 273 <= k <= 279
        }),
{
    months_of_the_year();
    assert(text == "2026-01-01"@ ==> n == NEW_YEAR + 0) by {
        reveal_strlit("2026-01-01");
        reveal_strlit("-");
        assert("2026-01-01"@ =~= date_text(2026, 1, 1));
        if text == "2026-01-01"@ {
            a_text_writes_one_day(text, n, 2026, 1, 1);
        }
    }
    assert(text == "2026-01-02"@ ==> n == NEW_YEAR + 1) by {
        reveal_strlit("2026-01-02");
        reveal_strlit("-");
        assert("2026-01-02"@ =~= date_text(2026, 1, 2));
        if text == "2026-01-02"@ {
            a_text_writes_one_day(text, n, 2026, 1, 2);
        }
    }
    assert(text == "2026-01-03"@ ==> n == NEW_YEAR + 2) by {
        reveal_strlit("2026-01-03");
        reveal_strlit("-");
        assert("2026-01-03"@ =~= date_text(2026, 1, 3));
        if text == "2026-01-03"@ {
            a_text_writes_one_day(text, n, 2026, 1, 3);
        }
    }
    assert(text == "2026-02-15"@ ==> n == NEW_YEAR + 45) by {
        reveal_strlit("2026-02-15");
        reveal_strlit("-");
        assert("2026-02-15"@ =~= date_text(2026, 2, 15));
        if text == "2026-02-15"@ {
            a_text_writes_one_day(text, n, 2026, 2, 15);
        }
    }
    assert(text == "2026-02-16"@ ==> n == NEW_YEAR + 46) by {
        reveal_strlit("2026-02-16");
        reveal_strlit("-");
        assert("2026-02-16"@ =~= date_text(2026, 2, 16));
        if text == "2026-02-16"@ {
            a_text_writes_one_day(text, n, 2026, 2, 16);
        }
    }
    assert(text == "2026-02-17"@ ==> n == NEW_YEAR + 47) by {
        reveal_strlit("2026-02-17");
        reveal_strlit("-");
        assert("2026-02-17"@ =~= date_text(2026, 2, 17));
        if text == "2026-02-17"@ {
            a_text_writes_one_day(text, n, 2026, 2, 17);
        }
    }
    assert(text == "2026-02-18"@ ==> n == NEW_YEAR + 48) by {
        reveal_strlit("2026-02-18");
        reveal_strlit("-");
        assert("2026-02-18"@ =~= date_text(2026, 2, 18));
        if text == "2026-02-18"@ {
            a_text_writes_one_day(text, n, 2026, 2, 18);
        }
    }
    assert(text == "2026-02-19"@ ==> n == NEW_YEAR + 49) by {
        reveal_strlit("2026-02-19");
        reveal_strlit("-");
        assert("2026-02-19"@ =~= date_text(2026, 2, 19));
        if text == "2026-02-19"@ {
            a_text_writes_one_day(text, n, 2026, 2, 19);
        }
    }
    assert(text == "2026-02-20"@ ==> n == NEW_YEAR + 50) by {
        reveal_strlit("2026-02-20");
        reveal_strlit("-");
        assert("2026-02-20"@ =~= date_text(2026, 2, 20));
        if text == "2026-02-20"@ {
            a_text_writes_one_day(text, n, 2026, 2, 20);
        }
    }
    assert(text == "2026-02-21"@ ==> n == NEW_YEAR + 51) by {
        reveal_strlit("2026-02-21");
        reveal_strlit("-");
        assert("2026-02-21"@ =~= date_text(2026, 2, 21));
        if text == "2026-02-21"@ {
            a_text_writes_one_day(text, n, 2026, 2, 21);
        }
    }
    assert(text == "2026-02-22"@ ==> n == NEW_YEAR + 52) by {
        reveal_strlit("2026-02-22");
        reveal_strlit("-");
        assert("2026-02-22"@ =~= date_text(2026, 2, 22));
        if text == "2026-02-22"@ {
            a_text_writes_one_day(text, n, 2026, 2, 22);
        }
    }
    assert(text == "2026-02-23"@ ==> n == NEW_YEAR + 53) by {
        reveal_strlit("2026-02-23");
        reveal_strlit("-");
        assert("2026-02-23"@ =~= date_text(2026, 2, 23));
        if text == "2026-02-23"@ {
            a_text_writes_one_day(text, n, 2026, 2, 23);
        }
    }
    assert(text == "2026-04-04"@ ==> n == NEW_YEAR + 93) by {
        reveal_strlit("2026-04-04");
        reveal_strlit("-");
        assert("2026-04-04"@ =~= date_text(2026, 4, 4));
        if text == "2026-04-04"@ {
            a_text_writes_one_day(text, n, 2026, 4, 4);
        }
    }
    assert(text == "2026-04-05"@ ==> n == NEW_YEAR + 94) by {
        reveal_strlit("2026-04-05");
        reveal_strlit("-");
        assert("2026-04-05"@ =~= date_text(2026, 4, 5));
        if text == "2026-04-05"@ {
            a_text_writes_one_day(text, n, 2026, 4, 5);
        }
    }
    assert(text == "2026-04-06"@ ==> n == NEW_YEAR + 95) by {
        reveal_strlit("2026-04-06");
        reveal_strlit("-");
        assert("2026-04-06"@ =~= date_text(2026, 4, 6));
        if text == "2026-04-06"@ {
            a_text_writes_one_day(text, n, 2026, 4, 6);
        }
    }
    assert(text == "2026-05-01"@ ==> n == NEW_YEAR + 120) by {
        reveal_strlit("2026-05-01");
        reveal_strlit("-");
        assert("2026-05-01"@ =~= date_text(2026, 5, 1));
        if text == "2026-05-01"@ {
            a_text_writes_one_day(text, n, 2026, 5, 1);
        }
    }
    assert(text == "2026-05-02"@ ==> n == NEW_YEAR + 121) by {
        reveal_strlit("2026-05-02");
        reveal_strlit("-");
        assert("2026-05-02"@ =~= date_text(2026, 5, 2));
        if text == "2026-05-02"@ {
            a_text_writes_one_day(text, n, 2026, 5, 2);
        }
    }
    assert(text == "2026-05-03"@ ==> n == NEW_YEAR + 122) by {
        reveal_strlit("2026-05-03");
        reveal_strlit("-");
        assert("2026-05-03"@ =~= date_text(2026, 5, 3));
        if text == "2026-05-03"@ {
            a_text_writes_one_day(text, n, 2026, 5, 3);
        }
    }
    assert(text == "2026-05-04"@ ==> n == NEW_YEAR + 123) by {
        reveal_strlit("2026-05-04");
        reveal_strlit("-");
        assert("2026-05-04"@ =~= date_text(2026, 5, 4));
        if text == "2026-05-04"@ {
            a_text_writes_one_day(text, n, 2026, 5, 4);
        }
    }
    assert(text == "2026-05-05"@ ==> n == NEW_YEAR + 124) by {
        reveal_strlit("2026-05-05");
        reveal_strlit("-");
        assert("2026-05-05"@ =~= date_text(2026, 5, 5));
        if text == "2026-05-05"@ {
            a_text_writes_one_day(text, n, 2026, 5, 5);
        }
    }
    assert(text == "2026-06-19"@ ==> n == NEW_YEAR + 169) by {
        reveal_strlit("2026-06-19");
        reveal_strlit("-");
        assert("2026-06-19"@ =~= date_text(2026, 6, 19));
        if text == "2026-06-19"@ {
            a_text_writes_one_day(text, n, 2026, 6, 19);
        }
    }
    assert(text == "2026-06-20"@ ==> n == NEW_YEAR + 170) by {
        reveal_strlit("2026-06-20");
        reveal_strlit("-");
        assert("2026-06-20"@ =~= date_text(2026, 6, 20));
        if text == "2026-06-20"@ {
            a_text_writes_one_day(text, n, 2026, 6, 20);
        }
    }
    assert(text == "2026-06-21"@ ==> n == NEW_YEAR + 171) by {
        reveal_strlit("2026-06-21");
        reveal_strlit("-");
        assert("2026-06-21"@ =~= date_text(2026, 6, 21));
        if text == "2026-06-21"@ {
            a_text_writes_one_day(text, n, 2026, 6, 21);
        }
    }
    assert(text == "2026-09-25"@ ==> n == NEW_YEAR + 267) by {
        reveal_strlit("2026-09-25");
        reveal_strlit("-");
        assert("2026-09-25"@ =~= date_text(2026, 9, 25));
        if text == "2026-09-25"@ {
            a_text_writes_one_day(text, n, 2026, 9, 25);
        }
    }
    assert(text == "2026-09-26"@ ==> n == NEW_YEAR + 268) by {
        reveal_strlit("2026-09-26");
        reveal_strlit("-");
        assert("2026-09-26"@ =~= date_text(2026, 9, 26));
        if text == "2026-09-26"@ {
            a_text_writes_one_day(text, n, 2026, 9, 26);
        }
    }
    assert(text == "2026-09-27"@ ==> n == NEW_YEAR + 269) by {
        reveal_strlit("2026-09-27");
        reveal_strlit("-");
        assert("2026-09-27"@ =~= date_text(2026, 9, 27));
        if text == "2026-09-27"@ {
            a_text_writes_one_day(text, n, 2026, 9, 27);
        }
    }
    assert(text == "2026-10-01"@ ==> n == NEW_YEAR + 273) by {
        reveal_strlit("2026-10-01");
        reveal_strlit("-");
        assert("2026-10-01"@ =~= date_text(2026, 10, 1));
        if text == "2026-10-01"@ {
            a_text_writes_one_day(text, n, 2026, 10, 1);
        }
    }
    assert(text == "2026-10-02"@ ==> n == NEW_YEAR + 274) by {
        reveal_strlit("2026-10-02");
        reveal_strlit("-");
        assert("2026-10-02"@ =~= date_text(2026, 10, 2));
        if text == "2026-10-02"@ {
            a_text_writes_one_day(text, n, 2026, 10, 2);
        }
    }
    assert(text == "2026-10-03"@ ==> n == NEW_YEAR + 275) by {
        reveal_strlit("2026-10-03");
        reveal_strlit("-");
        assert("2026-10-03"@ =~= date_text(2026, 10, 3));
        if text == "2026-10-03"@ {
            a_text_writes_one_day(text, n, 2026, 10, 3);
        }
    }
    assert(text == "2026-10-04"@ ==> n == NEW_YEAR + 276) by {
        reveal_strlit("2026-10-04");
        reveal_strlit("-");
        assert("2026-10-04"@ =~= date_text(2026, 10, 4));
        if text == "2026-10-04"@ {
            a_text_writes_one_day(text, n, 2026, 10, 4);
        }
    }
    assert(text == "2026-10-05"@ ==> n == NEW_YEAR + 277) by {
        reveal_strlit("2026-10-05");
        reveal_strlit("-");
        assert("2026-10-05"@ =~= date_text(2026, 10, 5));
        if text == "2026-10-05"@ {
            a_text_writes_one_day(text, n, 2026, 10, 5);
        }
    }
    assert(text == "2026-10-06"@ ==> n == NEW_YEAR + 278) by {
        reveal_strlit("2026-10-06");
        reveal_strlit("-");
        assert("2026-10-06"@ =~= date_text(2026, 10, 6));
        if text == "2026-10-06"@ {
            a_text_writes_one_day(text, n, 2026, 10, 6);
        }
    }
    assert(text == "2026-10-07"@ ==> n == NEW_YEAR + 279) by {
        reveal_strlit("2026-10-07");
        reveal_strlit("-");
        assert("2026-10-07"@ =~= date_text(2026, 10, 7));
        if text == "2026-10-07"@ {
            a_text_writes_one_day(text, n, 2026, 10, 7);
        }
    }
}

/// A day of 2026, each of which stands in the calendar once.
proof fn a_day_of_the_year(text: Seq<char>, n: int)
    requires
        writes_day(text, n),
        NEW_YEAR <= n <= NEW_YEAR + 364,
    ensures
        exists|month: int, day: int|
            {
                &&& is_date(2026, month, day)
                &&& n == day_number(2026, month, day)
                &&& text == #[trigger] date_text(2026, month, day)
            },
{
    let (y, m, d) = choose|y: int, m: int, d: int|
        {
            &&& is_date(y, m, d)
            &&& n == day_number(y, m, d)
            &&& text == #[trigger] date_text(y, m, d)
        };
    a_date_lies_in_its_year(y, m, d);
    years_follow(y - 1, 2025);
    years_follow(y, 2025);
    years_follow(2026, y - 1);
    assert(days_of_years(2025) == NEW_YEAR - 1);
    assert(days_of_years(2026) == NEW_YEAR + 364);
    assert(y == 2026);
}

/// The days of the first so many years.
spec fn days_of_years(n: int) -> int {
    365 * n + n / 4 - n / 100 + n / 400
}

proof fn years_follow(a: int, b: int)
    requires
        0 <= a,
    ensures
        a <= b ==> days_of_years(a) <= days_of_years(b),
{
}

proof fn a_date_lies_in_its_year(year: int, month: int, day: int)
    requires
        is_date(year, month, day),
    ensures
        days_of_years(year - 1) < day_number(year, month, day) <= days_of_years(year),
{
    reveal_with_fuel(days_before_month, 13);
    assert(days_of_years(year) == days_of_years(year - 1) + if is_leap(year) {
        366int
    } else {
        365int
    });
}

proof fn months_follow(year: int, a: int, b: int)
    requires
        1 <= a,
    ensures
        a < b ==> days_before_month(year, a) + month_length(year, a) <= days_before_month(year, b),
    decreases b,
{
    if a < b - 1 {
        months_follow(year, a, b - 1);
    }
}

proof fn the_day_is_written(text: Seq<char>, n: int, month: int, day: int)
    requires
        writes_day(text, n),
        is_date(2026, month, day),
        n == day_number(2026, month, day),
    ensures
        text == date_text(2026, month, day),
{
    a_date_lies_in_its_year(2026, month, day);
    assert(days_of_years(2025) == NEW_YEAR - 1);
    assert(days_of_years(2026) == NEW_YEAR + 364);
    a_day_of_the_year(text, n);
    let (m, d) = choose|m: int, d: int|
        {
            &&& is_date(2026, m, d)
            &&& n == day_number(2026, m, d)
            &&& text == #[trigger] date_text(2026, m, d)
        };
    months_follow(2026, m, month);
    months_follow(2026, month, m);
}

/// Each day of the stretches is a holiday.
proof fn stretches_are_holidays(text: Seq<char>, n: int)
    requires
        writes_day(text, n),
        ({
            let k = n - NEW_YEAR;
            ||| 0 <= k <= 2
            ||| 45 <= k <= 53
            ||| 93 <= k <= 95
            ||| 120 <= k <= 124
            ||| 169 <= k <= 171
            ||| 267 <= k <= 269
            ||| 273 <= k <= 279
        }),
    ensures
        holidays().contains(text),
{
    months_of_the_year();
    assert(n == NEW_YEAR + 0 ==> text == "2026-01-01"@) by {
        if n == NEW_YEAR + 0 {
            the_day_is_written(text, n, 1, 1);
            reveal_strlit("2026-01-01");
            reveal_strlit("-");
            assert(text =~= "2026-01-01"@);
        }
    }
    assert(n == NEW_YEAR + 1 ==> text == "2026-01-02"@) by {
        if n == NEW_YEAR + 1 {
            the_day_is_written(text, n, 1, 2);
            reveal_strlit("2026-01-02");
            reveal_strlit("-");
            assert(text =~= "2026-01-02"@);
        }
    }
    assert(n == NEW_YEAR + 2 ==> text == "2026-01-03"@) by {
        if n == NEW_YEAR + 2 {
            the_day_is_written(text, n, 1, 3);
            reveal_strlit("2026-01-03");
            reveal_strlit("-");
            assert(text =~= "2026-01-03"@);
        }
    }
    assert(n == NEW_YEAR + 45 ==> text == "2026-02-15"@) by {
        if n == NEW_YEAR + 45 {
            the_day_is_written(text, n, 2, 15);
            reveal_strlit("2026-02-15");
            reveal_strlit("-");
            assert(text =~= "2026-02-15"@);
        }
    }
    assert(n == NEW_YEAR + 46 ==> text == "2026-02-16"@) by {
        if n == NEW_YEAR + 46 {
            the_day_is_written(text, n, 2, 16);
            reveal_strlit("2026-02-16");
            reveal_strlit("-");
            assert(text =~= "2026-02-16"@);
        }
    }
    assert(n == NEW_YEAR + 47 ==> text == "2026-02-17"@) by {
        if n == NEW_YEAR + 47 {
            the_day_is_written(text, n, 2, 17);
            reveal_strlit("2026-02-17");
            reveal_strlit("-");
            assert(text =~= "2026-02-17"@);
        }
    }
    assert(n == NEW_YEAR + 48 ==> text == "2026-02-18"@) by {
        if n == NEW_YEAR + 48 {
            the_day_is_written(text, n, 2, 18);
            reveal_strlit("2026-02-18");
            reveal_strlit("-");
            assert(text =~= "2026-02-18"@);
        }
    }
    assert(n == NEW_YEAR + 49 ==> text == "2026-02-19"@) by {
        if n == NEW_YEAR + 49 {
            the_day_is_written(text, n, 2, 19);
            reveal_strlit("2026-02-19");
            reveal_strlit("-");
            assert(text =~= "2026-02-19"@);
        }
    }
    assert(n == NEW_YEAR + 50 ==> text == "2026-02-20"@) by {
        if n == NEW_YEAR + 50 {
            the_day_is_written(text, n, 2, 20);
            reveal_strlit("2026-02-20");
            reveal_strlit("-");
            assert(text =~= "2026-02-20"@);
        }
    }
    assert(n == NEW_YEAR + 51 ==> text == "2026-02-21"@) by {
        if n == NEW_YEAR + 51 {
            the_day_is_written(text, n, 2, 21);
            reveal_strlit("2026-02-21");
            reveal_strlit("-");
            assert(text =~= "2026-02-21"@);
        }
    }
    assert(n == NEW_YEAR + 52 ==> text == "2026-02-22"@) by {
        if n == NEW_YEAR + 52 {
            the_day_is_written(text, n, 2, 22);
            reveal_strlit("2026-02-22");
            reveal_strlit("-");
            assert(text =~= "2026-02-22"@);
        }
    }
    assert(n == NEW_YEAR + 53 ==> text == "2026-02-23"@) by {
        if n == NEW_YEAR + 53 {
            the_day_is_written(text, n, 2, 23);
            reveal_strlit("2026-02-23");
            reveal_strlit("-");
            assert(text =~= "2026-02-23"@);
        }
    }
    assert(n == NEW_YEAR + 93 ==> text == "2026-04-04"@) by {
        if n == NEW_YEAR + 93 {
            the_day_is_written(text, n, 4, 4);
            reveal_strlit("2026-04-04");
            reveal_strlit("-");
            assert(text =~= "2026-04-04"@);
        }
    }
    assert(n == NEW_YEAR + 94 ==> text == "2026-04-05"@) by {
        if n == NEW_YEAR + 94 {
            the_day_is_written(text, n, 4, 5);
            reveal_strlit("2026-04-05");
            reveal_strlit("-");
            assert(text =~= "2026-04-05"@);
        }
    }
    assert(n == NEW_YEAR + 95 ==> text == "2026-04-06"@) by {
        if n == NEW_YEAR + 95 {
            the_day_is_written(text, n, 4, 6);
            reveal_strlit("2026-04-06");
            reveal_strlit("-");
            assert(text =~= "2026-04-06"@);
        }
    }
    assert(n == NEW_YEAR + 120 ==> text == "2026-05-01"@) by {
        if n == NEW_YEAR + 120 {
            the_day_is_written(text, n, 5, 1);
            reveal_strlit("2026-05-01");
            reveal_strlit("-");
            assert(text =~= "2026-05-01"@);
        }
    }
    assert(n == NEW_YEAR + 121 ==> text == "2026-05-02"@) by {
        if n == NEW_YEAR + 121 {
            the_day_is_written(text, n, 5, 2);
            reveal_strlit("2026-05-02");
            reveal_strlit("-");
            assert(text =~= "2026-05-02"@);
        }
    }
    assert(n == NEW_YEAR + 122 ==> text == "2026-05-03"@) by {
        if n == NEW_YEAR + 122 {
            the_day_is_written(text, n, 5, 3);
            reveal_strlit("2026-05-03");
            reveal_strlit("-");
            assert(text =~= "2026-05-03"@);
        }
    }
    assert(n == NEW_YEAR + 123 ==> text == "2026-05-04"@) by {
        if n == NEW_YEAR + 123 {
            the_day_is_written(text, n, 5, 4);
            reveal_strlit("2026-05-04");
            reveal_strlit("-");
            assert(text =~= "2026-05-04"@);
        }
    }
    assert(n == NEW_YEAR + 124 ==> text == "2026-05-05"@) by {
        if n == NEW_YEAR + 124 {
            the_day_is_written(text, n, 5, 5);
            reveal_strlit("2026-05-05");
            reveal_strlit("-");
            assert(text =~= "2026-05-05"@);
        }
    }
    assert(n == NEW_YEAR + 169 ==> text == "2026-06-19"@) by {
        if n == NEW_YEAR + 169 {
            the_day_is_written(text, n, 6, 19);
            reveal_strlit("2026-06-19");
            reveal_strlit("-");
            assert(text =~= "2026-06-19"@);
        }
    }
    assert(n == NEW_YEAR + 170 ==> text == "2026-06-20"@) by {
        if n == NEW_YEAR + 170 {
            the_day_is_written(text, n, 6, 20);
            reveal_strlit("2026-06-20");
            reveal_strlit("-");
            assert(text =~= "2026-06-20"@);
        }
    }
    assert(n == NEW_YEAR + 171 ==> text == "2026-06-21"@) by {
        if n == NEW_YEAR + 171 {
            the_day_is_written(text, n, 6, 21);
            reveal_strlit("2026-06-21");
            reveal_strlit("-");
            assert(text =~= "2026-06-21"@);
        }
    }
    assert(n == NEW_YEAR + 267 ==> text == "2026-09-25"@) by {
        if n == NEW_YEAR + 267 {
            the_day_is_written(text, n, 9, 25);
            reveal_strlit("2026-09-25");
            reveal_strlit("-");
            assert(text =~= "2026-09-25"@);
        }
    }
    assert(n == NEW_YEAR + 268 ==> text == "2026-09-26"@) by {
        if n == NEW_YEAR + 268 {
            the_day_is_written(text, n, 9, 26);
            reveal_strlit("2026-09-26");
            reveal_strlit("-");
            assert(text =~= "2026-09-26"@);
        }
    }
    assert(n == NEW_YEAR + 269 ==> text == "2026-09-27"@) by {
        if n == NEW_YEAR + 269 {
            the_day_is_written(text, n, 9, 27);
            reveal_strlit("2026-09-27");
            reveal_strlit("-");
            assert(text =~= "2026-09-27"@);
        }
    }
    assert(n == NEW_YEAR + 273 ==> text == "2026-10-01"@) by {
        if n == NEW_YEAR + 273 {
            the_day_is_written(text, n, 10, 1);
            reveal_strlit("2026-10-01");
            reveal_strlit("-");
            assert(text =~= "2026-10-01"@);
        }
    }
    assert(n == NEW_YEAR + 274 ==> text == "2026-10-02"@) by {
        if n == NEW_YEAR + 274 {
            the_day_is_written(text, n, 10, 2);
            reveal_strlit("2026-10-02");
            reveal_strlit("-");
            assert(text =~= "2026-10-02"@);
        }
    }
    assert(n == NEW_YEAR + 275 ==> text == "2026-10-03"@) by {
        if n == NEW_YEAR + 275 {
            the_day_is_written(text, n, 10, 3);
            reveal_strlit("2026-10-03");
            reveal_strlit("-");
            assert(text =~= "2026-10-03"@);
        }
    }
    assert(n == NEW_YEAR + 276 ==> text == "2026-10-04"@) by {
        if n == NEW_YEAR + 276 {
            the_day_is_written(text, n, 10, 4);
            reveal_strlit("2026-10-04");
            reveal_strlit("-");
            assert(text =~= "2026-10-04"@);
        }
    }
    assert(n == NEW_YEAR + 277 ==> text == "2026-10-05"@) by {
        if n == NEW_YEAR + 277 {
            the_day_is_written(text, n, 10, 5);
            reveal_strlit("2026-10-05");
            reveal_strlit("-");
            assert(text =~= "2026-10-05"@);
        }
    }
    assert(n == NEW_YEAR + 278 ==> text == "2026-10-06"@) by {
        if n == NEW_YEAR + 278 {
            the_day_is_written(text, n, 10, 6);
            reveal_strlit("2026-10-06");
            reveal_strlit("-");
            assert(text =~= "2026-10-06"@);
        }
    }
    assert(n == NEW_YEAR + 279 ==> text == "2026-10-07"@) by {
        if n == NEW_YEAR + 279 {
            the_day_is_written(text, n, 10, 7);
            reveal_strlit("2026-10-07");
            reveal_strlit("-");
            assert(text =~= "2026-10-07"@);
        }
    }
    let list = holidays();
    assert(list[0] == "2026-01-01"@);
    assert(list[1] == "2026-01-02"@);
    assert(list[2] == "2026-01-03"@);
    assert(list[3] == "2026-02-15"@);
    assert(list[4] == "2026-02-16"@);
    assert(list[5] == "2026-02-17"@);
    assert(list[6] == "2026-02-18"@);
    assert(list[7] == "2026-02-19"@);
    assert(list[8] == "2026-02-20"@);
    assert(list[9] == "2026-02-21"@);
    assert(list[10] == "2026-02-22"@);
    assert(list[11] == "2026-02-23"@);
    assert(list[12] == "2026-04-04"@);
    assert(list[13] == "2026-04-05"@);
    assert(list[14] == "2026-04-06"@);
    assert(list[15] == "2026-05-01"@);
    assert(list[16] == "2026-05-02"@);
    assert(list[17] == "2026-05-03"@);
    assert(list[18] == "2026-05-04"@);
    assert(list[19] == "2026-05-05"@);
    assert(list[20] == "2026-06-19"@);
    assert(list[21] == "2026-06-20"@);
    assert(list[22] == "2026-06-21"@);
    assert(list[23] == "2026-09-25"@);
    assert(list[24] == "2026-09-26"@);
    assert(list[25] == "2026-09-27"@);
    assert(list[26] == "2026-10-01"@);
    assert(list[27] == "2026-10-02"@);
    assert(list[28] == "2026-10-03"@);
    assert(list[29] == "2026-10-04"@);
    assert(list[30] == "2026-10-05"@);
    assert(list[31] == "2026-10-06"@);
    assert(list[32] == "2026-10-07"@);
}

/// The day lies between two dates of 2026, or is one of them.
pub open spec fn is_between(n: int, from: (int, int), to: (int, int)) -> bool {
    day_number(2026, from.0, from.1) <= n <= day_number(2026, to.0, to.1)
}

/// The exchanges are open from Monday to Friday, but for seven stretches of 2026: January 1 to 3,
/// February 15 to 23, April 4 to 6, May 1 to 5, June 19 to 21, September 25 to 27 and October 1
/// to 7. January 5 of that year is a Monday.
pub proof fn the_exchanges_are_open_but_for_seven_stretches(text: Seq<char>, n: int)
    requires
        writes_day(text, n),
        parsed_day(text) matches Some(day) && day == n,
    ensures
        is_trading(text) <==> {
            &&& (n - day_number(2026, 1, 5)) % 7 < 5
            &&& !is_between(n, (1, 1), (1, 3))
            &&& !is_between(n, (2, 15), (2, 23))
            &&& !is_between(n, (4, 4), (4, 6))
            &&& !is_between(n, (5, 1), (5, 5))
            &&& !is_between(n, (6, 19), (6, 21))
            &&& !is_between(n, (9, 25), (9, 27))
            &&& !is_between(n, (10, 1), (10, 7))
        },
{
    months_of_the_year();
    assert(day_number(2026, 1, 5) == NEW_YEAR + 4);
    assert(day_number(2026, 1, 1) == NEW_YEAR && day_number(2026, 1, 3) == NEW_YEAR + 2);
    assert(day_number(2026, 2, 15) == NEW_YEAR + 45 && day_number(2026, 2, 23) == NEW_YEAR + 53);
    assert(day_number(2026, 4, 4) == NEW_YEAR + 93 && day_number(2026, 4, 6) == NEW_YEAR + 95);
    assert(day_number(2026, 5, 1) == NEW_YEAR + 120 && day_number(2026, 5, 5) == NEW_YEAR + 124);
    assert(day_number(2026, 6, 19) == NEW_YEAR + 169 && day_number(2026, 6, 21) == NEW_YEAR + 171);
    assert(day_number(2026, 9, 25) == NEW_YEAR + 267 && day_number(2026, 9, 27) == NEW_YEAR + 269);
    assert(day_number(2026, 10, 1) == NEW_YEAR + 273 && day_number(2026, 10, 7) == NEW_YEAR + 279);
    if holidays().contains(text) {
        holidays_lie_apart(text, n);
    }
    let k = n - NEW_YEAR;
    if 0 <= k <= 2 || 45 <= k <= 53 || 93 <= k <= 95 || 120 <= k <= 124 || 169 <= k <= 171 || 267
        <= k <= 269 || 273 <= k <= 279 {
        stretches_are_holidays(text, n);
    }
}

/// Of the days up to thirty back on which the exchanges are open, the last one is given.
pub proof fn the_nearest_open_day_is_given(text: Seq<char>, from: int, back: int)
    requires
        is_last_trading(text, from),
        0 <= back < 30,
        is_trading(day_text_of(from - back)),
    ensures
        is_trading(text),
        exists|k: int|
            {
                &&& 0 <= k <= back
                &&& text == #[trigger] day_text_of(from - k)
                &&& forall|j: int| 0 <= j < k ==> !is_trading(#[trigger] day_text_of(from - j))
            },
{
    assert(!closed_for(from, 30));
    let k = choose|k: int|
        {
            &&& 0 <= k < LOOK_BACK
            &&& closed_for(from, k)
            &&& text == #[trigger] day_text_of(from - k)
        };
    assert(text == day_text_of(from - k));
    assert(k <= back);
}

/// Days whose text writes them, reads back as them and is no trading day cannot go on for two
/// weeks: of two Tuesdays in a row one is no holiday.
proof fn two_weeks_are_not_closed(from: int)
    requires
        forall|k: int|
            0 <= k < 14 ==> writes_day(#[trigger] day_text_of(from - k), from - k) && parsed_day(
                day_text_of(from - k),
            ) == Some((from - k) as i32) && MIN_DAY <= from - k <= MAX_DAY,
    ensures
        !closed_for(from, 14),
{
    if closed_for(from, 14) {
        let k = (from - 2) % 7;
        let t = from - k;
        assert(t % 7 == 2 && (t - 7) % 7 == 2);
        assert(day_text_of(t) == day_text_of(from - k));
        assert(day_text_of(t - 7) == day_text_of(from - (k + 7)));
        assert(!is_trading(day_text_of(from - k)));
        assert(!is_trading(day_text_of(from - (k + 7))));
        holidays_lie_apart(day_text_of(t), t);
        holidays_lie_apart(day_text_of(t - 7), t - 7);
    }
}

/// The last trading day up to `from`. Of a year with four digits there is always one within
/// thirty days; elsewhere `from` itself is given where there is none.
pub fn last_trading_day(from: i32) -> (r: String)
    requires
        in_calendar(from as int),
        in_calendar(from - LOOK_BACK),
    ensures
        is_last_trading(r@, from as int),
        is_plain(from as int) && is_plain(from - LOOK_BACK) ==> {
            &&& !closed_for(from as int, LOOK_BACK as int)
            &&& is_trading(r@)
        },
{
    let mut k: i32 = 0;
    while k < LOOK_BACK
        invariant
            0 <= k <= LOOK_BACK,
            in_calendar(from as int),
            in_calendar(from - LOOK_BACK),
            closed_for(from as int, k as int),
            is_plain(from as int) && is_plain(from - LOOK_BACK) ==> forall|j: int|
                0 <= j < k ==> writes_day(#[trigger] day_text_of(from - j), from - j)
                    && parsed_day(day_text_of(from - j)) == Some((from - j) as i32),
        decreases LOOK_BACK - k,
    {
        let s = day_text(from - k);
        if is_trading_day(&s) {
            assert(is_trading(day_text_of(from - k)));
            return s;
        }
        k += 1;
    }
    proof {
        if is_plain(from as int) && is_plain(from - LOOK_BACK) {
            two_weeks_are_not_closed(from as int);
            assert(closed_for(from as int, 14));
        }
    }
    day_text(from)
}

// ---------------------------------------------------------------- clocks

/// The seconds by which the clocks of China are ahead of UTC.
pub const CST_OFFSET: i64 = 28_800;

/// The longest time from the Unix epoch that the clocks take, in seconds either way.
pub const MAX_CLOCK: i64 = 253_402_000_000;

pub open spec fn on_clock(secs: int) -> bool {
    -62_135_000_000 <= secs <= MAX_CLOCK
}

/// The day of an instant, by seconds from the Unix epoch, on a clock that many seconds ahead of
/// UTC.
pub open spec fn day_at(secs: int, offset: int) -> int {
    EPOCH_DAY + (secs + offset) / 86_400
}

/// The second of the day of an instant.
pub open spec fn second_at(secs: int, offset: int) -> int {
    (secs + offset) % 86_400
}

fn split_clock(secs: i64, offset: i64) -> (r: (i32, u32))
    requires
        on_clock(secs as int),
        -86_400 < offset < 86_400,
    ensures
        r.0 == day_at(secs as int, offset as int),
        r.1 == second_at(secs as int, offset as int),
        is_plain(r.0 as int),
        r.1 < 86_400,
{
    // Counted from a day before the first of the calendar, so that nothing is negative.
    let shifted: i64 = secs + offset + 86_400 * 720_000;
    let day: i64 = shifted / 86_400 - 720_000;
    let second: i64 = shifted % 86_400;
    assert(day == (secs + offset) / 86_400 && second == (secs + offset) % 86_400);
    ((EPOCH_DAY + day) as i32, second as u32)
}

/// Today in China.
pub fn cst_day(secs: i64) -> (r: i32)
    requires
        on_clock(secs as int),
    ensures
        r == day_at(secs as int, CST_OFFSET as int),
        is_plain(r as int),
{
    split_clock(secs, CST_OFFSET).0
}

/// The trading day to work on: the one with the most data, where there is any, else the last
/// trading day.
pub fn default_trade_date(most_data: Option<String>, secs: i64) -> (r: String)
    requires
        on_clock(secs as int),
    ensures
        match most_data {
            Some(d) => r == d,
            None => {
                &&& is_last_trading(r@, day_at(secs as int, CST_OFFSET as int))
                &&& secs >= 0 ==> is_trading(r@)
            },
        },
{
    match most_data {
        Some(d) => d,
        None => last_trading_day(cst_day(secs)),
    }
}

/// Today in China, as a text.
pub fn today_cst(secs: i64) -> (r: String)
    requires
        on_clock(secs as int),
    ensures
        r@ == day_text_of(day_at(secs as int, CST_OFFSET as int)),
{
    day_text(cst_day(secs))
}

/// Hours, minutes and seconds with colons between.
pub open spec fn time_text(second: int) -> Seq<char> {
    two_digits(second / 3600) + ":"@ + two_digits(second / 60 % 60) + ":"@ + two_digits(second % 60)
}

/// Date and time of an instant with a mark between.
pub open spec fn stamp_text(secs: int, offset: int, mark: Seq<char>) -> Seq<char> {
    day_text_of(day_at(secs, offset)) + mark + time_text(second_at(secs, offset))
}

fn stamp(secs: i64, offset: i64, mark: &str) -> (r: String)
    requires
        on_clock(secs as int),
        -86_400 < offset < 86_400,
    ensures
        r@ == stamp_text(secs as int, offset as int, mark@),
{
    let (day, second) = split_clock(secs, offset);
    let mut s = day_text(day);
    s.append(mark);
    s.append(&write_two(second / 3600));
    s.append(":");
    s.append(&write_two(second / 60 % 60));
    s.append(":");
    s.append(&write_two(second % 60));
    assert(s@ =~= stamp_text(secs as int, offset as int, mark@));
    s
}

/// Date and time in China, with a space between.
pub fn cst_stamp(secs: i64) -> (r: String)
    requires
        on_clock(secs as int),
    ensures
        r@ == stamp_text(secs as int, CST_OFFSET as int, " "@),
{
    stamp(secs, CST_OFFSET, " ")
}

/// Date and time in UTC, with a `T` between.
pub fn utc_stamp(secs: i64) -> (r: String)
    requires
        on_clock(secs as int),
    ensures
        r@ == stamp_text(secs as int, 0, "T"@),
{
    stamp(secs, 0, "T")
}

// ---------------------------------------------------------------- laws of clocks

/// The clock begins with the first second of 1970 and turns a day at midnight, and that of China is
/// eight hours ahead.
pub proof fn clocks_turn_at_midnight(days: int, hour: int, minute: int, second: int)
    requires
        0 <= hour < 24,
        0 <= minute < 60,
        0 <= second < 60,
    ensures
        day_at(0, 0) == day_number(1970, 1, 1),
        day_at(days * 86_400 + hour * 3600 + minute * 60 + second, 0) == day_number(1970, 1, 1)
            + days,
        second_at(days * 86_400 + hour * 3600 + minute * 60 + second, 0) == hour * 3600 + minute
            * 60 + second,
        time_text(hour * 3600 + minute * 60 + second) == two_digits(hour) + ":"@ + two_digits(
            minute,
        ) + ":"@ + two_digits(second),
        forall|secs: int|
            #![trigger day_at(secs, CST_OFFSET as int)]
            day_at(secs, CST_OFFSET as int) == day_at(secs + 8 * 3600, 0) && second_at(
                secs,
                CST_OFFSET as int,
            ) == second_at(secs + 8 * 3600, 0),
{
    reveal_with_fuel(days_before_month, 2);
    let rest = hour * 3600 + minute * 60 + second;
    assert(0 <= rest < 86_400);
    assert((days * 86_400 + rest) / 86_400 == days && (days * 86_400 + rest) % 86_400 == rest);
    assert(rest / 3600 == hour);
    assert(rest / 60 == hour * 60 + minute);
    assert(rest / 60 % 60 == minute);
    assert(rest % 60 == second);
}

} // verus!
