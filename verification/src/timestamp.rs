//! UTC timestamps of diagnostic lines: ISO 8601 with milliseconds.
use crate::order::{
    nothing_precedes_itself, numerals_compare_like_numbers, parts_compare_in_turn, power_of_ten,
    text_less,
};
use crate::text::{padded, padded_text, signed_padded, signed_padded_text};
use vstd::prelude::*;

verus! {

/// Seconds in a day.
pub const SECONDS_PER_DAY: i64 = 86_400;

/// Leap years of the Gregorian calendar.
pub open spec fn is_leap(year: int) -> bool {
    year % 4 == 0 && (year % 100 != 0 || year % 400 == 0)
}

/// The number of days of a month.
pub open spec fn days_in_month(year: int, month: int) -> int {
    if month == 2 {
        if is_leap(year) {
            29
        } else {
            28
        }
    } else if month == 4 || month == 6 || month == 9 || month == 11 {
        30
    } else {
        31
    }
}

/// The number of days of a year.
pub open spec fn days_in_year(year: int) -> int {
    if is_leap(year) {
        366
    } else {
        365
    }
}

/// Days from 1 January 1970 to 1 January of `year`, negative before 1970.
pub open spec fn year_start(year: int) -> int {
    365 * (year - 1970) + (year - 1) / 4 - (year - 1) / 100 + (year - 1) / 400 - 477
}

/// Days from the first day of the year to the first day of `month`.
pub open spec fn month_start(year: int, month: int) -> int
    decreases month,
{
    if month <= 1 {
        0
    } else {
        month_start(year, month - 1) + days_in_month(year, month - 1)
    }
}

/// A day of the calendar.
pub struct CivilDate {
    pub year: i64,
    pub month: i64,
    pub day: i64,
}

impl CivilDate {
    /// The date exists in the calendar.
    pub open spec fn valid(self) -> bool {
        &&& 1 <= self.month <= 12
        &&& 1 <= self.day <= days_in_month(self.year as int, self.month as int)
    }

    /// Days since 1 January 1970.
    pub open spec fn day_number(self) -> int {
        year_start(self.year as int) + month_start(self.year as int, self.month as int) + self.day
            - 1
    }
}

/// Reads the second count as a signed 64-bit number.
pub open spec fn signed_seconds(seconds: u64) -> int {
    if seconds > i64::MAX {
        seconds - 0x1_0000_0000_0000_0000
    } else {
        seconds as int
    }
}

/// The calendar day on which a second falls.
pub open spec fn date_of(seconds: u64) -> CivilDate {
    choose|date: CivilDate|
        #[trigger] date.valid() && date.day_number() == signed_seconds(seconds) / 86_400
}

/// A date with its year, month and day.
pub open spec fn date_text(date: CivilDate) -> Seq<char> {
    signed_padded_text(date.year as int, 4) + "-"@ + padded_text(date.month as nat, 2) + "-"@
        + padded_text(date.day as nat, 2)
}

/// A text continued by the time of a day, with its hour, minute and second.
pub open spec fn with_time(date: Seq<char>, second_of_day: int) -> Seq<char> {
    date + "T"@ + padded_text((second_of_day / 3_600) as nat, 2) + ":"@ + padded_text(
        (second_of_day % 3_600 / 60) as nat,
        2,
    ) + ":"@ + padded_text((second_of_day % 60) as nat, 2)
}

/// The timestamp of `seconds` and `millis` after the Unix epoch.
pub open spec fn timestamp_text(seconds: u64, millis: u32) -> Seq<char> {
    with_time(date_text(date_of(seconds)), signed_seconds(seconds) % 86_400) + "."@ + padded_text(
        millis as nat,
        3,
    ) + "Z"@
}

/// Each year begins where the previous one ends, and 1970 begins at day zero.
pub proof fn years_are_contiguous(year: int)
    ensures
        year_start(1970) == 0,
        year_start(year + 1) == year_start(year) + days_in_year(year),
        month_start(year, 12) + days_in_month(year, 12) == days_in_year(year),
{
    reveal_with_fuel(month_start, 13);
}

proof fn month_start_table(year: int)
    ensures
        month_start(year, 1) == 0,
        month_start(year, 2) == 31,
        month_start(year, 3) == 31 + days_in_month(year, 2),
        month_start(year, 4) == month_start(year, 3) + 31,
        month_start(year, 5) == month_start(year, 3) + 61,
        month_start(year, 6) == month_start(year, 3) + 92,
        month_start(year, 7) == month_start(year, 3) + 122,
        month_start(year, 8) == month_start(year, 3) + 153,
        month_start(year, 9) == month_start(year, 3) + 184,
        month_start(year, 10) == month_start(year, 3) + 214,
        month_start(year, 11) == month_start(year, 3) + 245,
        month_start(year, 12) == month_start(year, 3) + 275,
{
    reveal_with_fuel(month_start, 13);
}

proof fn year_starts_grow(a: int, b: int)
    requires
        a < b,
    ensures
        year_start(a) + days_in_year(a) <= year_start(b),
    decreases b - a,
{
    years_are_contiguous(b - 1);
    if a < b - 1 {
        year_starts_grow(a, b - 1);
    } else {
        assert(a == b - 1);
    }
}

proof fn date_within_year(date: CivilDate)
    requires
        date.valid(),
    ensures
        year_start(date.year as int) <= date.day_number() < year_start(date.year as int)
            + days_in_year(date.year as int),
{
    month_start_table(date.year as int);
}

/// A day count belongs to at most one date.
pub proof fn dates_are_unique(a: CivilDate, b: CivilDate)
    requires
        a.valid(),
        b.valid(),
        a.day_number() == b.day_number(),
    ensures
        a == b,
{
    date_within_year(a);
    date_within_year(b);
    if a.year < b.year {
        year_starts_grow(a.year as int, b.year as int);
    } else if b.year < a.year {
        year_starts_grow(b.year as int, a.year as int);
    }
    month_start_table(a.year as int);
}

/// Dates follow each other as their day counts do.
pub proof fn dates_are_ordered(a: CivilDate, b: CivilDate)
    requires
        a.valid(),
        b.valid(),
    ensures
        a.day_number() < b.day_number() <==> a.year < b.year || (a.year == b.year && (a.month
            < b.month || (a.month == b.month && a.day < b.day))),
{
    date_within_year(a);
    date_within_year(b);
    if a.year < b.year {
        year_starts_grow(a.year as int, b.year as int);
    } else if b.year < a.year {
        year_starts_grow(b.year as int, a.year as int);
    }
    month_start_table(a.year as int);
}

/// Where the day `day_of_era` of a cycle of 400 years that begin on 1 March lies
/// within its year.
proof fn year_of_era_bounds(day_of_era: int, year_of_era: int)
    requires
        0 <= day_of_era < 146_097,
        year_of_era == (day_of_era - day_of_era / 1_460 + day_of_era / 36_524 - day_of_era
            / 146_096) / 365,
    ensures
        0 <= year_of_era < 400,
        365 * year_of_era + year_of_era / 4 - year_of_era / 100 <= day_of_era,
        year_of_era < 399 ==> day_of_era < 365 * (year_of_era + 1) + (year_of_era + 1) / 4 - (
        year_of_era + 1) / 100,
{
    let century = day_of_era / 36_524;
    assert(0 <= century <= 4);
    if century == 4 {
        assert(day_of_era == 146_096);
    } else if century == 3 {
    } else if century == 2 {
    } else if century == 1 {
    } else {
    }
}

/// The start of the year that lies `year_of_era` years into the cycle `era`.
proof fn year_start_in_era(era: int, year_of_era: int)
    requires
        0 <= year_of_era < 400,
    ensures
        year_start(400 * era + year_of_era) + 59 + (if is_leap(400 * era + year_of_era) {
            1int
        } else {
            0int
        }) == 146_097 * era + 365 * year_of_era + year_of_era / 4 - year_of_era / 100 - 719_468,
{
    let year = 400 * era + year_of_era;
    assert(year % 4 == year_of_era % 4);
    assert(year % 100 == year_of_era % 100);
    assert(year % 400 == year_of_era);
    assert((year - 1) / 4 == 100 * era + (year_of_era - 1) / 4);
    assert((year - 1) / 100 == 4 * era + (year_of_era - 1) / 100);
    assert((year - 1) / 400 == era + (year_of_era - 1) / 400);
}

/// The month and day of the day `day_of_year` of a year that begins on 1 March of
/// `march_year`.
proof fn month_of_march_year(march_year: int, day_of_year: int, month_prime: int, date: CivilDate)
    requires
        0 <= day_of_year < 365 || (day_of_year == 365 && is_leap(march_year + 1)),
        month_prime == (5 * day_of_year + 2) / 153,
        date.day == day_of_year - (153 * month_prime + 2) / 5 + 1,
        date.month == if month_prime < 10 {
            month_prime + 3
        } else {
            month_prime - 9
        },
        date.year == if month_prime < 10 {
            march_year
        } else {
            march_year + 1
        },
    ensures
        date.valid(),
        date.day_number() == year_start(march_year) + month_start(march_year, 3) + day_of_year,
{
    month_start_table(march_year);
    years_are_contiguous(march_year);
    month_start_table(march_year + 1);
    assert(0 <= month_prime <= 11);
    assert(year_start(march_year + 1) == year_start(march_year) + month_start(march_year, 3) + 306);
    if month_prime == 0 {
    } else if month_prime == 1 {
    } else if month_prime == 2 {
    } else if month_prime == 3 {
    } else if month_prime == 4 {
    } else if month_prime == 5 {
    } else if month_prime == 6 {
    } else if month_prime == 7 {
    } else if month_prime == 8 {
    } else if month_prime == 9 {
    } else if month_prime == 10 {
    } else {
    }
}

/// The length of a year that begins on 1 March: day 365 exists where the February
/// in it has a leap day.
proof fn day_of_march_year(era: int, year_of_era: int, day_of_year: int)
    requires
        0 <= year_of_era < 400,
        0 <= day_of_year,
        year_of_era < 399 ==> 365 * year_of_era + year_of_era / 4 - year_of_era / 100 + day_of_year
            < 365 * (year_of_era + 1) + (year_of_era + 1) / 4 - (year_of_era + 1) / 100,
        year_of_era == 399 ==> day_of_year <= 365,
    ensures
        day_of_year < 365 || (day_of_year == 365 && is_leap(400 * era + year_of_era + 1)),
{
    let year = 400 * era + year_of_era + 1;
    assert(year % 4 == (year_of_era + 1) % 4);
    assert(year % 100 == (year_of_era + 1) % 100);
    if year_of_era == 399 {
        assert(year == 400 * (era + 1));
        assert(year % 400 == 0);
    }
}

/// Every day within reach has a date.
proof fn every_day_has_a_date(days: int) -> (date: CivilDate)
    requires
        -200_000_000_000_000 <= days <= 200_000_000_000_000,
    ensures
        date.valid(),
        date.day_number() == days,
{
    let z = days + 719_468;
    let era = z / 146_097;
    let day_of_era = z % 146_097;
    let year_of_era = (day_of_era - day_of_era / 1_460 + day_of_era / 36_524 - day_of_era
        / 146_096) / 365;
    year_of_era_bounds(day_of_era, year_of_era);
    let day_of_year = day_of_era - (365 * year_of_era + year_of_era / 4 - year_of_era / 100);
    day_of_march_year(era, year_of_era, day_of_year);
    let month_prime = (5 * day_of_year + 2) / 153;
    let march_year = 400 * era + year_of_era;
    let date = CivilDate {
        year: (if month_prime < 10 {
            march_year
        } else {
            march_year + 1
        }) as i64,
        month: (if month_prime < 10 {
            month_prime + 3
        } else {
            month_prime - 9
        }) as i64,
        day: (day_of_year - (153 * month_prime + 2) / 5 + 1) as i64,
    };
    month_of_march_year(march_year, day_of_year, month_prime, date);
    year_start_in_era(era, year_of_era);
    month_start_table(march_year);
    date
}

/// Every second falls on a day of the calendar, which `date_of` gives.
pub proof fn every_second_has_a_date(seconds: u64)
    ensures
        date_of(seconds).valid(),
        date_of(seconds).day_number() == signed_seconds(seconds) / 86_400,
{
    let date = every_day_has_a_date(signed_seconds(seconds) / 86_400);
    assert(date.valid() && date.day_number() == signed_seconds(seconds) / 86_400);
}

/// The date that lies `days` days after 1 January 1970.
fn civil_from_days(days: i64) -> (date: CivilDate)
    requires
        -200_000_000_000_000 <= days <= 200_000_000_000_000,
    ensures
        date.valid(),
        date.day_number() == days,
{
    // The era is a cycle of 400 years; its years begin on 1 March, so that the
    // leap day is the last day of a year.
    let z: i64 = days + 719_468;
    let era: i64 = if z >= 0 {
        z / 146_097
    } else {
        -((146_096 - z) / 146_097)
    };
    let day_of_era: i64 = z - era * 146_097;
    assert(0 <= day_of_era < 146_097);
    let year_of_era: i64 = (day_of_era - day_of_era / 1_460 + day_of_era / 36_524 - day_of_era
        / 146_096) / 365;
    proof {
        year_of_era_bounds(day_of_era as int, year_of_era as int);
    }
    let day_of_year: i64 = day_of_era - (365 * year_of_era + year_of_era / 4 - year_of_era / 100);
    proof {
        day_of_march_year(era as int, year_of_era as int, day_of_year as int);
    }
    let month_prime: i64 = (5 * day_of_year + 2) / 153;
    let day: i64 = day_of_year - (153 * month_prime + 2) / 5 + 1;
    let month: i64 = if month_prime < 10 {
        month_prime + 3
    } else {
        month_prime - 9
    };
    let march_year: i64 = year_of_era + era * 400;
    let year: i64 = if month <= 2 {
        march_year + 1
    } else {
        march_year
    };
    let date = CivilDate { year, month, day };
    proof {
        month_of_march_year(march_year as int, day_of_year as int, month_prime as int, date);
        year_start_in_era(era as int, year_of_era as int);
        month_start_table(march_year as int);
    }
    date
}

/// Writes the instant `seconds` and `millis` after the Unix epoch as an ISO 8601
/// timestamp in UTC. The second count is read as a signed 64-bit number.
pub fn format_utc_timestamp(seconds: u64, millis: u32) -> (text: String)
    ensures
        text@ == timestamp_text(seconds, millis),
{
    let total_seconds: i64 = if seconds > 0x7fff_ffff_ffff_ffff {
        (seconds - 0x8000_0000_0000_0000) as i64 + i64::MIN
    } else {
        seconds as i64
    };
    let mut days: i64 = total_seconds / SECONDS_PER_DAY;
    let mut second_of_day: i64 = total_seconds % SECONDS_PER_DAY;
    if second_of_day < 0 {
        days = days - 1;
        second_of_day = second_of_day + SECONDS_PER_DAY;
    }
    assert(days == signed_seconds(seconds) / 86_400 && second_of_day == signed_seconds(seconds)
        % 86_400);
    let date = civil_from_days(days);
    proof {
        assert(date.valid());
        dates_are_unique(date, date_of(seconds));
    }
    let mut text = signed_padded(date.year, 4);
    text.append("-");
    text.append(padded(date.month as u64, 2).as_str());
    text.append("-");
    text.append(padded(date.day as u64, 2).as_str());
    text.append("T");
    text.append(padded((second_of_day / 3_600) as u64, 2).as_str());
    text.append(":");
    text.append(padded((second_of_day % 3_600 / 60) as u64, 2).as_str());
    text.append(":");
    text.append(padded((second_of_day % 60) as u64, 2).as_str());
    text.append(".");
    text.append(padded(millis as u64, 3).as_str());
    text.append("Z");
    text
}

/// The first second of the year 10000.
pub const FIVE_DIGIT_YEARS: u64 = 253_402_300_800;

/// Seconds in 400 years of the calendar.
pub const SECONDS_PER_ERA: u64 = 12_622_780_800;

/// The years of the first eight millennia of timestamps have four digits.
proof fn years_have_four_digits(seconds: u64)
    requires
        seconds < FIVE_DIGIT_YEARS,
    ensures
        date_of(seconds).valid(),
        date_of(seconds).day_number() == seconds as int / 86_400,
        1970 <= date_of(seconds).year <= 9999,
{
    every_second_has_a_date(seconds);
    let date = date_of(seconds);
    date_within_year(date);
    if date.year < 1970 {
        year_starts_grow(date.year as int, 1970);
    }
    if date.year > 10_000 {
        year_starts_grow(10_000, date.year as int);
    }
}

/// The texts have the same length, and how they compare is known.
#[verifier::opaque]
spec fn compares(less: bool, equal: bool, p: Seq<char>, q: Seq<char>) -> bool {
    &&& p.len() == q.len()
    &&& text_less(p, q) <==> less
    &&& p == q <==> equal
}

proof fn add_separator(less: bool, equal: bool, p: Seq<char>, q: Seq<char>, x: Seq<char>)
    requires
        compares(less, equal, p, q),
    ensures
        compares(less, equal, p + x, q + x),
{
    reveal(compares);
    parts_compare_in_turn(p, q, x, x);
    nothing_precedes_itself(x);
}

proof fn add_field(
    less: bool,
    equal: bool,
    p: Seq<char>,
    q: Seq<char>,
    a: nat,
    b: nat,
    width: nat,
)
    requires
        compares(less, equal, p, q),
        width >= 1,
        a < power_of_ten(width),
        b < power_of_ten(width),
    ensures
        compares(
            less || (equal && a < b),
            equal && a == b,
            p + padded_text(a, width as int),
            q + padded_text(b, width as int),
        ),
{
    reveal(compares);
    numerals_compare_like_numbers(a, b, width);
    parts_compare_in_turn(p, q, padded_text(a, width as int), padded_text(b, width as int));
}

proof fn dates_sort(a: CivilDate, b: CivilDate)
    requires
        a.valid(),
        b.valid(),
        0 <= a.year <= 9999,
        0 <= b.year <= 9999,
    ensures
        compares(
            a.day_number() < b.day_number(),
            a.day_number() == b.day_number(),
            date_text(a),
            date_text(b),
        ),
{
    reveal_with_fuel(power_of_ten, 5);
    dates_are_ordered(a, b);
    dates_are_ordered(b, a);
    let p = padded_text(a.year as nat, 4);
    let q = padded_text(b.year as nat, 4);
    numerals_compare_like_numbers(a.year as nat, b.year as nat, 4);
    let less = a.year < b.year;
    let equal = a.year == b.year;
    assert(compares(less, equal, p, q)) by {
        reveal(compares);
    }
    add_separator(less, equal, p, q, "-"@);
    let (p, q) = (p + "-"@, q + "-"@);
    add_field(less, equal, p, q, a.month as nat, b.month as nat, 2);
    let (p, q) = (p + padded_text(a.month as nat, 2), q + padded_text(b.month as nat, 2));
    let less = less || (equal && a.month < b.month);
    let equal = equal && a.month == b.month;
    add_separator(less, equal, p, q, "-"@);
    add_field(less, equal, p + "-"@, q + "-"@, a.day as nat, b.day as nat, 2);
}

proof fn times_sort(less: bool, equal: bool, p: Seq<char>, q: Seq<char>, a: int, b: int)
    requires
        compares(less, equal, p, q),
        0 <= a < 86_400,
        0 <= b < 86_400,
    ensures
        compares(less || (equal && a < b), equal && a == b, with_time(p, a), with_time(q, b)),
{
    reveal_with_fuel(power_of_ten, 5);
    let (ah, bh) = (a / 3_600, b / 3_600);
    let (am, bm) = (a % 3_600 / 60, b % 3_600 / 60);
    let (az, bz) = (a % 60, b % 60);
    add_separator(less, equal, p, q, "T"@);
    let (p, q) = (p + "T"@, q + "T"@);
    add_field(less, equal, p, q, ah as nat, bh as nat, 2);
    let (p, q) = (p + padded_text(ah as nat, 2), q + padded_text(bh as nat, 2));
    let less = less || (equal && ah < bh);
    let equal = equal && ah == bh;
    add_separator(less, equal, p, q, ":"@);
    let (p, q) = (p + ":"@, q + ":"@);
    add_field(less, equal, p, q, am as nat, bm as nat, 2);
    let (p, q) = (p + padded_text(am as nat, 2), q + padded_text(bm as nat, 2));
    let less = less || (equal && am < bm);
    let equal = equal && am == bm;
    add_separator(less, equal, p, q, ":"@);
    add_field(less, equal, p + ":"@, q + ":"@, az as nat, bz as nat, 2);
}

/// Timestamps sort by time: up to the year 9999 the earlier moment has the smaller text,
/// and only the same millisecond has the same text.
pub proof fn timestamps_sort_by_time(
    a_seconds: u64,
    a_millis: u32,
    b_seconds: u64,
    b_millis: u32,
)
    requires
        a_seconds < FIVE_DIGIT_YEARS,
        b_seconds < FIVE_DIGIT_YEARS,
        a_millis < 1_000,
        b_millis < 1_000,
    ensures
        text_less(
            timestamp_text(a_seconds, a_millis),
            timestamp_text(b_seconds, b_millis),
        ) <==> 1_000 * a_seconds + a_millis < 1_000 * b_seconds + b_millis,
        timestamp_text(a_seconds, a_millis) == timestamp_text(b_seconds, b_millis) <==> 1_000
            * a_seconds + a_millis == 1_000 * b_seconds + b_millis,
{
    reveal_with_fuel(power_of_ten, 5);
    years_have_four_digits(a_seconds);
    years_have_four_digits(b_seconds);
    let a = date_of(a_seconds);
    let b = date_of(b_seconds);
    dates_sort(a, b);
    times_sort(
        a.day_number() < b.day_number(),
        a.day_number() == b.day_number(),
        date_text(a),
        date_text(b),
        a_seconds as int % 86_400,
        b_seconds as int % 86_400,
    );
    let p = with_time(date_text(a), a_seconds as int % 86_400);
    let q = with_time(date_text(b), b_seconds as int % 86_400);
    let less = a_seconds < b_seconds;
    let equal = a_seconds == b_seconds;
    assert(compares(less, equal, p, q));
    add_separator(less, equal, p, q, "."@);
    let (p, q) = (p + "."@, q + "."@);
    add_field(less, equal, p, q, a_millis as nat, b_millis as nat, 3);
    let (p, q) = (p + padded_text(a_millis as nat, 3), q + padded_text(b_millis as nat, 3));
    let less = less || (equal && a_millis < b_millis);
    let equal = equal && a_millis == b_millis;
    add_separator(less, equal, p, q, "Z"@);
    reveal(compares);
}

/// Two texts that differ at most in their first four characters.
spec fn same_after_year(p: Seq<char>, q: Seq<char>) -> bool {
    p.len() >= 4 && q.len() >= 4 && p.skip(4) == q.skip(4)
}

proof fn append_to_both(p: Seq<char>, q: Seq<char>, x: Seq<char>)
    requires
        same_after_year(p, q),
    ensures
        same_after_year(p + x, q + x),
        (p + x).take(4) == p.take(4),
        (q + x).take(4) == q.take(4),
{
    assert((p + x).skip(4) =~= p.skip(4) + x);
    assert((q + x).skip(4) =~= q.skip(4) + x);
    assert((p + x).take(4) =~= p.take(4));
    assert((q + x).take(4) =~= q.take(4));
}

/// The calendar repeats every 400 years: that much later a timestamp has the same month,
/// day and time, and its year is 400 more.
pub proof fn calendar_repeats(seconds: u64, millis: u32)
    requires
        seconds < FIVE_DIGIT_YEARS - SECONDS_PER_ERA,
    ensures
        ({
            let later = (seconds + SECONDS_PER_ERA) as u64;
            let date = date_of(seconds);
            let text = timestamp_text(seconds, millis);
            let later_text = timestamp_text(later, millis);
            &&& date_of(later) == (CivilDate { year: (date.year + 400) as i64, ..date })
            &&& text.take(4) == padded_text(date.year as nat, 4)
            &&& later_text.take(4) == padded_text((date.year + 400) as nat, 4)
            &&& later_text.skip(4) == text.skip(4)
        }),
{
    reveal_with_fuel(power_of_ten, 5);
    let later = (seconds + SECONDS_PER_ERA) as u64;
    years_have_four_digits(seconds);
    years_have_four_digits(later);
    let date = date_of(seconds);
    let moved = CivilDate { year: (date.year + 400) as i64, ..date };
    let year = date.year as int;
    assert(is_leap(year + 400) == is_leap(year));
    month_start_table(year);
    month_start_table(year + 400);
    assert(moved.valid());
    assert(year_start(year + 400) == year_start(year) + 146_097);
    assert(month_start(year + 400, date.month as int) == month_start(year, date.month as int));
    assert(moved.day_number() == date.day_number() + 146_097);
    assert(later as int / 86_400 == seconds as int / 86_400 + 146_097);
    assert(later as int % 86_400 == seconds as int % 86_400);
    dates_are_unique(moved, date_of(later));

    let t = seconds as int % 86_400;
    let p = padded_text(year as nat, 4);
    let q = padded_text((year + 400) as nat, 4);
    numerals_compare_like_numbers(year as nat, (year + 400) as nat, 4);
    assert(p.skip(4) =~= q.skip(4));
    assert(p.take(4) =~= p);
    assert(q.take(4) =~= q);
    append_to_both(p, q, "-"@);
    let (p, q) = (p + "-"@, q + "-"@);
    append_to_both(p, q, padded_text(date.month as nat, 2));
    let (p, q) = (p + padded_text(date.month as nat, 2), q + padded_text(date.month as nat, 2));
    append_to_both(p, q, "-"@);
    let (p, q) = (p + "-"@, q + "-"@);
    append_to_both(p, q, padded_text(date.day as nat, 2));
    let (p, q) = (p + padded_text(date.day as nat, 2), q + padded_text(date.day as nat, 2));
    append_to_both(p, q, "T"@);
    let (p, q) = (p + "T"@, q + "T"@);
    let h = padded_text((t / 3_600) as nat, 2);
    append_to_both(p, q, h);
    append_to_both(p + h, q + h, ":"@);
    let (p, q) = (p + h + ":"@, q + h + ":"@);
    let m = padded_text((t % 3_600 / 60) as nat, 2);
    append_to_both(p, q, m);
    append_to_both(p + m, q + m, ":"@);
    let (p, q) = (p + m + ":"@, q + m + ":"@);
    let z = padded_text((t % 60) as nat, 2);
    append_to_both(p, q, z);
    append_to_both(p + z, q + z, "."@);
    let (p, q) = (p + z + "."@, q + z + "."@);
    let f = padded_text(millis as nat, 3);
    append_to_both(p, q, f);
    append_to_both(p + f, q + f, "Z"@);
    assert(p + f + "Z"@ == timestamp_text(seconds, millis));
    assert(q + f + "Z"@ == timestamp_text(later, millis));
}

/// A reading of the wall clock (`std::time::SystemTime`).
#[verifier::external_type_specification]
#[verifier::external_body]
pub struct ExSystemTime(std::time::SystemTime);

/// The answer that a clock reading lies before the reference point
/// (`std::time::SystemTimeError`).
#[verifier::external_type_specification]
#[verifier::external_body]
pub struct ExSystemTimeError(std::time::SystemTimeError);

/// `std::time::SystemTime::now`: the time at the moment of the call; nothing is
/// claimed of it.
pub assume_specification[ std::time::SystemTime::now ]() -> (now: std::time::SystemTime)
;

/// `std::time::SystemTime::duration_since` with the Unix epoch as the reference
/// point; nothing is claimed of the distance.
#[verifier::external_body]
fn since_unix_epoch(now: &std::time::SystemTime) -> (elapsed: Result<
    std::time::Duration,
    std::time::SystemTimeError,
>) {
    now.duration_since(std::time::UNIX_EPOCH)
}

/// `std::time::Duration::as_secs`: the whole seconds of a duration; nothing is
/// claimed of their number.
pub assume_specification[ std::time::Duration::as_secs ](duration: &std::time::Duration) -> (seconds:
    u64)
;

/// `std::time::Duration::subsec_millis`: the milliseconds of the fraction of a
/// second, fewer than a thousand.
pub assume_specification[ std::time::Duration::subsec_millis ](
    duration: &std::time::Duration,
) -> (millis: u32)
    ensures
        millis < 1_000,
;

/// The timestamp of a clock reading, in seconds and milliseconds since the Unix epoch;
/// a clock set before the epoch has no such reading.
pub open spec fn reading_text(reading: Option<(u64, u32)>) -> Seq<char> {
    match reading {
        Some((seconds, millis)) => timestamp_text(seconds, millis),
        None => timestamp_text(0, 0),
    }
}

/// The timestamp of a clock reading. A clock set before the Unix epoch reads as the
/// epoch.
pub fn timestamp_at(reading: Option<(u64, u32)>) -> (text: String)
    ensures
        text@ == reading_text(reading),
{
    match reading {
        Some((seconds, millis)) => format_utc_timestamp(seconds, millis),
        None => format_utc_timestamp(0, 0),
    }
}

/// The timestamp of the present moment: that of some reading of the clock.
pub fn utc_timestamp() -> (text: String)
    ensures
        exists|reading: Option<(u64, u32)>|
            (reading matches Some((_, millis)) ==> millis < 1_000) && text@
                == #[trigger] reading_text(reading),
{
    let reading = match since_unix_epoch(&std::time::SystemTime::now()) {
        Ok(elapsed) => Some((elapsed.as_secs(), elapsed.subsec_millis())),
        Err(_) => None,
    };
    timestamp_at(reading)
}

} // verus!
