//! Points in time.

use vstd::prelude::*;
use crate::text;

verus! {

/// A point in time: whole seconds since the start of 1970 in UTC, and
/// nanoseconds on top. The nanoseconds reach a second and beyond only inside a
/// leap second.
#[derive(Clone, Copy, PartialEq, Eq, Structural, Debug)]
pub struct Timestamp {
    pub secs: i64,
    pub nanos: u32,
}

/// The point in time that a timestamp such as `2026-08-09T07:30:05Z` stands
/// for, if a text is one.
pub uninterp spec fn rfc3339_time(written: Seq<char>) -> Option<Timestamp>;

/// `DateTime::parse_from_rfc3339` of the `chrono` crate, as seconds and
/// nanoseconds since the epoch; `None` for an error.
#[verifier::external_body]
pub(crate) fn parse_rfc3339(written: &str) -> (time: Option<Timestamp>)
    ensures
        time == rfc3339_time(written@),
{
    match chrono::DateTime::parse_from_rfc3339(written) {
        Ok(t) => Some(Timestamp { secs: t.timestamp(), nanos: t.timestamp_subsec_nanos() }),
        Err(_) => None,
    }
}

/// The second of the day.
pub open spec fn second_of_day(t: Timestamp) -> int {
    t.secs as int % 86_400
}

/// The time from `b` to `a` in nanoseconds, the leap second that one of them
/// lies in counted where it falls between them.
pub open spec fn elapsed(a: Timestamp, b: Timestamp) -> int {
    let leap = if second_of_day(a) > second_of_day(b) && b.nanos >= 1_000_000_000 {
        1int
    } else if second_of_day(a) < second_of_day(b) && a.nanos >= 1_000_000_000 {
        -1int
    } else {
        0int
    };
    (a.secs - b.secs + leap) * 1_000_000_000 + (a.nanos - b.nanos)
}

/// Whether two points in time are at least so many seconds apart, either way.
pub open spec fn apart_by(a: Timestamp, b: Timestamp, secs: u32) -> bool {
    elapsed(a, b) >= secs * 1_000_000_000 || elapsed(a, b) <= -(secs * 1_000_000_000)
}

fn day_second(secs: i64) -> (second: i64)
    ensures
        second == secs as int % 86_400,
{
    match secs.checked_rem_euclid(86_400) {
        Some(second) => second,
        None => 0,
    }
}

fn gap_nanos(a: Timestamp, b: Timestamp) -> (gap: i128)
    ensures
        gap == elapsed(a, b),
{
    let x: i64 = day_second(a.secs);
    let y: i64 = day_second(b.secs);
    let leap: i128 = if x > y && b.nanos >= 1_000_000_000 {
        1
    } else if x < y && a.nanos >= 1_000_000_000 {
        -1
    } else {
        0
    };
    (a.secs as i128 - b.secs as i128 + leap) * 1_000_000_000 + (a.nanos as i128 - b.nanos as i128)
}

/// Whether two points in time are at least so many seconds apart, either way.
pub fn are_apart_by(a: Timestamp, b: Timestamp, secs: u32) -> (yes: bool)
    ensures
        yes == apart_by(a, b, secs),
{
    let gap: i128 = gap_nanos(a, b);
    let limit: i128 = secs as i128 * 1_000_000_000;
    gap >= limit || gap <= -limit
}

/// The whole seconds from now until a point in time, if there is at least one.
pub open spec fn seconds_left(until: Timestamp, now: Timestamp) -> Option<int> {
    if elapsed(until, now) >= 1_000_000_000 {
        Some(elapsed(until, now) / 1_000_000_000)
    } else {
        None
    }
}

/// The whole seconds from now until a point in time, if there is at least one.
pub fn seconds_until(until: Timestamp, now: Timestamp) -> (secs: Option<u64>)
    requires
        clock_time(now),
    ensures
        seconds_left(until, now) == (match secs {
            Some(n) => Some(n as int),
            None => None,
        }),
{
    let gap: i128 = gap_nanos(until, now);
    if gap >= 1_000_000_000 {
        let secs: i128 = gap / 1_000_000_000;
        assert(secs <= u64::MAX);
        Some(secs as u64)
    } else {
        None
    }
}

/// Whether one point in time comes before another.
pub open spec fn before(a: Timestamp, b: Timestamp) -> bool {
    a.secs < b.secs || (a.secs == b.secs && a.nanos < b.nanos)
}

/// Whether one point in time comes before another.
pub fn is_before(a: Timestamp, b: Timestamp) -> (yes: bool)
    ensures
        yes == before(a, b),
{
    a.secs < b.secs || (a.secs == b.secs && a.nanos < b.nanos)
}

/// The first second of the calendar: the start of the year -262143.
pub const MIN_SECS: i64 = -8_334_601_228_800;

/// The last second of the calendar: the end of the year 262142.
pub const MAX_SECS: i64 = 8_210_266_876_799;

/// Whether the calendar has such a second.
pub open spec fn in_calendar(secs: int) -> bool {
    MIN_SECS <= secs <= MAX_SECS
}

/// Whether this is what a clock shows: the calendar has it, and it lies in no
/// leap second.
pub open spec fn clock_time(t: Timestamp) -> bool {
    in_calendar(t.secs as int) && t.nanos < 1_000_000_000
}

/// A second of the calendar.
#[derive(Clone, Copy, PartialEq, Eq, Structural, Debug)]
pub struct Civil {
    pub year: i32,
    pub month: u32,
    pub day: u32,
    pub hour: u32,
    pub minute: u32,
    pub second: u32,
}

/// Whether a year has 366 days.
pub open spec fn is_leap_year(year: int) -> bool {
    year % 4 == 0 && (year % 100 != 0 || year % 400 == 0)
}

/// The days of a month.
pub open spec fn days_in_month(year: int, month: int) -> int {
    if month == 2 {
        if is_leap_year(year) {
            29
        } else {
            28
        }
    } else if month == 4 || month == 6 || month == 9 || month == 11 {
        30
    } else {
        31
    }
}

/// The days of a year before a month.
pub open spec fn days_before_month(year: int, month: int) -> int
    decreases month,
{
    if month <= 1 {
        0
    } else {
        days_before_month(year, month - 1) + days_in_month(year, month - 1)
    }
}

/// The days from the start of the year 1 to the start of another year.
pub open spec fn days_before_year(year: int) -> int {
    365 * (year - 1) + (year - 1) / 4 - (year - 1) / 100 + (year - 1) / 400
}

/// The days from the start of the year 1 to the start of 1970.
pub open spec fn days_to_1970() -> int {
    719_162
}

/// Whether the calendar has such a second.
pub open spec fn civil_exists(c: Civil) -> bool {
    &&& -262_143 <= c.year <= 262_142
    &&& 1 <= c.month <= 12
    &&& 1 <= c.day <= days_in_month(c.year as int, c.month as int)
    &&& c.hour < 24
    &&& c.minute < 60
    &&& c.second < 60
}

/// The seconds from the start of 1970 to a second of the calendar.
pub open spec fn civil_secs(c: Civil) -> int {
    (days_before_year(c.year as int) + days_before_month(c.year as int, c.month as int) + c.day - 1
        - days_to_1970()) * 86_400 + c.hour * 3_600 + c.minute * 60 + c.second
}

/// `NaiveDate::from_ymd_opt` and `NaiveDate::and_hms_opt` of the `chrono` crate,
/// the result counted in seconds since the epoch by `DateTime::timestamp`. They
/// give nothing exactly where the proleptic Gregorian calendar has no such
/// second, or the year is out of range.
#[verifier::external_body]
pub(crate) fn from_civil(c: Civil) -> (secs: Option<i64>)
    ensures
        match secs {
            Some(n) => civil_exists(c) && n == civil_secs(c),
            None => !civil_exists(c),
        },
{
    match chrono::NaiveDate::from_ymd_opt(c.year, c.month, c.day) {
        Some(date) => match date.and_hms_opt(c.hour, c.minute, c.second) {
            Some(t) => Some(t.and_utc().timestamp()),
            None => None,
        },
        None => None,
    }
}

/// `DateTime::from_timestamp` of the `chrono` crate, its result taken apart: the
/// second of the proleptic Gregorian calendar that lies so many seconds after
/// the epoch.
#[verifier::external_body]
pub(crate) fn to_civil(secs: i64) -> (c: Civil)
    requires
        in_calendar(secs as int),
    ensures
        civil_exists(c) && civil_secs(c) == secs,
{
    let t = chrono::DateTime::from_timestamp(secs, 0).unwrap_or_default();
    Civil {
        year: chrono::Datelike::year(&t),
        month: chrono::Datelike::month(&t),
        day: chrono::Datelike::day(&t),
        hour: chrono::Timelike::hour(&t),
        minute: chrono::Timelike::minute(&t),
        second: chrono::Timelike::second(&t),
    }
}

/// The pattern that shows milliseconds.
pub const WITH_MILLIS: &'static str = "%Y-%m-%dT%H:%M:%S%.3fZ";

/// The pattern that shows whole seconds.
pub const WITH_SECONDS: &'static str = "%Y-%m-%dT%H:%M:%SZ";

/// A year: at least four digits, with a sign in front of those that do not lie
/// between 0 and 9999.
pub open spec fn year_text(year: int) -> Seq<char> {
    if year < 0 {
        "-"@ + text::padded((-year) as nat, 4)
    } else if year > 9_999 {
        "+"@ + text::padded(year as nat, 4)
    } else {
        text::padded(year as nat, 4)
    }
}

/// What a clock time looks like under one of the two patterns.
pub open spec fn utc_text(secs: int, nanos: int, pattern: Seq<char>) -> Seq<char> {
    let c = civil_of(secs);
    let millis = if pattern == WITH_MILLIS@ {
        "."@ + text::padded((nanos / 1_000_000) as nat, 3)
    } else {
        Seq::empty()
    };
    year_text(c.year as int) + "-"@ + text::two_digits(c.month as nat) + "-"@ + text::two_digits(
        c.day as nat,
    ) + "T"@ + text::two_digits(c.hour as nat) + ":"@ + text::two_digits(c.minute as nat) + ":"@
        + text::two_digits(c.second as nat) + millis + "Z"@
}

/// `DateTime::format` of the `chrono` crate, on a point in time in UTC: the year
/// with at least four digits, the other fields with two, and the fraction of
/// the second cut to three.
#[verifier::external_body]
pub(crate) fn format_utc(t: Timestamp, pattern: &str) -> (out: String)
    requires
        clock_time(t),
        pattern@ == WITH_MILLIS@ || pattern@ == WITH_SECONDS@,
    ensures
        out@ == utc_text(t.secs as int, t.nanos as int, pattern@),
{
    let time = chrono::DateTime::from_timestamp(t.secs, t.nanos).unwrap_or_default();
    time.format(pattern).to_string()
}

proof fn lemma_month_bound(year: int, month: int)
    requires
        1 <= month <= 13,
    ensures
        days_before_month(year, month) == (if month == 1 {
            0int
        } else if month == 2 {
            31
        } else {
            (if is_leap_year(year) {
                1int
            } else {
                0
            }) + (if month == 3 {
                59int
            } else if month == 4 {
                90
            } else if month == 5 {
                120
            } else if month == 6 {
                151
            } else if month == 7 {
                181
            } else if month == 8 {
                212
            } else if month == 9 {
                243
            } else if month == 10 {
                273
            } else if month == 11 {
                304
            } else if month == 12 {
                334
            } else {
                365
            })
        }),
    decreases month,
{
    if month > 1 {
        lemma_month_bound(year, month - 1);
    }
}

proof fn lemma_multiples(a: int)
    ensures
        a / 4 - (a - 1) / 4 == (if a % 4 == 0 {
            1int
        } else {
            0
        }),
        a / 100 - (a - 1) / 100 == (if a % 100 == 0 {
            1int
        } else {
            0
        }),
        a / 400 - (a - 1) / 400 == (if a % 400 == 0 {
            1int
        } else {
            0
        }),
{
    assert(a / 4 - (a - 1) / 4 == (if a % 4 == 0 {
        1int
    } else {
        0
    }));
    assert(a / 100 - (a - 1) / 100 == (if a % 100 == 0 {
        1int
    } else {
        0
    }));
}

proof fn lemma_next_year(a: int)
    ensures
        days_before_year(a + 1) == days_before_year(a) + 365 + (if is_leap_year(a) {
            1int
        } else {
            0
        }),
{
    lemma_multiples(a);
    assert(a % 400 == 0 ==> a % 100 == 0);
    assert(a % 100 == 0 ==> a % 4 == 0);
}

proof fn lemma_later_year(a: int, b: int)
    requires
        a < b,
    ensures
        days_before_year(a) + 365 + (if is_leap_year(a) {
            1int
        } else {
            0
        }) <= days_before_year(b),
    decreases b - a,
{
    lemma_next_year(b - 1);
    if a + 1 < b {
        lemma_later_year(a, b - 1);
    }
}

/// The days from the start of the year 1 to a second of the calendar.
spec fn day_number(c: Civil) -> int {
    days_before_year(c.year as int) + days_before_month(c.year as int, c.month as int) + c.day - 1
}

/// The seconds from the start of its day to a second of the calendar.
spec fn day_seconds(c: Civil) -> int {
    c.hour * 3_600 + c.minute * 60 + c.second
}

proof fn lemma_same_day(a: Civil, b: Civil)
    requires
        civil_exists(a),
        civil_exists(b),
        civil_secs(a) == civil_secs(b),
    ensures
        day_number(a) == day_number(b),
        day_seconds(a) == day_seconds(b),
{
    let x = day_number(a) - days_to_1970();
    let y = day_number(b) - days_to_1970();
    let s = day_seconds(a);
    let t = day_seconds(b);
    assert(0 <= s < 86_400 && 0 <= t < 86_400);
    assert(civil_secs(a) == x * 86_400 + s);
    assert(civil_secs(b) == y * 86_400 + t);
    assert(x == y && s == t) by (nonlinear_arith)
        requires
            x * 86_400 + s == y * 86_400 + t,
            0 <= s < 86_400,
            0 <= t < 86_400,
    ;
}

proof fn lemma_same_clock(a: Civil, b: Civil)
    requires
        civil_exists(a),
        civil_exists(b),
        day_seconds(a) == day_seconds(b),
    ensures
        a.hour == b.hour,
        a.minute == b.minute,
        a.second == b.second,
{
}

proof fn lemma_later_month(year: int, a: int, b: int)
    requires
        1 <= a < b,
    ensures
        days_before_month(year, a) + days_in_month(year, a) <= days_before_month(year, b),
    decreases b - a,
{
    if a + 1 < b {
        lemma_later_month(year, a, b - 1);
    }
}

proof fn lemma_day_in_year(c: Civil)
    requires
        civil_exists(c),
    ensures
        days_before_year(c.year as int) <= day_number(c) < days_before_year(c.year as int) + 365 + (
        if is_leap_year(c.year as int) {
            1int
        } else {
            0
        }),
{
    lemma_month_bound(c.year as int, c.month as int);
    lemma_month_bound(c.year as int, 13);
    lemma_later_month(c.year as int, c.month as int, 13);
}

/// Two seconds of the calendar that lie equally far from the epoch are the same.
pub proof fn law_calendar_is_unambiguous(a: Civil, b: Civil)
    requires
        civil_exists(a),
        civil_exists(b),
        civil_secs(a) == civil_secs(b),
    ensures
        a == b,
{
    lemma_same_day(a, b);
    lemma_same_clock(a, b);
    lemma_day_in_year(a);
    lemma_day_in_year(b);
    if a.year < b.year {
        lemma_later_year(a.year as int, b.year as int);
    } else if b.year < a.year {
        lemma_later_year(b.year as int, a.year as int);
    } else if a.month < b.month {
        lemma_later_month(a.year as int, a.month as int, b.month as int);
    } else if b.month < a.month {
        lemma_later_month(a.year as int, b.month as int, a.month as int);
    }
}

/// Every second of the calendar lies between its ends.
pub proof fn lemma_civil_range(c: Civil)
    requires
        civil_exists(c),
    ensures
        in_calendar(civil_secs(c)),
{
    lemma_month_bound(c.year as int, c.month as int);
    lemma_month_bound(c.year as int, c.month + 1);
    if c.year < 262_142 {
        lemma_later_year(c.year as int, 262_142);
    }
    if c.year > -262_143 {
        lemma_later_year(-262_143, c.year as int);
    }
}

/// The second of the calendar that lies so many seconds after the epoch.
pub open spec fn civil_of(secs: int) -> Civil {
    choose|c: Civil| civil_exists(c) && #[trigger] civil_secs(c) == secs
}

/// The second of the calendar that lies so many seconds after the epoch.
pub fn civil_at(secs: i64) -> (c: Civil)
    requires
        in_calendar(secs as int),
    ensures
        c == civil_of(secs as int),
        civil_exists(c),
        civil_secs(c) == secs,
{
    let c = to_civil(secs);
    proof {
        law_calendar_is_unambiguous(c, civil_of(secs as int));
    }
    c
}

/// Between two points in time that are no leap seconds lies the difference of their
/// seconds and nanoseconds. Two of them are apart by some seconds if it is that many or
/// more, either way, and what is left until one is told in whole seconds, if it is one or
/// more.
pub proof fn law_time_elapses_evenly(a: Timestamp, b: Timestamp, secs: u32)
    requires
        a.nanos < 1_000_000_000,
        b.nanos < 1_000_000_000,
    ensures
        elapsed(a, b) == (a.secs - b.secs) * 1_000_000_000 + a.nanos - b.nanos,
        elapsed(b, a) == -elapsed(a, b),
        apart_by(a, b, secs) <==> (elapsed(a, b) >= secs as int * 1_000_000_000 || elapsed(b, a)
            >= secs as int * 1_000_000_000),
        before(a, b) <==> elapsed(b, a) > 0,
        elapsed(a, b) < 1_000_000_000 ==> seconds_left(a, b) is None,
        elapsed(a, b) >= 1_000_000_000 ==> (seconds_left(a, b) matches Some(n) && n * 1_000_000_000
            <= elapsed(a, b) < (n + 1) * 1_000_000_000),
{
}

/// A leap year is one in four, but for the centuries, of which it is one in four. A month
/// has 31 days, or 30 in April, June, September and November, or 28 in February, or 29 in
/// a leap year's. The calendar counts from the start of 1970, and every day has 86400
/// seconds.
pub proof fn law_the_calendar_is_the_common_one(c: Civil, year: int)
    ensures
        is_leap_year(year) <==> (year % 400 == 0 || (year % 4 == 0 && year % 100 != 0)),
        days_in_month(year, 2) == (if is_leap_year(year) {
            29int
        } else {
            28
        }),
        days_in_month(year, 4) == 30 && days_in_month(year, 6) == 30 && days_in_month(year, 9) == 30
            && days_in_month(year, 11) == 30,
        days_in_month(year, 1) == 31 && days_in_month(year, 3) == 31 && days_in_month(year, 5) == 31
            && days_in_month(year, 7) == 31 && days_in_month(year, 8) == 31 && days_in_month(
            year,
            10,
        ) == 31 && days_in_month(year, 12) == 31,
        days_before_year(year + 1) - days_before_year(year) == (if is_leap_year(year) {
            366int
        } else {
            365
        }),
        c.year == 1970 && c.month == 1 && c.day == 1 ==> civil_secs(c) == c.hour * 3_600 + c.minute
            * 60 + c.second,
{
    lemma_next_year(year);
    lemma_month_bound(1970, 1);
}

} // verus!
