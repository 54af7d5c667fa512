//! Moments and local date-times, and their text.
use vstd::prelude::*;
use chrono::{Datelike, Timelike};
use crate::numbers::{decimal, two_digits};

verus! {

/// A point in time: seconds since the start of 1970 in UTC, and nanoseconds
/// on top.
#[derive(Debug, Clone, Copy, PartialEq, Eq, Structural)]
pub struct Moment {
    pub seconds: i64,
    pub nanos: u32,
}

/// The seconds that a [`Moment`] can be from the start of 1970: over eighty
/// thousand years, within which milliseconds between two moments have at most 53
/// binary digits.
pub const MOMENT_LIMIT: i64 = 2_800_000_000_000;

impl Moment {
    /// Whether this is a moment of the supported years. A leap second counts
    /// on past the last second of its minute.
    pub open spec fn valid(self) -> bool {
        &&& -MOMENT_LIMIT <= self.seconds <= MOMENT_LIMIT
        &&& self.nanos < 1_000_000_000 || (self.nanos < 2_000_000_000 && self.seconds % 60 == 59)
    }

    /// Whether this moment comes after another.
    pub open spec fn after(self, other: Moment) -> bool {
        self.seconds > other.seconds || (self.seconds == other.seconds && self.nanos
            > other.nanos)
    }

    /// Whether this moment comes after another.
    pub fn is_after(&self, other: &Moment) -> (r: bool)
        ensures
            r == self.after(*other),
    {
        self.seconds > other.seconds || (self.seconds == other.seconds && self.nanos > other.nanos)
    }

    /// Whether this is a moment of the supported years.
    pub fn is_valid(&self) -> (r: bool)
        ensures
            r == self.valid(),
    {
        -MOMENT_LIMIT <= self.seconds && self.seconds <= MOMENT_LIMIT && (self.nanos
            < 1_000_000_000 || (self.nanos < 2_000_000_000 && (self.seconds >= 0 && self.seconds
            % 60 == 59 || self.seconds < 0 && (self.seconds + 60 * MOMENT_LIMIT) % 60 == 59)))
    }
}

/// `a` over `b`, rounded toward zero.
pub open spec fn toward_zero(a: int, b: int) -> int {
    if a < 0 {
        -((-a) / b)
    } else {
        a / b
    }
}

/// The second of the day, in UTC.
pub open spec fn second_of_day(m: Moment) -> int {
    m.seconds as int % 86_400
}

/// A leap second that lies between two moments, counted toward the later one.
/// One is seen only where the times of day stand in the order of the moments.
pub open spec fn leap_between(a: Moment, b: Moment) -> int {
    if second_of_day(a) > second_of_day(b) && b.nanos >= 1_000_000_000 {
        1
    } else if second_of_day(a) < second_of_day(b) && a.nanos >= 1_000_000_000 {
        -1
    } else {
        0
    }
}

/// Nanoseconds from `b` to `a`.
pub open spec fn nanos_between(a: Moment, b: Moment) -> int {
    (a.seconds - b.seconds + leap_between(a, b)) * 1_000_000_000 + (a.nanos - b.nanos)
}

/// Whole units of `unit` nanoseconds from `b` to `a`, rounded toward zero.
pub open spec fn units_between(a: Moment, b: Moment, unit: int) -> int {
    toward_zero(nanos_between(a, b), unit)
}

/// Whole milliseconds from `b` to `a`, rounded toward zero.
pub open spec fn millis_between(a: Moment, b: Moment) -> int {
    units_between(a, b, 1_000_000)
}

/// Whole seconds from `b` to `a`, rounded toward zero.
pub open spec fn seconds_between(a: Moment, b: Moment) -> int {
    units_between(a, b, 1_000_000_000)
}

fn units_from(a: &Moment, b: &Moment, unit: i128) -> (r: i64)
    requires
        a.valid(),
        b.valid(),
        1_000_000 <= unit <= 1_000_000_000,
    ensures
        r == units_between(*a, *b, unit as int),
        -100_000_000_000_000_000 <= r <= 100_000_000_000_000_000,
{
    let x: i64 = (a.seconds + 86_400 * MOMENT_LIMIT) % 86_400;
    let y: i64 = (b.seconds + 86_400 * MOMENT_LIMIT) % 86_400;
    assert(x == second_of_day(*a) && y == second_of_day(*b));
    let leap: i128 = if x > y && b.nanos >= 1_000_000_000 {
        1
    } else if x < y && a.nanos >= 1_000_000_000 {
        -1
    } else {
        0
    };
    let d: i128 = (a.seconds as i128 - b.seconds as i128 + leap) * 1_000_000_000 + (a.nanos as i128
        - b.nanos as i128);
    let size: i128 = if d < 0 {
        -d
    } else {
        d
    };
    let q: i128 = size / unit;
    assert(0 <= q <= 100_000_000_000_000_000) by (nonlinear_arith)
        requires
            0 <= size <= 100_000_000_000_000_000_000_000,
            1_000_000 <= unit,
            q == size / unit,
    ;
    if d < 0 {
        -(q as i64)
    } else {
        q as i64
    }
}

/// Whole milliseconds from `b` to `a`, rounded toward zero.
pub fn millis_from(a: &Moment, b: &Moment) -> (r: i64)
    requires
        a.valid(),
        b.valid(),
    ensures
        r == millis_between(*a, *b),
        -100_000_000_000_000_000 <= r <= 100_000_000_000_000_000,
{
    units_from(a, b, 1_000_000)
}

/// Whole seconds from `b` to `a`, rounded toward zero.
pub fn seconds_from(a: &Moment, b: &Moment) -> (r: i64)
    requires
        a.valid(),
        b.valid(),
    ensures
        r == seconds_between(*a, *b),
        -100_000_000_000_000_000 <= r <= 100_000_000_000_000_000,
{
    units_from(a, b, 1_000_000_000)
}

// ---------------------------------------------------------------------------
// Local date-times
// ---------------------------------------------------------------------------

/// A date and a time of day, as a clock on the wall shows them.
#[derive(Debug, Clone, Copy, PartialEq, Eq, Structural)]
pub struct Stamp {
    pub year: i32,
    pub month: u32,
    pub day: u32,
    pub hour: u32,
    pub minute: u32,
    pub second: u32,
}

/// Whether `year` has a 29th of February.
pub open spec fn leap_year(year: int) -> bool {
    year % 4 == 0 && (year % 100 != 0 || year % 400 == 0)
}

/// How many days `month` of `year` has.
pub open spec fn month_days(year: int, month: int) -> int {
    if month == 2 {
        if leap_year(year) {
            29
        } else {
            28
        }
    } else if month == 4 || month == 6 || month == 9 || month == 11 {
        30
    } else {
        31
    }
}

impl Stamp {
    /// Whether the date is in the calendar and the time is one of the day's.
    pub open spec fn valid(self) -> bool {
        &&& -262_000 <= self.year <= 262_000
        &&& 1 <= self.month <= 12
        &&& 1 <= self.day <= month_days(self.year as int, self.month as int)
        &&& self.hour < 24
        &&& self.minute < 60
        &&& self.second < 60
    }

    /// Whether two stamps are of the same day.
    pub open spec fn same_day(self, other: Stamp) -> bool {
        self.year == other.year && self.month == other.month && self.day == other.day
    }

    /// Whether the date is in the calendar and the time is one of the day's.
    pub fn is_valid(&self) -> (r: bool)
        ensures
            r == self.valid(),
    {
        if self.year < -262_000 || self.year > 262_000 || self.month < 1 || self.month > 12 {
            return false;
        }
        let y: u32 = (self.year + 262_000) as u32;
        let leap = y % 4 == 0 && (y % 100 != 0 || y % 400 == 0);
        let days: u32 = if self.month == 2 {
            if leap {
                29
            } else {
                28
            }
        } else if self.month == 4 || self.month == 6 || self.month == 9 || self.month == 11 {
            30
        } else {
            31
        };
        1 <= self.day && self.day <= days && self.hour < 24 && self.minute < 60 && self.second < 60
    }
}

/// "11_09_26_08_25_23".
pub const TITLE_PATTERN: &'static str = "%d_%m_%y_%H_%M_%S";

/// "2026-09-11T08-25-23".
pub const PATH_PATTERN: &'static str = "%Y-%m-%dT%H-%M-%S";

/// "11 Sep 2026, 14:03".
pub const HEADER_PATTERN: &'static str = "%-d %b %Y, %H:%M";

/// "9/11/2026".
pub const NUMERIC_PATTERN: &'static str = "%-m/%-d/%Y";

/// "September 11, 2026, 02:03 PM".
pub const LONG_PATTERN: &'static str = "%B %-d, %Y, %I:%M %p";

/// "Sep 11, 2:30 PM".
pub const NOTE_PATTERN: &'static str = "%b %-d, %-I:%M %p";

/// "Fri, Sep 11".
pub const DAY_PATTERN: &'static str = "%a, %b %-d";

/// "2:00 PM".
pub const TIME_PATTERN: &'static str = "%-I:%M %p";

/// "Fri, Sep 11 2:00 PM".
pub const DAY_TIME_PATTERN: &'static str = "%a, %b %-d %-I:%M %p";

/// "Fri Sep 11, 2:00 PM".
pub const PICKER_PATTERN: &'static str = "%a %b %-d, %-I:%M %p";

/// The patterns that date-times are written with.
pub open spec fn known_pattern(p: Seq<char>) -> bool {
    ||| p == TITLE_PATTERN@
    ||| p == PATH_PATTERN@
    ||| p == HEADER_PATTERN@
    ||| p == NUMERIC_PATTERN@
    ||| p == LONG_PATTERN@
    ||| p == NOTE_PATTERN@
    ||| p == DAY_PATTERN@
    ||| p == TIME_PATTERN@
    ||| p == DAY_TIME_PATTERN@
    ||| p == PICKER_PATTERN@
}

/// The text of a date-time in a pattern.
pub uninterp spec fn stamp_text(t: Stamp, pattern: Seq<char>) -> Seq<char>;

/// A year of at most four digits, with four digits.
pub open spec fn four_digits(year: int) -> Seq<char> {
    two_digits((year / 100) as nat) + two_digits((year % 100) as nat)
}

/// A date-time in [`TITLE_PATTERN`].
pub open spec fn title_digits(t: Stamp) -> Seq<char> {
    two_digits(t.day as nat) + seq!['_'] + two_digits(t.month as nat) + seq!['_'] + two_digits(
        (t.year % 100) as nat,
    ) + seq!['_'] + two_digits(t.hour as nat) + seq!['_'] + two_digits(t.minute as nat) + seq!['_']
        + two_digits(t.second as nat)
}

/// A date-time of the years 0 to 9999 in [`PATH_PATTERN`].
pub open spec fn path_digits(t: Stamp) -> Seq<char> {
    four_digits(t.year as int) + seq!['-'] + two_digits(t.month as nat) + seq!['-'] + two_digits(
        t.day as nat,
    ) + seq!['T'] + two_digits(t.hour as nat) + seq!['-'] + two_digits(t.minute as nat) + seq!['-']
        + two_digits(t.second as nat)
}

/// A date of the years 0 to 9999 in [`NUMERIC_PATTERN`].
pub open spec fn numeric_digits(t: Stamp) -> Seq<char> {
    decimal(t.month as nat) + seq!['/'] + decimal(t.day as nat) + seq!['/'] + four_digits(
        t.year as int,
    )
}

/// `chrono::NaiveDateTime::format`: the date-time in a pattern of strftime
/// specifiers, a function of the two alone and never empty for these
/// patterns. The patterns made of numbers only are stated digit by digit (with
/// a four-digit year where there is one); month and weekday names are chrono's
/// English ones and are not restated.
#[verifier::external_body]
pub(crate) fn format_stamp(t: &Stamp, pattern: &str) -> (r: String)
    requires
        t.valid(),
        known_pattern(pattern@),
    ensures
        r@ == stamp_text(*t, pattern@),
        r@.len() > 0,
        pattern@ == TITLE_PATTERN@ ==> r@ == title_digits(*t),
        pattern@ == PATH_PATTERN@ && 0 <= t.year <= 9999 ==> r@ == path_digits(*t),
        pattern@ == NUMERIC_PATTERN@ && 0 <= t.year <= 9999 ==> r@ == numeric_digits(*t),
{
    let date = chrono::NaiveDate::from_ymd_opt(t.year, t.month, t.day).unwrap();
    date.and_hms_opt(t.hour, t.minute, t.second).unwrap().format(pattern).to_string()
}

/// The moment that an RFC 3339 text names, if it is one.
pub uninterp spec fn rfc3339(s: Seq<char>) -> Option<(i64, u32)>;

/// `chrono::DateTime::parse_from_rfc3339`: the seconds since the start of 1970
/// and the nanoseconds on top that the text names, a function of the text
/// alone. Its years have four digits, and a leap second is only ever the last
/// of a minute.
#[verifier::external_body]
fn parse_rfc3339(s: &str) -> (r: Option<(i64, u32)>)
    ensures
        r == rfc3339(s@),
        r matches Some((seconds, nanos)) ==> (Moment { seconds, nanos }).valid(),
{
    match chrono::DateTime::parse_from_rfc3339(s) {
        Ok(t) => Some((t.timestamp(), t.timestamp_subsec_nanos())),
        Err(_) => None,
    }
}

/// The moment that an RFC 3339 text names, if it is one.
pub open spec fn moment_named(s: Seq<char>) -> Option<Moment> {
    match rfc3339(s) {
        Some((seconds, nanos)) => Some(Moment { seconds, nanos }),
        None => None,
    }
}

/// The moment that an RFC 3339 text names, if it is one.
pub fn parse_moment(s: &str) -> (r: Option<Moment>)
    ensures
        r == moment_named(s@),
        r matches Some(m) ==> m.valid(),
{
    match parse_rfc3339(s) {
        Some((seconds, nanos)) => Some(Moment { seconds, nanos }),
        None => None,
    }
}

/// The days of a year before a month of it.
pub open spec fn days_before(year: int, month: int) -> int
    decreases month,
{
    if month <= 1 {
        0
    } else {
        days_before(year, month - 1) + month_days(year, month - 1)
    }
}

/// The number of a day in the Gregorian calendar, where the first day of the
/// year 1 is the first.
pub open spec fn day_number(year: int, month: int, day: int) -> int {
    let past = year - 1;
    365 * past + past / 4 - past / 100 + past / 400 + days_before(year, month) + day
}

/// `chrono::Datelike::num_days_from_ce`: the number of the stamp's day in the
/// Gregorian calendar, where the first day of the year 1 is the first.
#[verifier::external_body]
fn days_from_ce(t: &Stamp) -> (r: i32)
    requires
        t.valid(),
    ensures
        r == day_number(t.year as int, t.month as int, t.day as int),
{
    chrono::NaiveDate::from_ymd_opt(t.year, t.month, t.day).unwrap().num_days_from_ce()
}

impl Stamp {
    /// The number of the stamp's day.
    pub open spec fn day_count(self) -> int {
        day_number(self.year as int, self.month as int, self.day as int)
    }

    /// The number of the stamp's day.
    pub fn days(&self) -> (r: i64)
        requires
            self.valid(),
        ensures
            r == self.day_count(),
            i32::MIN <= r <= i32::MAX,
    {
        days_from_ce(self) as i64
    }
}

/// The number of the first day of 1970.
pub const EPOCH_DAY: i64 = 719_163;

/// The second that a date and time is, counted from the day before the year 1.
pub open spec fn clock_second(t: Stamp) -> int {
    t.day_count() * 86_400 + t.hour * 3_600 + t.minute * 60 + t.second
}

/// Whether a date and time is that of a moment in some time zone: it is in the
/// calendar, and less than a day from the moment's in UTC.
pub open spec fn local_to(t: Stamp, m: Moment) -> bool {
    t.valid() && -86_400 < clock_second(t) - (EPOCH_DAY * 86_400 + m.seconds) < 86_400
}

/// `chrono::DateTime::with_timezone` with `chrono::Local`: the date and time
/// that the moment has in the machine's time zone. Which zone that is depends on
/// the machine; whatever it is, the date is in the calendar, and the date and
/// time are those of UTC moved by the zone's offset, which is a number of seconds
/// less than a day.
#[verifier::external_body]
pub(crate) fn local_stamp(m: &Moment) -> (r: Stamp)
    requires
        m.valid(),
    ensures
        local_to(r, *m),
{
    let utc = chrono::DateTime::from_timestamp(m.seconds, m.nanos).unwrap();
    let t = utc.with_timezone(&chrono::Local);
    Stamp {
        year: t.year(),
        month: t.month(),
        day: t.day(),
        hour: t.hour(),
        minute: t.minute(),
        second: t.second(),
    }
}

/// The day of a moment in any time zone is the day in UTC, the one before or the
/// one after.
pub proof fn local_day_is_near(t: Stamp, m: Moment)
    requires
        local_to(t, m),
    ensures
        EPOCH_DAY + m.seconds as int / 86_400 - 1 <= t.day_count() <= EPOCH_DAY + m.seconds as int
            / 86_400 + 1,
{
    let day = t.day_count();
    let time = t.hour * 3_600 + t.minute * 60 + t.second;
    let utc = m.seconds as int / 86_400;
    assert(m.seconds == utc * 86_400 + m.seconds as int % 86_400);
    assert(0 <= time < 86_400);
}

} // verus!
