//! Civil (time-zone-less) dates and times, and the calls into `jiff` that read,
//! write and compare them.

use vstd::prelude::*;

use crate::digits::digit_char;

verus! {

/// A day of the proleptic Gregorian calendar.
#[derive(Clone, Copy, Debug, PartialEq, Eq, Structural)]
pub struct CivilDate {
    pub year: i16,
    pub month: i8,
    pub day: i8,
}

/// A time of day, to the nanosecond.
#[derive(Clone, Copy, Debug, PartialEq, Eq, Structural)]
pub struct CivilTime {
    pub hour: i8,
    pub minute: i8,
    pub second: i8,
    pub subsec_nanosecond: i32,
}

/// A date together with a time of day, in no particular time zone.
#[derive(Clone, Copy, Debug, PartialEq, Eq, Structural)]
pub struct CivilDateTime {
    pub date: CivilDate,
    pub time: CivilTime,
}

/// Leap years of the Gregorian calendar.
pub open spec fn is_leap_year(year: int) -> bool {
    year % 4 == 0 && (year % 100 != 0 || year % 400 == 0)
}

/// The number of days of `month` (1 to 12) in `year`.
pub open spec fn days_in_month(year: int, month: int) -> int {
    if month == 2 {
        if is_leap_year(year) {
            29
        } else {
            28
        }
    } else if month == 4 || month == 6 || month == 9 || month == 11 {
        30
    } else {
        31
    }
}

impl CivilDate {
    /// The date exists: a year within `-9999..=9999`, a month `1..=12` and a day
    /// of that month.
    pub open spec fn is_valid(self) -> bool {
        &&& -9999 <= self.year <= 9999
        &&& 1 <= self.month <= 12
        &&& 1 <= self.day <= days_in_month(self.year as int, self.month as int)
    }
}

impl CivilTime {
    /// The time lies within a day: `00:00:00` to `23:59:59.999999999`.
    pub open spec fn is_valid(self) -> bool {
        &&& 0 <= self.hour <= 23
        &&& 0 <= self.minute <= 59
        &&& 0 <= self.second <= 59
        &&& 0 <= self.subsec_nanosecond <= 999_999_999
    }

    /// Midnight, `00:00:00`.
    pub open spec fn spec_midnight() -> CivilTime {
        CivilTime { hour: 0, minute: 0, second: 0, subsec_nanosecond: 0 }
    }

    /// Midnight, `00:00:00`.
    pub fn midnight() -> (t: CivilTime)
        ensures
            t == CivilTime::spec_midnight(),
    {
        CivilTime { hour: 0, minute: 0, second: 0, subsec_nanosecond: 0 }
    }
}

impl CivilDateTime {
    /// Both the date and the time are valid.
    pub open spec fn is_valid(self) -> bool {
        self.date.is_valid() && self.time.is_valid()
    }

    /// The year of the date.
    pub fn year(&self) -> (y: i16)
        ensures
            y == self.date.year,
    {
        self.date.year
    }
}

/// The date that `jiff` reads from the text `"{year}-{month:02}-{day:02}"`.
///
/// The year is written without padding, so only a year of four digits gives
/// `jiff` the four-digit year that its format asks for.
pub open spec fn formatted_date(year: int, month: int, day: int) -> Option<CivilDate> {
    let date = CivilDate { year: year as i16, month: month as i8, day: day as i8 };
    if 1000 <= year <= 9999 && 1 <= month <= 12 && 1 <= day <= days_in_month(year, month) {
        Some(date)
    } else {
        None
    }
}

/// The time that `jiff` reads from the text `"{hour:02}:{minute:02}:{second:02}"`.
///
/// `jiff` accepts a leap second (`60`) and reads it as `59`.
pub open spec fn formatted_time(hour: int, minute: int, second: int) -> Option<CivilTime> {
    if 0 <= hour <= 23 && 0 <= minute <= 59 && 0 <= second <= 60 {
        Some(
            CivilTime {
                hour: hour as i8,
                minute: minute as i8,
                second: if second == 60 {
                    59i8
                } else {
                    second as i8
                },
                subsec_nanosecond: 0,
            },
        )
    } else {
        None
    }
}

/// Calls `str::parse::<jiff::civil::Date>` on the text
/// `"{year}-{month:02}-{day:02}"`: the date is `Some` exactly when the text
/// holds a four-digit year, a month and a day of that month.
#[verifier::external_body]
pub(crate) fn date_from_fields(year: i16, month: i8, day: i8) -> (res: Option<CivilDate>)
    requires
        0 <= year <= 9999,
        0 <= month <= 99,
        0 <= day <= 99,
    ensures
        res == formatted_date(year as int, month as int, day as int),
{
    match format!("{year}-{month:02}-{day:02}").parse::<jiff::civil::Date>() {
        Ok(d) => Some(CivilDate { year: d.year(), month: d.month(), day: d.day() }),
        Err(_) => None,
    }
}

/// Calls `str::parse::<jiff::civil::Time>` on the text
/// `"{hour:02}:{minute:02}:{second:02}"`: the time is `Some` exactly when the
/// hour is at most 23, the minute at most 59 and the second at most 60, and a
/// second of 60 is read as 59.
#[verifier::external_body]
pub(crate) fn time_from_fields(hour: i8, minute: i8, second: i8) -> (res: Option<CivilTime>)
    requires
        0 <= hour <= 99,
        0 <= minute <= 99,
        0 <= second <= 99,
    ensures
        res == formatted_time(hour as int, minute as int, second as int),
{
    match format!("{hour:02}:{minute:02}:{second:02}").parse::<jiff::civil::Time>() {
        Ok(t) => Some(
            CivilTime {
                hour: t.hour(),
                minute: t.minute(),
                second: t.second(),
                subsec_nanosecond: t.subsec_nanosecond(),
            },
        ),
        Err(_) => None,
    }
}


/// What `str::parse::<jiff::civil::DateTime>` reads from `text`, field by
/// field; `None` when `jiff` rejects the text.
pub uninterp spec fn parsed_datetime(text: Seq<char>) -> Option<CivilDateTime>;

/// Calls `str::parse::<jiff::civil::DateTime>` and hands back the fields of the
/// datetime read. A `jiff` datetime is always a valid one.
#[verifier::external_body]
pub(crate) fn parse_datetime(text: &str) -> (res: Option<CivilDateTime>)
    ensures
        res == parsed_datetime(text@),
        res matches Some(dt) ==> dt.is_valid(),
{
    match text.parse::<jiff::civil::DateTime>() {
        Ok(dt) => Some(
            CivilDateTime {
                date: CivilDate { year: dt.year(), month: dt.month(), day: dt.day() },
                time: CivilTime {
                    hour: dt.hour(),
                    minute: dt.minute(),
                    second: dt.second(),
                    subsec_nanosecond: dt.subsec_nanosecond(),
                },
            },
        ),
        Err(_) => None,
    }
}

/// `n` (0 to 99) as two decimal digits.
pub open spec fn two_digits(n: int) -> Seq<char> {
    seq![digit_char(n / 10), digit_char(n % 10)]
}

/// `n` (0 to 9999) as four decimal digits.
pub open spec fn four_digits(n: int) -> Seq<char> {
    seq![digit_char(n / 1000), digit_char((n / 100) % 10), digit_char((n / 10) % 10), digit_char(n % 10)]
}

/// `YYYY-MM-DDTHH:MM:SS`: how `jiff` writes a datetime of a year from 0 to
/// 9999 with no fraction of a second.
pub open spec fn iso_text(dt: CivilDateTime) -> Seq<char> {
    four_digits(dt.date.year as int) + seq!['-'] + two_digits(dt.date.month as int) + seq!['-']
        + two_digits(dt.date.day as int) + seq!['T'] + two_digits(dt.time.hour as int) + seq![':']
        + two_digits(dt.time.minute as int) + seq![':'] + two_digits(dt.time.second as int)
}

/// The text that `jiff` writes for the datetime `dt` (its `Display`).
pub uninterp spec fn displayed_datetime(dt: CivilDateTime) -> Seq<char>;

/// Writes `dt` as `jiff::civil::DateTime` displays it; for a year from 0 to
/// 9999 and no fraction of a second that is `YYYY-MM-DDTHH:MM:SS`.
#[verifier::external_body]
pub(crate) fn display_datetime(dt: &CivilDateTime) -> (s: String)
    requires
        dt.is_valid(),
    ensures
        s@ == displayed_datetime(*dt),
        dt.date.year >= 0 && dt.time.subsec_nanosecond == 0 ==> s@ == iso_text(*dt),
{
    jiff::civil::DateTime::constant(
        dt.date.year,
        dt.date.month,
        dt.date.day,
        dt.time.hour,
        dt.time.minute,
        dt.time.second,
        dt.time.subsec_nanosecond,
    ).to_string()
}

#[verifier::external_type_specification]
#[verifier::external_body]
pub struct ExSpan(jiff::Span);

#[verifier::external_type_specification]
#[verifier::external_body]
pub struct ExCivilDateTime(jiff::civil::DateTime);

/// The units of a `jiff::Span`, each with the span's sign: what
/// `jiff::Span::get_years` to `get_nanoseconds` report.
#[derive(Clone, Copy, Debug, PartialEq, Eq, Structural)]
pub struct SpanUnits {
    pub years: i16,
    pub months: i32,
    pub weeks: i32,
    pub days: i32,
    pub hours: i32,
    pub minutes: i64,
    pub seconds: i64,
    pub milliseconds: i64,
    pub microseconds: i64,
    pub nanoseconds: i64,
}

/// `-bound <= x <= bound`.
pub open spec fn within(x: int, bound: int) -> bool {
    -bound <= x <= bound
}

/// The absolute value of `x`.
pub open spec fn abs_int(x: int) -> int {
    if x < 0 {
        -x
    } else {
        x
    }
}

impl SpanUnits {
    /// No time at all.
    pub open spec fn spec_zero() -> SpanUnits {
        SpanUnits {
            years: 0,
            months: 0,
            weeks: 0,
            days: 0,
            hours: 0,
            minutes: 0,
            seconds: 0,
            milliseconds: 0,
            microseconds: 0,
            nanoseconds: 0,
        }
    }

    /// No time at all.
    pub fn zero() -> (z: SpanUnits)
        ensures
            z == SpanUnits::spec_zero(),
    {
        SpanUnits {
            years: 0,
            months: 0,
            weeks: 0,
            days: 0,
            hours: 0,
            minutes: 0,
            seconds: 0,
            milliseconds: 0,
            microseconds: 0,
            nanoseconds: 0,
        }
    }

    /// Every unit lies within the range that `jiff` documents for it.
    pub open spec fn in_range(&self) -> bool {
        &&& within(self.years as int, 19_998)
        &&& within(self.months as int, 239_976)
        &&& within(self.weeks as int, 1_043_497)
        &&& within(self.days as int, 7_304_484)
        &&& within(self.hours as int, 175_307_616)
        &&& within(self.minutes as int, 10_518_456_960)
        &&& within(self.seconds as int, 631_107_417_600)
        &&& within(self.milliseconds as int, 631_107_417_600_000)
        &&& within(self.microseconds as int, 631_107_417_600_000_000)
        &&& within(self.nanoseconds as int, 9_223_372_036_854_775_807)
    }

    /// No unit is negative.
    pub open spec fn nonnegative(&self) -> bool {
        &&& self.years >= 0 && self.months >= 0 && self.weeks >= 0 && self.days >= 0
        &&& self.hours >= 0 && self.minutes >= 0 && self.seconds >= 0
        &&& self.milliseconds >= 0 && self.microseconds >= 0 && self.nanoseconds >= 0
    }

    /// No unit is positive.
    pub open spec fn nonpositive(&self) -> bool {
        &&& self.years <= 0 && self.months <= 0 && self.weeks <= 0 && self.days <= 0
        &&& self.hours <= 0 && self.minutes <= 0 && self.seconds <= 0
        &&& self.milliseconds <= 0 && self.microseconds <= 0 && self.nanoseconds <= 0
    }

    /// The units are those of a `jiff::Span`: each within its range, all of
    /// one sign.
    pub open spec fn is_valid(&self) -> bool {
        self.in_range() && (self.nonnegative() || self.nonpositive())
    }

    /// Whether the units are those of a `jiff::Span`.
    pub fn check(&self) -> (ok: bool)
        ensures
            ok == self.is_valid(),
    {
        let in_range = -19_998 <= self.years && self.years <= 19_998 && -239_976 <= self.months
            && self.months <= 239_976 && -1_043_497 <= self.weeks && self.weeks <= 1_043_497
            && -7_304_484 <= self.days && self.days <= 7_304_484 && -175_307_616 <= self.hours
            && self.hours <= 175_307_616 && -10_518_456_960 <= self.minutes && self.minutes
            <= 10_518_456_960 && -631_107_417_600 <= self.seconds && self.seconds
            <= 631_107_417_600 && -631_107_417_600_000 <= self.milliseconds && self.milliseconds
            <= 631_107_417_600_000 && -631_107_417_600_000_000 <= self.microseconds
            && self.microseconds <= 631_107_417_600_000_000 && -9_223_372_036_854_775_807
            <= self.nanoseconds;
        let nonnegative = self.years >= 0 && self.months >= 0 && self.weeks >= 0 && self.days >= 0
            && self.hours >= 0 && self.minutes >= 0 && self.seconds >= 0 && self.milliseconds >= 0
            && self.microseconds >= 0 && self.nanoseconds >= 0;
        let nonpositive = self.years <= 0 && self.months <= 0 && self.weeks <= 0 && self.days <= 0
            && self.hours <= 0 && self.minutes <= 0 && self.seconds <= 0 && self.milliseconds <= 0
            && self.microseconds <= 0 && self.nanoseconds <= 0;
        in_range && (nonnegative || nonpositive)
    }

    /// The units without their sign: what `jiff::Span::abs` gives, since a
    /// span keeps one sign for all its units.
    pub open spec fn spec_abs(&self) -> SpanUnits {
        SpanUnits {
            years: abs_int(self.years as int) as i16,
            months: abs_int(self.months as int) as i32,
            weeks: abs_int(self.weeks as int) as i32,
            days: abs_int(self.days as int) as i32,
            hours: abs_int(self.hours as int) as i32,
            minutes: abs_int(self.minutes as int) as i64,
            seconds: abs_int(self.seconds as int) as i64,
            milliseconds: abs_int(self.milliseconds as int) as i64,
            microseconds: abs_int(self.microseconds as int) as i64,
            nanoseconds: abs_int(self.nanoseconds as int) as i64,
        }
    }

    /// The units without their sign (`jiff::Span::abs`).
    pub fn abs(&self) -> (a: SpanUnits)
        requires
            self.is_valid(),
        ensures
            a == self.spec_abs(),
            a.is_valid(),
    {
        SpanUnits {
            years: if self.years < 0 { -self.years } else { self.years },
            months: if self.months < 0 { -self.months } else { self.months },
            weeks: if self.weeks < 0 { -self.weeks } else { self.weeks },
            days: if self.days < 0 { -self.days } else { self.days },
            hours: if self.hours < 0 { -self.hours } else { self.hours },
            minutes: if self.minutes < 0 { -self.minutes } else { self.minutes },
            seconds: if self.seconds < 0 { -self.seconds } else { self.seconds },
            milliseconds: if self.milliseconds < 0 { -self.milliseconds } else { self.milliseconds },
            microseconds: if self.microseconds < 0 { -self.microseconds } else { self.microseconds },
            nanoseconds: if self.nanoseconds < 0 { -self.nanoseconds } else { self.nanoseconds },
        }
    }
}

/// Builds the `jiff::civil::DateTime` with the fields of `dt`
/// (`jiff::civil::DateTime::constant`, which accepts every valid datetime).
#[verifier::external_body]
fn jiff_datetime(dt: &CivilDateTime) -> jiff::civil::DateTime
    requires
        dt.is_valid(),
{
    jiff::civil::DateTime::constant(
        dt.date.year,
        dt.date.month,
        dt.date.day,
        dt.time.hour,
        dt.time.minute,
        dt.time.second,
        dt.time.subsec_nanosecond,
    )
}

/// Builds the `jiff::Span` with the units `u` through `jiff::Span::new` and the
/// setters `years` to `nanoseconds`, which accept every unit within its
/// documented range; as all units have one sign, the span's units are `u`.
#[verifier::external_body]
fn jiff_span(u: &SpanUnits) -> jiff::Span
    requires
        u.is_valid(),
{
    jiff::Span::new().years(u.years).months(u.months).weeks(u.weeks).days(u.days).hours(
        u.hours,
    ).minutes(u.minutes).seconds(u.seconds).milliseconds(u.milliseconds).microseconds(
        u.microseconds,
    ).nanoseconds(u.nanoseconds)
}

/// Reads the units of a `jiff::Span` (`get_years` to `get_nanoseconds`).
#[verifier::external_body]
fn units_of(s: jiff::Span) -> SpanUnits {
    SpanUnits {
        years: s.get_years(),
        months: s.get_months(),
        weeks: s.get_weeks(),
        days: s.get_days(),
        hours: s.get_hours(),
        minutes: s.get_minutes(),
        seconds: s.get_seconds(),
        milliseconds: s.get_milliseconds(),
        microseconds: s.get_microseconds(),
        nanoseconds: s.get_nanoseconds(),
    }
}

/// The units of `later - earlier` for `jiff` datetimes.
pub uninterp spec fn datetime_difference(later: CivilDateTime, earlier: CivilDateTime) -> SpanUnits;

/// `later - earlier` on `jiff` datetimes (`jiff::civil::DateTime`'s `Sub`, which
/// never fails between two datetimes), read back as units.
#[verifier::external_body]
fn difference(later: &CivilDateTime, earlier: &CivilDateTime) -> (res: SpanUnits)
    requires
        later.is_valid(),
        earlier.is_valid(),
    ensures
        res == datetime_difference(*later, *earlier),
{
    units_of(jiff_datetime(later) - jiff_datetime(earlier))
}

/// How a span of time compares with another.
#[derive(Clone, Copy, Debug, PartialEq, Eq, Structural)]
pub enum SpanOrder {
    Shorter,
    Equal,
    Longer,
}

/// What `jiff::Span::compare` reports for `span` against `other`, both
/// measured from `relative`; `None` when it reports an error.
pub uninterp spec fn span_comparison(span: SpanUnits, other: SpanUnits, relative: CivilDateTime) -> Option<
    SpanOrder,
>;

/// `jiff::Span::compare` of the span `span` with `other`, both measured from
/// `relative`; `None` when `jiff` reports an error (an overflow).
#[verifier::external_body]
fn span_order(span: &SpanUnits, other: &SpanUnits, relative: &CivilDateTime) -> (res: Option<
    SpanOrder,
>)
    requires
        span.is_valid(),
        other.is_valid(),
        relative.is_valid(),
    ensures
        res == span_comparison(*span, *other, *relative),
{
    match jiff_span(span).compare((jiff_span(other), jiff_datetime(relative))) {
        Ok(core::cmp::Ordering::Less) => Some(SpanOrder::Shorter),
        Ok(core::cmp::Ordering::Equal) => Some(SpanOrder::Equal),
        Ok(core::cmp::Ordering::Greater) => Some(SpanOrder::Longer),
        Err(_) => None,
    }
}

/// How the time between `extracted` and `existing`, taken without its sign,
/// compares with `threshold` measured from `existing`, as `jiff` computes
/// `(extracted - existing).abs().compare((threshold, existing))`; `None` when
/// `jiff` fails to compare or `threshold` holds units that no span has.
pub open spec fn gap_order(extracted: CivilDateTime, existing: CivilDateTime, threshold: SpanUnits) -> Option<
    SpanOrder,
> {
    let difference = datetime_difference(extracted, existing);
    if difference.is_valid() && threshold.is_valid() {
        span_comparison(difference.spec_abs(), threshold, existing)
    } else {
        None
    }
}

/// How the time between `extracted` and `existing`, taken without its sign,
/// compares with `threshold` measured from `existing`.
pub fn compare_gap(extracted: &CivilDateTime, existing: &CivilDateTime, threshold: SpanUnits) -> (res: Option<
    SpanOrder,
>)
    requires
        extracted.is_valid(),
        existing.is_valid(),
    ensures
        res == gap_order(*extracted, *existing, threshold),
{
    let difference = difference(extracted, existing);
    if !difference.check() || !threshold.check() {
        return None;
    }
    let gap = difference.abs();
    span_order(&gap, &threshold, existing)
}

/// The units of the span that `str::parse::<jiff::Span>` reads from `text`;
/// `None` when `jiff` rejects the text.
pub uninterp spec fn parsed_span(text: Seq<char>) -> Option<SpanUnits>;

/// Reads a span such as `30m`, `2d` or `1h30m` (`str::parse::<jiff::Span>`)
/// and hands back its units.
#[verifier::external_body]
pub(crate) fn read_span(text: &str) -> (res: Option<SpanUnits>)
    ensures
        res == parsed_span(text@),
{
    match text.parse::<jiff::Span>() {
        Ok(span) => Some(units_of(span)),
        Err(_) => None,
    }
}

/// The year of the current date in the system's time zone
/// (`jiff::Zoned::now().year()`); `jiff` keeps every year in `-9999..=9999`.
#[verifier::external_body]
fn now_year() -> (year: i16)
    ensures
        -9999 <= year <= 9999,
{
    jiff::Zoned::now().year()
}

/// The year a given current year stands for as a `u16`: itself, or 2030 when it
/// is negative.
pub open spec fn year_as_u16(year: int) -> u16 {
    if year >= 0 {
        year as u16
    } else {
        2030u16
    }
}

/// The year that the clock's year `now` stands for as a `u16`: itself, or 2030
/// when it is negative.
pub fn year_from_clock(now: i16) -> (year: u16)
    requires
        -9999 <= now <= 9999,
    ensures
        year == year_as_u16(now as int),
{
    if now >= 0 {
        now as u16
    } else {
        2030
    }
}

/// The current year, or 2030 when it does not fit in a `u16`.
pub fn current_year() -> (year: u16)
    ensures
        exists|now: int| -9999 <= now <= 9999 && year == year_as_u16(now),
{
    let now = now_year();
    let year = year_from_clock(now);
    assert(year == year_as_u16(now as int));
    year
}

} // verus!
