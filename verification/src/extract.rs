//! Reading the date, and the time when there is one, from a file name.

use vstd::prelude::*;
use vstd::string::StringSliceAdditionalSpecFns;
use vstd::utf8::{decode_utf8, encode_utf8, is_char_boundary, valid_utf8};

use crate::civil::{
    date_from_fields, days_in_month, formatted_date, formatted_time, time_from_fields, CivilDate,
    CivilDateTime, CivilTime,
};
use crate::digits::{decimal_digits, lemma_parsed_decimal_digits, parse_int, parsed_int, pow10};
use crate::pattern::{
    date_source, day_name, hour_name, lemma_date_source_groups, lemma_group_number_unique,
    lemma_time_source_groups, minute_name, month_name, names_group, regex_captures,
    regex_compiles, second_name, spans_on_boundaries, time_source, year_name, Patterns,
    DATE_PATTERNS, TIME_PATTERNS,
};

verus! {

broadcast use vstd::utf8::encode_utf8_valid_utf8, vstd::utf8::encode_utf8_decode_utf8;

/// The earliest year accepted: the first photograph was taken in 1826 or 1827.
pub const EARLIEST_YEAR: i16 = 1826;

/// The latest year accepted.
pub const LATEST_YEAR: i16 = 2100;

/// A date found in a file name, and the byte offset at which the text of its
/// last field ends.
#[derive(Clone, Copy, Debug, PartialEq, Eq, Structural)]
pub struct DateMatch {
    pub date: CivilDate,
    pub end: usize,
}

/// The order in which a date pattern writes year, month and day.
#[derive(Clone, Copy, Debug, PartialEq, Eq, Structural)]
pub enum FieldOrder {
    YearMonthDay,
    DayMonthYear,
    YearDayMonth,
    MonthDayYear,
}

/// The field order of date pattern `i`.
pub open spec fn date_order(i: int) -> FieldOrder {
    if i == 0 || i == 1 {
        FieldOrder::YearMonthDay
    } else if i == 2 || i == 3 {
        FieldOrder::DayMonthYear
    } else if i == 4 || i == 5 {
        FieldOrder::YearDayMonth
    } else {
        FieldOrder::MonthDayYear
    }
}

/// The capture groups that hold (year, month, day).
pub open spec fn field_groups(order: FieldOrder) -> (int, int, int) {
    match order {
        FieldOrder::YearMonthDay => (1, 2, 3),
        FieldOrder::DayMonthYear => (3, 2, 1),
        FieldOrder::YearDayMonth => (1, 3, 2),
        FieldOrder::MonthDayYear => (3, 1, 2),
    }
}

/// The bytes that capture group `k` covers, if it took part in the match.
pub open spec fn group_bytes(bytes: Seq<u8>, groups: Seq<Option<(usize, usize)>>, k: int) -> Option<
    Seq<u8>,
> {
    if 0 <= k < groups.len() && groups[k] is Some {
        let (start, end) = groups[k]->Some_0;
        Some(bytes.subrange(start as int, end as int))
    } else {
        None
    }
}

/// The integer that capture group `k` holds, read as an integer within
/// `min..=max`.
pub open spec fn group_int(
    bytes: Seq<u8>,
    groups: Seq<Option<(usize, usize)>>,
    k: int,
    min: int,
    max: int,
) -> Option<int> {
    match group_bytes(bytes, groups, k) {
        Some(text) => parsed_int(text, min, max),
        None => None,
    }
}

/// The date that a match of a date pattern with field order `order` writes:
/// year, month and day read as `i16`, `i8` and `i8`, the date that `jiff`
/// reads from them, and the end of capture group 3.
pub open spec fn date_from_groups(
    bytes: Seq<u8>,
    groups: Seq<Option<(usize, usize)>>,
    order: FieldOrder,
) -> Option<DateMatch> {
    let (yk, mk, dk) = field_groups(order);
    match (
        group_int(bytes, groups, yk, -32768, 32767),
        group_int(bytes, groups, mk, -128, 127),
        group_int(bytes, groups, dk, -128, 127),
    ) {
        (Some(year), Some(month), Some(day)) => match formatted_date(year, month, day) {
            Some(date) => if 3 < groups.len() && groups[3] is Some {
                Some(DateMatch { date, end: groups[3]->Some_0.1 })
            } else {
                None
            },
            None => None,
        },
        _ => None,
    }
}

/// The date that date pattern `i` finds in `name`.
pub open spec fn date_candidate(i: int, name: Seq<char>) -> Option<DateMatch> {
    if regex_compiles(date_source(i)) {
        match regex_captures(date_source(i), name) {
            Some(groups) => date_from_groups(encode_utf8(name), groups, date_order(i)),
            None => None,
        }
    } else {
        None
    }
}

/// The year lies within `EARLIEST_YEAR..=LATEST_YEAR`.
pub open spec fn plausible_year(year: int) -> bool {
    EARLIEST_YEAR <= year <= LATEST_YEAR
}

/// The first date, trying the date patterns from `i` on, that one of them
/// finds in `name` with a plausible year.
pub open spec fn first_date(i: int, name: Seq<char>) -> Option<DateMatch>
    decreases DATE_PATTERNS - i,
{
    if i < 0 || i >= DATE_PATTERNS {
        None
    } else {
        match date_candidate(i, name) {
            Some(m) => if plausible_year(m.date.year as int) {
                Some(m)
            } else {
                first_date(i + 1, name)
            },
            None => first_date(i + 1, name),
        }
    }
}

/// The time that a match of a time pattern writes in groups 1 to 3.
pub open spec fn time_from_groups(bytes: Seq<u8>, groups: Seq<Option<(usize, usize)>>) -> Option<
    CivilTime,
> {
    match (
        group_int(bytes, groups, 1, -128, 127),
        group_int(bytes, groups, 2, -128, 127),
        group_int(bytes, groups, 3, -128, 127),
    ) {
        (Some(hour), Some(minute), Some(second)) => formatted_time(hour, minute, second),
        _ => None,
    }
}

/// The time that time pattern `i` finds in `text`.
pub open spec fn time_candidate(i: int, text: Seq<char>) -> Option<CivilTime> {
    if regex_compiles(time_source(i)) {
        match regex_captures(time_source(i), text) {
            Some(groups) => time_from_groups(encode_utf8(text), groups),
            None => None,
        }
    } else {
        None
    }
}

/// The first time, trying the time patterns from `i` on, that one of them
/// finds in `text`.
pub open spec fn first_time(i: int, text: Seq<char>) -> Option<CivilTime>
    decreases TIME_PATTERNS - i,
{
    if i < 0 || i >= TIME_PATTERNS {
        None
    } else {
        match time_candidate(i, text) {
            Some(t) => Some(t),
            None => first_time(i + 1, text),
        }
    }
}

/// The text of `name` that follows byte offset `end`.
pub open spec fn text_after(name: Seq<char>, end: int) -> Seq<char> {
    decode_utf8(encode_utf8(name).subrange(end, encode_utf8(name).len() as int))
}

/// The date and time that `name` carries: the first date found, at the time
/// found in the text after it, or at midnight when that text holds no time.
pub open spec fn datetime_in(name: Seq<char>) -> Option<CivilDateTime> {
    match first_date(0, name) {
        Some(m) => Some(
            CivilDateTime {
                date: m.date,
                time: match first_time(0, text_after(name, m.end as int)) {
                    Some(t) => t,
                    None => CivilTime::spec_midnight(),
                },
            },
        ),
        None => None,
    }
}

/// A date found by the date patterns is a valid date with a plausible year.
pub proof fn lemma_first_date_valid(i: int, name: Seq<char>)
    ensures
        first_date(i, name) matches Some(m) ==> m.date.is_valid() && plausible_year(
            m.date.year as int,
        ),
    decreases DATE_PATTERNS - i,
{
    if 0 <= i < DATE_PATTERNS {
        lemma_first_date_valid(i + 1, name);
    }
}

/// A time found by the time patterns is a valid time of day.
pub proof fn lemma_first_time_valid(i: int, text: Seq<char>)
    ensures
        first_time(i, text) matches Some(t) ==> t.is_valid() && t.subsec_nanosecond == 0,
    decreases TIME_PATTERNS - i,
{
    if 0 <= i < TIME_PATTERNS {
        lemma_first_time_valid(i + 1, text);
    }
}

/// Every date and time read from a file name is a valid one, in a year from
/// 1826 to 2100, to the whole second.
pub proof fn law_extracted_datetime_valid(name: Seq<char>)
    ensures
        datetime_in(name) matches Some(dt) ==> {
            &&& dt.is_valid()
            &&& plausible_year(dt.date.year as int)
            &&& dt.time.subsec_nanosecond == 0
        },
{
    lemma_first_date_valid(0, name);
    if let Some(m) = first_date(0, name) {
        lemma_first_time_valid(0, text_after(name, m.end as int));
    }
}

/// Every date pattern reads the year, the month and the day from the capture
/// groups that its text names `year`, `month` and `day`.
pub proof fn law_date_fields_follow_group_names(i: int)
    requires
        0 <= i < DATE_PATTERNS,
    ensures
        names_group(date_source(i), field_groups(date_order(i)).0, year_name()),
        names_group(date_source(i), field_groups(date_order(i)).1, month_name()),
        names_group(date_source(i), field_groups(date_order(i)).2, day_name()),
{
    lemma_date_source_groups(i);
}

/// A match of date pattern `i` whose groups named `year`, `month` and `day`
/// hold the four digits of a year and the two digits of a month and of a day
/// of that month gives exactly that date, ending where group 3 ends: the
/// fields are never read in another order.
pub proof fn law_date_read_from_named_groups(
    i: int,
    bytes: Seq<u8>,
    groups: Seq<Option<(usize, usize)>>,
    year_group: int,
    month_group: int,
    day_group: int,
    year: nat,
    month: nat,
    day: nat,
)
    requires
        0 <= i < DATE_PATTERNS,
        names_group(date_source(i), year_group, year_name()),
        names_group(date_source(i), month_group, month_name()),
        names_group(date_source(i), day_group, day_name()),
        group_bytes(bytes, groups, year_group) == Some(decimal_digits(year, 4)),
        group_bytes(bytes, groups, month_group) == Some(decimal_digits(month, 2)),
        group_bytes(bytes, groups, day_group) == Some(decimal_digits(day, 2)),
        1000 <= year <= 9999,
        1 <= month <= 12,
        1 <= day <= days_in_month(year as int, month as int),
        3 < groups.len(),
        groups[3] is Some,
    ensures
        date_from_groups(bytes, groups, date_order(i)) == Some(
            DateMatch {
                date: CivilDate { year: year as i16, month: month as i8, day: day as i8 },
                end: groups[3]->Some_0.1,
            },
        ),
{
    lemma_date_source_groups(i);
    let s = date_source(i);
    let (yk, mk, dk) = field_groups(date_order(i));
    lemma_group_number_unique(s, year_group, year_name(), yk, year_name(), mk, month_name(), dk, day_name());
    lemma_group_number_unique(s, month_group, month_name(), mk, month_name(), yk, year_name(), dk, day_name());
    lemma_group_number_unique(s, day_group, day_name(), dk, day_name(), yk, year_name(), mk, month_name());
    reveal_with_fuel(pow10, 5);
    lemma_parsed_decimal_digits(year, 4, -32768, 32767);
    lemma_parsed_decimal_digits(month, 2, -128, 127);
    lemma_parsed_decimal_digits(day, 2, -128, 127);
}

/// A match of time pattern `i` whose groups named `hour`, `minute` and
/// `second` hold the two digits of an hour, a minute and a second of a day
/// gives exactly that time, whatever the values: midnight, a minute or a
/// second of zero included.
pub proof fn law_time_read_from_named_groups(
    i: int,
    bytes: Seq<u8>,
    groups: Seq<Option<(usize, usize)>>,
    hour_group: int,
    minute_group: int,
    second_group: int,
    hour: nat,
    minute: nat,
    second: nat,
)
    requires
        0 <= i < TIME_PATTERNS,
        names_group(time_source(i), hour_group, hour_name()),
        names_group(time_source(i), minute_group, minute_name()),
        names_group(time_source(i), second_group, second_name()),
        group_bytes(bytes, groups, hour_group) == Some(decimal_digits(hour, 2)),
        group_bytes(bytes, groups, minute_group) == Some(decimal_digits(minute, 2)),
        group_bytes(bytes, groups, second_group) == Some(decimal_digits(second, 2)),
        hour <= 23,
        minute <= 59,
        second <= 59,
    ensures
        time_from_groups(bytes, groups) == Some(
            CivilTime {
                hour: hour as i8,
                minute: minute as i8,
                second: second as i8,
                subsec_nanosecond: 0,
            },
        ),
{
    lemma_time_source_groups(i);
    let s = time_source(i);
    lemma_group_number_unique(s, hour_group, hour_name(), 1, hour_name(), 2, minute_name(), 3, second_name());
    lemma_group_number_unique(s, minute_group, minute_name(), 2, minute_name(), 1, hour_name(), 3, second_name());
    lemma_group_number_unique(s, second_group, second_name(), 3, second_name(), 1, hour_name(), 2, minute_name());
    reveal_with_fuel(pow10, 3);
    lemma_parsed_decimal_digits(hour, 2, -128, 127);
    lemma_parsed_decimal_digits(minute, 2, -128, 127);
    lemma_parsed_decimal_digits(second, 2, -128, 127);
}

/// The file name holds a date, and the rest of the name after the date holds
/// a time.
pub open spec fn time_found_in(name: Seq<char>) -> bool {
    match first_date(0, name) {
        Some(m) => first_time(0, text_after(name, m.end as int)) is Some,
        None => false,
    }
}

proof fn lemma_boundary_in_range(bytes: Seq<u8>, i: int)
    requires
        valid_utf8(bytes),
        is_char_boundary(bytes, i),
    ensures
        0 <= i <= bytes.len(),
{
    reveal_with_fuel(is_char_boundary, 1);
}

/// Reads capture group `k` as an integer within `min..=max`.
fn read_group(
    bytes: &[u8],
    groups: &Vec<Option<(usize, usize)>>,
    k: usize,
    min: i32,
    max: i32,
) -> (res: Option<i32>)
    requires
        valid_utf8(bytes@),
        spans_on_boundaries(groups@, bytes@),
        min <= 0 <= max,
    ensures
        match res {
            Some(v) => group_int(bytes@, groups@, k as int, min as int, max as int) == Some(
                v as int,
            ),
            None => group_int(bytes@, groups@, k as int, min as int, max as int) is None,
        },
        res matches Some(v) ==> min <= v <= max,
{
    if k < groups.len() {
        match groups[k] {
            Some((start, end)) => {
                proof {
                    assert(groups@[k as int] is Some);
                    lemma_boundary_in_range(bytes@, end as int);
                }
                parse_int(bytes, start, end, min, max)
            },
            None => None,
        }
    } else {
        None
    }
}

/// The capture groups that hold (year, month, day) for date pattern `i`.
fn date_groups(i: usize) -> (res: (usize, usize, usize))
    ensures
        res.0 as int == field_groups(date_order(i as int)).0,
        res.1 as int == field_groups(date_order(i as int)).1,
        res.2 as int == field_groups(date_order(i as int)).2,
{
    if i == 0 || i == 1 {
        (1, 2, 3)
    } else if i == 2 || i == 3 {
        (3, 2, 1)
    } else if i == 4 || i == 5 {
        (1, 3, 2)
    } else {
        (3, 1, 2)
    }
}

/// The date that the capture groups `groups` of a match of date pattern `i`
/// on `name` write: year, month and day read from their groups, checked by
/// `jiff`, and the end of group 3.
pub fn date_in_groups(name: &str, groups: &Vec<Option<(usize, usize)>>, i: usize) -> (res: Option<
    DateMatch,
>)
    requires
        spans_on_boundaries(groups@, name.spec_bytes()),
    ensures
        res == date_from_groups(encode_utf8(name@), groups@, date_order(i as int)),
        res matches Some(m) ==> is_char_boundary(name.spec_bytes(), m.end as int),
{
    let bytes = name.as_bytes();
    let (yk, mk, dk) = date_groups(i);
    let year = match read_group(bytes, groups, yk, -32768, 32767) {
        Some(v) => v,
        None => return None,
    };
    let month = match read_group(bytes, groups, mk, -128, 127) {
        Some(v) => v,
        None => return None,
    };
    let day = match read_group(bytes, groups, dk, -128, 127) {
        Some(v) => v,
        None => return None,
    };
    if !(0 <= year && year <= 9999 && 0 <= month && month <= 99 && 0 <= day && day <= 99) {
        return None;
    }
    let date = match date_from_fields(year as i16, month as i8, day as i8) {
        Some(date) => date,
        None => return None,
    };
    if groups.len() > 3 {
        match groups[3] {
            Some((_, end)) => {
                proof {
                    assert(groups@[3] is Some);
                }
                Some(DateMatch { date, end })
            },
            None => None,
        }
    } else {
        None
    }
}

/// The time that the capture groups `groups` of a match of a time pattern on
/// `text` write: hour, minute and second read from groups 1 to 3, checked by
/// `jiff`.
pub fn time_in_groups(text: &str, groups: &Vec<Option<(usize, usize)>>) -> (res: Option<CivilTime>)
    requires
        spans_on_boundaries(groups@, text.spec_bytes()),
    ensures
        res == time_from_groups(encode_utf8(text@), groups@),
{
    let bytes = text.as_bytes();
    let hour = match read_group(bytes, groups, 1, -128, 127) {
        Some(v) => v,
        None => return None,
    };
    let minute = match read_group(bytes, groups, 2, -128, 127) {
        Some(v) => v,
        None => return None,
    };
    let second = match read_group(bytes, groups, 3, -128, 127) {
        Some(v) => v,
        None => return None,
    };
    if !(0 <= hour && hour <= 99 && 0 <= minute && minute <= 99 && 0 <= second && second <= 99) {
        return None;
    }
    time_from_fields(hour as i8, minute as i8, second as i8)
}

impl Patterns {
    /// The date that date pattern `i` finds in `name`.
    fn date_candidate(&self, i: usize, name: &str) -> (res: Option<DateMatch>)
        requires
            self.wf(),
            i < DATE_PATTERNS,
        ensures
            res == date_candidate(i as int, name@),
            res matches Some(m) ==> is_char_boundary(name.spec_bytes(), m.end as int),
    {
        match self.date_captures(i, name) {
            Some(groups) => date_in_groups(name, &groups, i),
            None => None,
        }
    }

    /// The first date with a plausible year that the date patterns find in
    /// `name`, trying them in order.
    pub fn extract_date(&self, name: &str) -> (res: Option<DateMatch>)
        requires
            self.wf(),
        ensures
            res == first_date(0, name@),
            res matches Some(m) ==> is_char_boundary(name.spec_bytes(), m.end as int),
    {
        let mut i: usize = 0;
        while i < DATE_PATTERNS
            invariant
                self.wf(),
                i <= DATE_PATTERNS,
                first_date(0, name@) == first_date(i as int, name@),
            decreases DATE_PATTERNS - i,
        {
            if let Some(m) = self.date_candidate(i, name) {
                if EARLIEST_YEAR <= m.date.year && m.date.year <= LATEST_YEAR {
                    return Some(m);
                }
            }
            i = i + 1;
        }
        None
    }

    /// The time that time pattern `i` finds in `text`.
    fn time_candidate(&self, i: usize, text: &str) -> (res: Option<CivilTime>)
        requires
            self.wf(),
            i < TIME_PATTERNS,
        ensures
            res == time_candidate(i as int, text@),
    {
        match self.time_captures(i, text) {
            Some(groups) => time_in_groups(text, &groups),
            None => None,
        }
    }

    /// The first time that the time patterns find in `text`, trying them in
    /// order.
    pub fn extract_time(&self, text: &str) -> (res: Option<CivilTime>)
        requires
            self.wf(),
        ensures
            res == first_time(0, text@),
    {
        let mut i: usize = 0;
        while i < TIME_PATTERNS
            invariant
                self.wf(),
                i <= TIME_PATTERNS,
                first_time(0, text@) == first_time(i as int, text@),
            decreases TIME_PATTERNS - i,
        {
            if let Some(t) = self.time_candidate(i, text) {
                return Some(t);
            }
            i = i + 1;
        }
        None
    }

    /// The date and time that the file name `name` carries, and whether the
    /// rest of the name after the date held a time (else the time is
    /// midnight).
    pub fn extract_datetime_noting_time(&self, name: &str) -> (res: Option<(CivilDateTime, bool)>)
        requires
            self.wf(),
        ensures
            match res {
                Some((dt, found)) => datetime_in(name@) == Some(dt) && found == time_found_in(
                    name@,
                ),
                None => datetime_in(name@) is None,
            },
    {
        let m = match self.extract_date(name) {
            Some(m) => m,
            None => return None,
        };
        let (_, rest) = name.split_at(m.end);
        proof {
            assert(rest@ == decode_utf8(encode_utf8(rest@)));
            assert(rest@ == text_after(name@, m.end as int));
        }
        match self.extract_time(rest) {
            Some(time) => Some((CivilDateTime { date: m.date, time }, true)),
            None => Some((CivilDateTime { date: m.date, time: CivilTime::midnight() }, false)),
        }
    }

    /// The date and time that the file name `name` carries: the first date
    /// found, at the time found in the rest of the name after that date, or at
    /// midnight when the rest holds no time.
    pub fn extract_datetime(&self, name: &str) -> (res: Option<CivilDateTime>)
        requires
            self.wf(),
        ensures
            res == datetime_in(name@),
    {
        match self.extract_datetime_noting_time(name) {
            Some((dt, _)) => Some(dt),
            None => None,
        }
    }
}

/// The date and time that the file name `name` carries, as
/// [`Patterns::extract_datetime`] reads it, with freshly compiled patterns.
pub fn extract_datetime(name: &str) -> (res: Option<CivilDateTime>)
    ensures
        res == datetime_in(name@),
{
    let patterns = Patterns::compile();
    patterns.extract_datetime(name)
}

} // verus!
