//! Times of day, calendar dates and weekdays, and the calls into `chrono`
//! that produce them.

use vstd::prelude::*;

verus! {

/// A day of the week.
#[derive(Clone, Copy, Debug, PartialEq, Eq, Structural)]
pub enum Weekday {
    Mon,
    Tue,
    Wed,
    Thu,
    Fri,
    Sat,
    Sun,
}

/// A wall-clock instant within a day, without a date.
///
/// `secs` counts whole seconds since midnight and `frac` the nanoseconds
/// within that second; a `frac` of a billion or more stands for a leap second.
#[derive(Clone, Copy, Debug, PartialEq, Eq, Structural)]
pub struct TimeOfDay {
    pub secs: u32,
    pub frac: u32,
}

impl TimeOfDay {
    /// Whether the two fields denote an instant of a day.
    pub open spec fn wf(self) -> bool {
        &&& self.secs < 86_400
        &&& self.frac < 2_000_000_000
        &&& (self.frac >= 1_000_000_000 ==> self.secs % 60 == 59)
    }

    /// `self` is strictly later than `other`.
    pub open spec fn is_after(self, other: TimeOfDay) -> bool {
        self.secs > other.secs || (self.secs == other.secs && self.frac > other.frac)
    }

    /// `self` is `target` or later.
    pub open spec fn has_reached(self, target: TimeOfDay) -> bool {
        !target.is_after(self)
    }

    /// The instant `hour:min:sec` as a specification value.
    pub open spec fn at(hour: int, min: int, sec: int) -> TimeOfDay {
        TimeOfDay { secs: (hour * 3600 + min * 60 + sec) as u32, frac: 0 }
    }

    /// The instant `hour:min:sec` on the dot.
    pub fn from_hms(hour: u32, min: u32, sec: u32) -> (t: TimeOfDay)
        requires
            hour < 24,
            min < 60,
            sec < 60,
        ensures
            t == TimeOfDay::at(hour as int, min as int, sec as int),
            t.secs == hour * 3600 + min * 60 + sec,
            t.wf(),
    {
        TimeOfDay { secs: hour * 3600 + min * 60 + sec, frac: 0 }
    }

    /// The instant `hour:min:sec`, or `None` where a field is out of range.
    pub fn from_hms_opt(hour: u32, min: u32, sec: u32) -> (r: Option<TimeOfDay>)
        ensures
            r is Some <==> hour < 24 && min < 60 && sec < 60,
            r is Some ==> r->Some_0 == TimeOfDay::at(hour as int, min as int, sec as int),
    {
        if hour < 24 && min < 60 && sec < 60 {
            Some(TimeOfDay::from_hms(hour, min, sec))
        } else {
            None
        }
    }

    /// The instant given by seconds since midnight and nanoseconds, or `None`
    /// where the two do not denote an instant of a day.
    pub fn new(secs: u32, frac: u32) -> (r: Option<TimeOfDay>)
        ensures
            r == (if (TimeOfDay { secs, frac }).wf() {
                Some(TimeOfDay { secs, frac })
            } else {
                None
            }),
    {
        if secs >= 86_400 || frac >= 2_000_000_000 || (frac >= 1_000_000_000 && secs % 60 != 59) {
            None
        } else {
            Some(TimeOfDay { secs, frac })
        }
    }

    /// Whether `self` is strictly later than `other`.
    pub fn after(&self, other: &TimeOfDay) -> (r: bool)
        ensures
            r == self.is_after(*other),
    {
        self.secs > other.secs || (self.secs == other.secs && self.frac > other.frac)
    }

    /// Whether `self` is `target` or later.
    pub fn reached(&self, target: &TimeOfDay) -> (r: bool)
        ensures
            r == self.has_reached(*target),
    {
        !target.after(self)
    }
}

/// A calendar date, held as its day number in the proleptic Gregorian
/// calendar: 1 is January 1 of year 1, and each later day is one more.
#[derive(Clone, Copy, Debug, PartialEq, Eq, Structural)]
pub struct Date {
    pub days: i32,
}

impl Date {
    /// `self` is a strictly later day than `other`.
    pub open spec fn is_after(self, other: Date) -> bool {
        self.days > other.days
    }

    /// Whether `self` is a strictly later day than `other`.
    pub fn after(&self, other: &Date) -> (r: bool)
        ensures
            r == self.is_after(*other),
    {
        self.days > other.days
    }
}

/// `chrono::ParseError`, the error of `chrono`'s parsers, carried as an opaque
/// value.
#[verifier::external_type_specification]
#[verifier::external_body]
pub struct ExParseError(chrono::ParseError);

/// `core::num::ParseIntError`, the error of the standard integer parser,
/// carried as an opaque value.
#[verifier::external_type_specification]
#[verifier::external_body]
pub struct ExParseIntError(core::num::ParseIntError);

/// What `chrono::NaiveTime::parse_from_str` makes of `text` under `format`:
/// the parsed instant, or `None` where it reports an error.
pub uninterp spec fn time_parsed(text: Seq<char>, format: Seq<char>) -> Option<TimeOfDay>;

/// What `chrono::NaiveDate::parse_from_str` makes of `text` under `format`:
/// the parsed date, or `None` where it reports an error.
pub uninterp spec fn date_parsed(text: Seq<char>, format: Seq<char>) -> Option<Date>;

/// Whether the day numbered `days` lies in the calendar that dates are kept
/// in: from January 1 of the year -262143 to December 31 of the year 262142.
pub open spec fn in_calendar(days: int) -> bool {
    -95_746_129 <= days <= 95_745_399
}

/// The weekday at position `index` of a week that begins on Monday.
pub open spec fn weekday_at(index: int) -> Weekday {
    if index == 0 {
        Weekday::Mon
    } else if index == 1 {
        Weekday::Tue
    } else if index == 2 {
        Weekday::Wed
    } else if index == 3 {
        Weekday::Thu
    } else if index == 4 {
        Weekday::Fri
    } else if index == 5 {
        Weekday::Sat
    } else {
        Weekday::Sun
    }
}

/// The weekday of the day numbered `days`, or `None` where that day lies
/// outside the calendar.  Day 1 is a Monday, and the weekdays follow each
/// other from day to day.
pub open spec fn weekday_on(days: int) -> Option<Weekday> {
    if in_calendar(days) {
        Some(weekday_at((days - 1) % 7))
    } else {
        None
    }
}

/// Whether `c` is one of the decimal digits '0' to '9'.
pub open spec fn is_digit(c: char) -> bool {
    '0' <= c && c <= '9'
}

/// The number that `digits` writes in decimal, leading zeros allowed, or
/// `None` where a character of it is no decimal digit.  The empty text
/// writes 0.
pub open spec fn decimal_value(digits: Seq<char>) -> Option<nat>
    decreases digits.len(),
{
    if digits.len() == 0 {
        Some(0)
    } else if !is_digit(digits.last()) {
        None
    } else {
        match decimal_value(digits.drop_last()) {
            Some(front) => Some(front * 10 + (digits.last() as nat - '0' as nat) as nat),
            None => None,
        }
    }
}

/// The small number that `text` writes: an optional `+`, then one or more
/// decimal digits and nothing else, with a value of at most 255.  Any other
/// text, the empty one and a lone `+` among them, writes none.
pub open spec fn small_int_parsed(text: Seq<char>) -> Option<u8> {
    let digits = if text.len() > 0 && text[0] == '+' {
        text.drop_first()
    } else {
        text
    };
    if digits.len() == 0 {
        None
    } else {
        match decimal_value(digits) {
            Some(value) => if value <= 255 {
                Some(value as u8)
            } else {
                None
            },
            None => None,
        }
    }
}

/// A text with a character that is no decimal digit writes no number.
proof fn lemma_stray_character(digits: Seq<char>, at: int)
    requires
        0 <= at < digits.len(),
        !is_digit(digits[at]),
    ensures
        decimal_value(digits) is None,
    decreases digits.len(),
{
    if at < digits.len() - 1 {
        lemma_stray_character(digits.drop_last(), at);
    }
}

/// Non-numeric text writes no small number: a text that holds, at any
/// place, a character that is neither a decimal digit nor a `+` in front.
pub proof fn law_non_numeric_text_is_no_number(text: Seq<char>, at: int)
    requires
        0 <= at < text.len(),
        !is_digit(text[at]),
        !(at == 0 && text[0] == '+'),
    ensures
        small_int_parsed(text) is None,
{
    if text[0] == '+' {
        lemma_stray_character(text.drop_first(), at - 1);
    } else {
        lemma_stray_character(text, at);
    }
}

/// A text of one decimal digit writes that digit's value.
pub proof fn law_one_digit_is_its_value(digit: char)
    requires
        is_digit(digit),
    ensures
        small_int_parsed(seq![digit]) == Some((digit as nat - '0' as nat) as u8),
{
    let text = seq![digit];
    assert(text.drop_last() =~= Seq::<char>::empty());
    assert(decimal_value(text.drop_last()) == Some(0nat));
    assert(text.last() == digit);
}

/// Calls `chrono::NaiveTime::parse_from_str`.  The contract names the outcome
/// [`time_parsed`] and claims that a parsed instant is well formed, which
/// `chrono` guarantees of every `NaiveTime`; nothing else is claimed.
#[verifier::external_body]
pub(crate) fn chrono_parse_time(text: &str, format: &str) -> (r: Result<TimeOfDay, chrono::ParseError>)
    ensures
        r is Ok <==> time_parsed(text@, format@) is Some,
        r is Ok ==> time_parsed(text@, format@) == Some(r->Ok_0) && r->Ok_0.wf(),
{
    match chrono::NaiveTime::parse_from_str(text, format) {
        Ok(t) => Ok(TimeOfDay {
            secs: chrono::Timelike::num_seconds_from_midnight(&t),
            frac: chrono::Timelike::nanosecond(&t),
        }),
        Err(e) => Err(e),
    }
}

/// Calls `chrono::NaiveDate::parse_from_str` and takes the day number of the
/// date it returns.  The contract only names the outcome [`date_parsed`].
#[verifier::external_body]
pub(crate) fn chrono_parse_date(text: &str, format: &str) -> (r: Result<Date, chrono::ParseError>)
    ensures
        r is Ok <==> date_parsed(text@, format@) is Some,
        r is Ok ==> date_parsed(text@, format@) == Some(r->Ok_0),
{
    match chrono::NaiveDate::parse_from_str(text, format) {
        Ok(d) => Ok(Date { days: chrono::Datelike::num_days_from_ce(&d) }),
        Err(e) => Err(e),
    }
}

/// Calls `chrono::Datelike::weekday` on the date with day number `days`.  The
/// contract claims two things of `chrono`.  First, that
/// `chrono::NaiveDate::from_num_days_from_ce_opt` has a date for `days`
/// exactly within the bounds of [`in_calendar`], which are the day numbers
/// of its first and last date.  Second, that the weekday it gives is the one
/// of the proleptic Gregorian calendar, in which day 1 is a Monday.
#[verifier::external_body]
pub(crate) fn chrono_weekday(days: i32) -> (r: Option<Weekday>)
    ensures
        r == weekday_on(days as int),
{
    let date = chrono::NaiveDate::from_num_days_from_ce_opt(days)?;
    Some(match chrono::Datelike::weekday(&date) {
        chrono::Weekday::Mon => Weekday::Mon,
        chrono::Weekday::Tue => Weekday::Tue,
        chrono::Weekday::Wed => Weekday::Wed,
        chrono::Weekday::Thu => Weekday::Thu,
        chrono::Weekday::Fri => Weekday::Fri,
        chrono::Weekday::Sat => Weekday::Sat,
        chrono::Weekday::Sun => Weekday::Sun,
    })
}

/// Calls `str::parse::<u8>`.  The contract claims what the standard
/// library documents of it: it accepts an optional `+` followed by decimal
/// digits only, refuses the empty text, a sign without digits and anything
/// before, between or after the digits, and refuses a value that does not
/// fit in a `u8`.  [`small_int_parsed`] says this in full.
#[verifier::external_body]
pub(crate) fn std_parse_u8(text: &str) -> (r: Result<u8, core::num::ParseIntError>)
    ensures
        r is Ok <==> small_int_parsed(text@) is Some,
        r is Ok ==> small_int_parsed(text@) == Some(r->Ok_0),
{
    text.parse::<u8>()
}

/// Parses a time of day written as `HH:MM` on the 24-hour clock.
pub fn parse_time(text: &str) -> (r: Option<TimeOfDay>)
    ensures
        r == time_parsed(text@, "%H:%M"@),
        r is Some ==> r->Some_0.wf(),
{
    match chrono_parse_time(text, "%H:%M") {
        Ok(t) => Some(t),
        Err(_) => None,
    }
}

/// Parses a calendar date written as `YYYY-MM-DD`.
pub fn parse_date(text: &str) -> (r: Option<Date>)
    ensures
        r == date_parsed(text@, "%Y-%m-%d"@),
{
    match chrono_parse_date(text, "%Y-%m-%d") {
        Ok(d) => Some(d),
        Err(_) => None,
    }
}

/// The weekday of `date`, or `None` where the date lies outside the calendar.
pub fn weekday_of(date: Date) -> (r: Option<Weekday>)
    ensures
        r == weekday_on(date.days as int),
        r is Some <==> in_calendar(date.days as int),
{
    chrono_weekday(date.days)
}

/// Parses a small non-negative number such as a term or a week.
pub fn parse_small_int(text: &str) -> (r: Option<u8>)
    ensures
        r == small_int_parsed(text@),
{
    match std_parse_u8(text) {
        Ok(v) => Some(v),
        Err(_) => None,
    }
}

} // verus!
