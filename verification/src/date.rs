//! Calendar dates of the proleptic Gregorian calendar, held as year, month
//! and day, and their text as the `chrono` crate reads and writes it.

use vstd::arithmetic::div_mod::lemma_mod_multiples_vanish;
use vstd::prelude::*;

verus! {

/// The first year that a date can have.
pub const MIN_YEAR: i32 = -262143;

/// The last year that a date can have.
pub const MAX_YEAR: i32 = 262142;

/// Whether `year` has a 29th of February.
pub open spec fn is_leap_year(year: int) -> bool {
    year % 4 == 0 && (year % 100 != 0 || year % 400 == 0)
}

/// The number of days of `month` in `year`; 0 where there is no such month.
pub open spec fn days_in_month(year: int, month: int) -> int {
    if month == 2 {
        if is_leap_year(year) {
            29
        } else {
            28
        }
    } else if month == 4 || month == 6 || month == 9 || month == 11 {
        30
    } else if 1 <= month <= 12 {
        31
    } else {
        0
    }
}

/// Whether the calendar has the day `day` of `month` in `year`, and the year
/// is one that a date can have.
pub open spec fn valid_ymd(year: int, month: int, day: int) -> bool {
    &&& MIN_YEAR <= year <= MAX_YEAR
    &&& 1 <= month <= 12
    &&& 1 <= day <= days_in_month(year, month)
}

/// The mathematical value of a `Date`.
pub struct DateView {
    pub year: int,
    pub month: int,
    pub day: int,
}

/// The error of `chrono` for a text that is no date in the format asked for.
#[verifier::external_type_specification]
#[verifier::external_body]
pub struct ExParseError(chrono::ParseError);

/// The format in which a layout writes a date: year, month and day with
/// hyphens between them.
pub open spec fn layout_format() -> Seq<char> {
    "%Y-%m-%d"@
}

/// The date that `text` writes in the `strftime`-style format `format`;
/// `None` where `chrono` reports an error.
pub uninterp spec fn parsed_date(text: Seq<char>, format: Seq<char>) -> Option<DateView>;

/// The text of the date `date` in the `strftime`-style format `format`;
/// `None` where `date` is no day of the calendar or `chrono` cannot write
/// the format for a date.
pub uninterp spec fn date_text(date: DateView, format: Seq<char>) -> Option<Seq<char>>;

/// The day in UTC that lies `seconds` seconds after the start of 1970;
/// `None` where that day is beyond the years that a date can have.
pub uninterp spec fn timestamp_date(seconds: int) -> Option<DateView>;

/// `NaiveDate::parse_from_str` with the format of a layout, followed by
/// `Datelike::year`, `month` and `day` on the date it returns. With this
/// format `chrono` builds the date from year, month and day and checks the
/// year before it computes with it, so every text is answered. The contract
/// gives the outcome its name, `parsed_date`, and claims of a date that
/// comes back only that it is a day of the calendar, as every `NaiveDate` is.
#[verifier::external_body]
pub(crate) fn parse_ymd(text: &str, format: &str) -> (parsed: Result<
    (i32, u32, u32),
    chrono::ParseError,
>)
    requires
        format@ == layout_format(),
    ensures
        match parsed {
            Ok((year, month, day)) => {
                &&& parsed_date(text@, format@) == Some(
                    DateView { year: year as int, month: month as int, day: day as int },
                )
                &&& valid_ymd(year as int, month as int, day as int)
            },
            Err(_) => parsed_date(text@, format@) is None,
        },
{
    let date = chrono::NaiveDate::parse_from_str(text, format)?;
    Ok((chrono::Datelike::year(&date), chrono::Datelike::month(&date), chrono::Datelike::day(&date)))
}

/// `Display` of `chrono::ParseError`: the crate's account of why a text is
/// no date. Nothing is claimed of the text.
#[verifier::external_body]
pub(crate) fn parse_error_text(error: &chrono::ParseError) -> String {
    format!("{}", error)
}

/// `NaiveDate::from_ymd_opt`, `NaiveDate::format` and
/// `DelayedFormat::write_to`: the date written in `format`. `None` where the
/// first finds no such day or the last reports an error, as it does for a
/// format that `chrono` does not know or that asks for a time of day. The
/// contract only gives the outcome its name, `date_text`.
#[verifier::external_body]
pub(crate) fn format_ymd(year: i32, month: u32, day: u32, format: &str) -> (text: Option<String>)
    ensures
        match text {
            Some(written) => date_text(
                DateView { year: year as int, month: month as int, day: day as int },
                format@,
            ) == Some(written@),
            None => date_text(
                DateView { year: year as int, month: month as int, day: day as int },
                format@,
            ) is None,
        },
{
    let date = chrono::NaiveDate::from_ymd_opt(year, month, day)?;
    let mut written = String::new();
    match date.format(format).write_to(&mut written) {
        Ok(()) => Some(written),
        Err(_) => None,
    }
}

/// `SystemTime::elapsed` of the standard library on `UNIX_EPOCH`: the whole
/// seconds that have passed since the start of 1970, or `None` where the
/// clock stands before it. It depends on the clock, so nothing is claimed of
/// the number.
#[verifier::external_body]
pub(crate) fn seconds_since_epoch() -> Option<u64> {
    match std::time::UNIX_EPOCH.elapsed() {
        Ok(passed) => Some(passed.as_secs()),
        Err(_) => None,
    }
}

/// `DateTime::from_timestamp`, followed by `Datelike::year`, `month` and
/// `day`: the day in UTC that lies `seconds` seconds after the start of 1970,
/// or `None` where `chrono` has no such day. The contract gives the outcome
/// its name, `timestamp_date`, and claims of a date that comes back only
/// that it is a day of the calendar.
#[verifier::external_body]
pub(crate) fn date_of_timestamp(seconds: i64) -> (date: Option<(i32, u32, u32)>)
    ensures
        match date {
            Some((year, month, day)) => {
                &&& timestamp_date(seconds as int) == Some(
                    DateView { year: year as int, month: month as int, day: day as int },
                )
                &&& valid_ymd(year as int, month as int, day as int)
            },
            None => timestamp_date(seconds as int) is None,
        },
{
    let moment = chrono::DateTime::from_timestamp(seconds, 0)?;
    Some(
        (
            chrono::Datelike::year(&moment),
            chrono::Datelike::month(&moment),
            chrono::Datelike::day(&moment),
        ),
    )
}

/// A day of the calendar.
#[derive(Clone, Copy, Debug, PartialEq, Eq, Structural)]
pub struct Date {
    year: i32,
    month: u32,
    day: u32,
}

/// Why a text is no date.
#[derive(Debug)]
pub struct DateParseError {
    /// The parser's account of the failure.
    pub message: String,
}

impl View for Date {
    type V = DateView;

    closed spec fn view(&self) -> DateView {
        DateView { year: self.year as int, month: self.month as int, day: self.day as int }
    }
}

/// Whether `year` has a 29th of February.
pub fn leap_year(year: i32) -> (leap: bool)
    ensures
        leap == is_leap_year(year as int),
{
    // A multiple of 400 that lifts every year above zero.
    let lifted: u64 = (year as i64 + 2147484000) as u64;
    proof {
        lemma_mod_multiples_vanish(536871000, year as int, 4);
        lemma_mod_multiples_vanish(21474840, year as int, 100);
        lemma_mod_multiples_vanish(5368710, year as int, 400);
    }
    lifted % 4 == 0 && (lifted % 100 != 0 || lifted % 400 == 0)
}

/// The last day of `month` in `year`; 0 where there is no such month.
pub fn last_day_of_month(year: i32, month: u32) -> (days: u32)
    ensures
        days == days_in_month(year as int, month as int),
{
    if month == 2 {
        if leap_year(year) {
            29
        } else {
            28
        }
    } else if month == 4 || month == 6 || month == 9 || month == 11 {
        30
    } else if 1 <= month && month <= 12 {
        31
    } else {
        0
    }
}

impl Date {
    #[verifier::type_invariant]
    spec fn is_day_of_calendar(self) -> bool {
        valid_ymd(self.year as int, self.month as int, self.day as int)
    }

    /// The date of the given year, month and day, where the calendar has it.
    pub fn from_ymd_opt(year: i32, month: u32, day: u32) -> (date: Option<Date>)
        ensures
            date is Some <==> valid_ymd(year as int, month as int, day as int),
            date matches Some(d) ==> d@ == (DateView {
                year: year as int,
                month: month as int,
                day: day as int,
            }),
    {
        if year < MIN_YEAR || year > MAX_YEAR {
            return None;
        }
        if month < 1 || month > 12 || day < 1 || day > last_day_of_month(year, month) {
            return None;
        }
        Some(Date { year, month, day })
    }

    /// The year, the month from 1 to 12 and the day of the month from 1:
    /// always a day that the calendar has.
    pub fn ymd(&self) -> (ymd: (i32, u32, u32))
        ensures
            self@ == (DateView { year: ymd.0 as int, month: ymd.1 as int, day: ymd.2 as int }),
            valid_ymd(ymd.0 as int, ymd.1 as int, ymd.2 as int),
    {
        proof {
            use_type_invariant(self);
        }
        (self.year, self.month, self.day)
    }

    /// The year.
    pub fn year(&self) -> (year: i32)
        ensures
            year == self@.year,
            MIN_YEAR <= year <= MAX_YEAR,
    {
        proof {
            use_type_invariant(self);
        }
        self.year
    }

    /// The month, from 1 to 12.
    pub fn month(&self) -> (month: u32)
        ensures
            month == self@.month,
            1 <= month <= 12,
    {
        proof {
            use_type_invariant(self);
        }
        self.month
    }

    /// The day of the month, from 1.
    pub fn day(&self) -> (day: u32)
        ensures
            day == self@.day,
            1 <= day <= days_in_month(self@.year, self@.month),
    {
        proof {
            use_type_invariant(self);
        }
        self.day
    }

    /// The day in UTC that lies `seconds` seconds after the start of 1970,
    /// where it is within the years that a date can have.
    pub fn from_timestamp(seconds: u64) -> (date: Option<Date>)
        ensures
            match date {
                Some(day) => seconds <= i64::MAX && timestamp_date(seconds as int) == Some(day@),
                None => seconds > i64::MAX || timestamp_date(seconds as int) is None,
            },
    {
        if seconds > 9223372036854775807 {
            return None;
        }
        match date_of_timestamp(seconds as i64) {
            Some((year, month, day)) => Some(Date { year, month, day }),
            None => None,
        }
    }

    /// The current day in UTC, as far as the clock gives one: there is none
    /// where the clock stands before 1970 or beyond the years that a date can
    /// have.
    pub fn today() -> (today: Option<Date>)
        ensures
            today matches Some(day) ==> valid_ymd(day@.year, day@.month, day@.day),
    {
        match seconds_since_epoch() {
            Some(seconds) => {
                let today = Date::from_timestamp(seconds);
                proof {
                    if let Some(day) = today {
                        use_type_invariant(day);
                    }
                }
                today
            },
            None => None,
        }
    }

    /// Reads a date from `text` in the format of a layout: year, month and
    /// day with hyphens between them.
    pub fn parse_from_layout(text: &str) -> (parsed: Result<Date, DateParseError>)
        ensures
            match parsed {
                Ok(date) => parsed_date(text@, layout_format()) == Some(date@),
                Err(_) => parsed_date(text@, layout_format()) is None,
            },
    {
        match parse_ymd(text, "%Y-%m-%d") {
            Ok((year, month, day)) => Ok(Date { year, month, day }),
            Err(error) => Err(DateParseError { message: parse_error_text(&error) }),
        }
    }

    /// Writes the date in the `strftime`-style format `format`, where the
    /// format can be written for a date.
    pub fn format(&self, format: &str) -> (text: Option<String>)
        ensures
            match text {
                Some(written) => date_text(self@, format@) == Some(written@),
                None => date_text(self@, format@) is None,
            },
    {
        format_ymd(self.year, self.month, self.day, format)
    }
}

} // verus!
