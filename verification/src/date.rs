use crate::text::opt_chars;
use crate::time_delta::TimeDelta;
use chrono::Datelike;
use vstd::prelude::*;

verus! {

/// Day number of the earliest date, January 1 of the year -262143.
pub const MIN_DAYS: i32 = -95_746_129;

/// Day number of the latest date, December 31 of the year 262142.
pub const MAX_DAYS: i32 = 95_745_399;

/// The pattern in which the upstream API writes dates, such as `2015-09-17`.
pub const ISO_DATE_FORMAT: &'static str = "%Y-%m-%d";

/// The pattern in which a feed shows dates, such as `17-Sep-2015`.
pub const DISPLAY_DATE_FORMAT: &'static str = "%d-%b-%Y";

/// The pattern in which a feed states the time at which it was built.
pub const BUILD_DATE_FORMAT: &'static str = "%a, %d %b %Y %H:%M %Z";

/// The day number of the calendar day `year`-`month`-`day`, where there is
/// such a day within the range of dates.
pub uninterp spec fn days_from_ymd(year: int, month: int, day: int) -> Option<int>;

/// The day number of the date that `text` holds when read by the pattern
/// `format`, where it holds one.
pub uninterp spec fn parsed_days(text: Seq<char>, format: Seq<char>) -> Option<int>;

/// The text of the date with day number `days` written in the pattern `format`.
pub uninterp spec fn formatted_days(days: int, format: Seq<char>) -> Seq<char>;

/// The day number `days` moved by `by` days, if that is the number of a date.
pub open spec fn shifted_days(days: int, by: int) -> Option<int> {
    if MIN_DAYS <= days + by <= MAX_DAYS {
        Some(days + by)
    } else {
        None
    }
}

/// A calendar date without a time of day, held as its day number in the
/// proleptic Gregorian calendar: January 1 of the year 1 is day 1.
#[derive(Debug, Copy, Clone, PartialEq, Eq, Structural, PartialOrd, Ord, Hash)]
pub struct Date {
    days: i32,
}

impl View for Date {
    type V = int;

    closed spec fn view(&self) -> int {
        self.days as int
    }
}

/// The day number of an optional date.
pub open spec fn opt_days(date: Option<Date>) -> Option<int> {
    match date {
        Some(d) => Some(d@),
        None => None,
    }
}

impl Date {
    /// Whether the day number lies within the range of dates.
    #[verifier::type_invariant]
    pub closed spec fn wf(self) -> bool {
        MIN_DAYS <= self.days <= MAX_DAYS
    }

    /// A valid date lies within the range, and its day number tells it apart.
    pub proof fn lemma_days(self, other: Date)
        requires
            self.wf(),
        ensures
            MIN_DAYS <= self@ <= MAX_DAYS,
            self@ == other@ <==> self == other,
    {
    }

    /// The earliest date.
    pub fn min_value() -> (date: Date)
        ensures
            date@ == MIN_DAYS,
    {
        Date { days: MIN_DAYS }
    }

    /// The latest date.
    pub fn max_value() -> (date: Date)
        ensures
            date@ == MAX_DAYS,
    {
        Date { days: MAX_DAYS }
    }

    /// The date with the day number `days`, if it is within range.
    pub fn from_num_days_from_ce_opt(days: i32) -> (date: Option<Date>)
        ensures
            date is Some <==> MIN_DAYS <= days <= MAX_DAYS,
            date matches Some(d) ==> d@ == days,
    {
        if days < MIN_DAYS || days > MAX_DAYS {
            None
        } else {
            Some(Date { days })
        }
    }

    /// The day number of the date.
    pub fn num_days_from_ce(&self) -> (days: i32)
        ensures
            days == self@,
            MIN_DAYS <= days <= MAX_DAYS,
    {
        proof {
            use_type_invariant(self);
        }
        self.days
    }

    /// `chrono::NaiveDate::from_ymd_opt`, followed by the day number of the
    /// date it gives. The day number is named by `days_from_ymd`; nothing
    /// more is claimed than that every date of chrono lies within the range.
    #[verifier::external_body]
    fn chrono_from_ymd(year: i32, month: u32, day: u32) -> (date: Option<Date>)
        ensures
            opt_days(date) == days_from_ymd(year as int, month as int, day as int),
            date matches Some(d) ==> d.wf(),
    {
        chrono::NaiveDate::from_ymd_opt(year, month, day).map(|d| Date { days: d.num_days_from_ce() })
    }

    /// `chrono::NaiveDate::parse_from_str`, followed by the day number of the
    /// date it gives; an input that it refuses gives `None`, and so does a
    /// pattern that it cannot read, which chrono answers with an error. The
    /// day number is named by `parsed_days`, and lies within the range of
    /// dates.
    #[verifier::external_body]
    fn chrono_parse(text: &str, format: &str) -> (date: Option<Date>)
        ensures
            opt_days(date) == parsed_days(text@, format@),
            date matches Some(d) ==> d.wf(),
    {
        chrono::NaiveDate::parse_from_str(text, format).ok().map(|d| Date { days: d.num_days_from_ce() })
    }

    /// `chrono::NaiveDate::format` with `to_string`, on the date of chrono
    /// with the same day number. chrono panics on a pattern that it cannot
    /// read, so only the display pattern is admitted. The text is named by
    /// `formatted_days`.
    #[verifier::external_body]
    fn chrono_format(date: Date, format: &str) -> (text: Option<String>)
        requires
            date.wf(),
            format@ == DISPLAY_DATE_FORMAT@,
        ensures
            opt_chars(text) == Some(formatted_days(date@, format@)),
    {
        chrono::NaiveDate::from_num_days_from_ce_opt(date.days).map(|d| d.format(format).to_string())
    }

    /// `chrono::NaiveDate::checked_add_signed`, on the date and the span
    /// of chrono with the same parts: the date moved forward by the whole
    /// days of `delta`, or `None` where that leaves the range of dates.
    #[verifier::external_body]
    fn chrono_checked_add_signed(date: Date, delta: TimeDelta) -> (sum: Option<Date>)
        requires
            date.wf(),
            delta.wf(),
        ensures
            opt_days(sum) == shifted_days(date@, delta.spec_num_days()),
    {
        let d = chrono::NaiveDate::from_num_days_from_ce_opt(date.days)?;
        let t = chrono::TimeDelta::new(delta.secs(), delta.subsec_nanos())?;
        d.checked_add_signed(t).map(|d| Date { days: d.num_days_from_ce() })
    }

    /// `chrono::NaiveDate::checked_sub_signed`, on the date and the span
    /// of chrono with the same parts: the date moved back by the whole
    /// days of `delta`, or `None` where that leaves the range of dates.
    #[verifier::external_body]
    fn chrono_checked_sub_signed(date: Date, delta: TimeDelta) -> (difference: Option<Date>)
        requires
            date.wf(),
            delta.wf(),
        ensures
            opt_days(difference) == shifted_days(date@, -delta.spec_num_days()),
    {
        let d = chrono::NaiveDate::from_num_days_from_ce_opt(date.days)?;
        let t = chrono::TimeDelta::new(delta.secs(), delta.subsec_nanos())?;
        d.checked_sub_signed(t).map(|d| Date { days: d.num_days_from_ce() })
    }

    /// `chrono::Utc::now`: the calendar day in UTC at the moment of the
    /// call, and that moment written with `chrono::DateTime::format`.
    /// chrono panics on a pattern that it cannot read, so only the pattern
    /// of build dates is admitted; it also panics where the clock of the
    /// machine stands before the year 1970, which no argument can keep
    /// out. Nothing is claimed of the result but that the day lies within
    /// the range of dates.
    #[verifier::external_body]
    fn chrono_now(format: &str) -> (now: (Date, String))
        requires
            format@ == BUILD_DATE_FORMAT@,
        ensures
            now.0.wf(),
    {
        let now = chrono::Utc::now();
        (Date { days: now.date_naive().num_days_from_ce() }, now.format(format).to_string())
    }

    /// The date of the calendar day `year`-`month`-`day`, if there is one.
    pub fn from_ymd_opt(year: i32, month: u32, day: u32) -> (date: Option<Date>)
        ensures
            opt_days(date) == days_from_ymd(year as int, month as int, day as int),
    {
        Date::chrono_from_ymd(year, month, day)
    }

    /// The date that `text` holds in the pattern `format`, if it holds one.
    pub fn parse_from_str(text: &str, format: &str) -> (date: Option<Date>)
        ensures
            opt_days(date) == parsed_days(text@, format@),
    {
        Date::chrono_parse(text, format)
    }

    /// The date as a feed shows it: day, abbreviated month and year.
    pub fn display_text(&self) -> (text: String)
        ensures
            text@ == formatted_days(self@, DISPLAY_DATE_FORMAT@),
    {
        proof {
            use_type_invariant(self);
        }
        match Date::chrono_format(*self, DISPLAY_DATE_FORMAT) {
            Some(text) => text,
            None => String::new(),
        }
    }

    /// The date moved forward by the whole days of `delta`; `None` if the
    /// result would be out of range.
    pub fn checked_add_signed(&self, delta: TimeDelta) -> (sum: Option<Date>)
        ensures
            opt_days(sum) == shifted_days(self@, delta.spec_num_days()),
    {
        proof {
            use_type_invariant(self);
            use_type_invariant(&delta);
        }
        Date::chrono_checked_add_signed(*self, delta)
    }

    /// The date moved back by the whole days of `delta`; `None` if the result
    /// would be out of range.
    pub fn checked_sub_signed(&self, delta: TimeDelta) -> (difference: Option<Date>)
        ensures
            opt_days(difference) == shifted_days(self@, -delta.spec_num_days()),
    {
        proof {
            use_type_invariant(self);
            use_type_invariant(&delta);
        }
        Date::chrono_checked_sub_signed(*self, delta)
    }

    /// The calendar day in UTC at the moment of the call, and that moment
    /// as a feed states its build date. Which day that is, the clock
    /// decides; it is a day within the range of dates.
    pub fn now() -> (now: (Date, String))
        ensures
            MIN_DAYS <= now.0@ <= MAX_DAYS,
    {
        Date::chrono_now(BUILD_DATE_FORMAT)
    }

    /// The calendar day in UTC at the moment of the call. Which day that
    /// is, the clock decides; it is a day within the range of dates.
    pub fn today() -> (today: Date)
        ensures
            MIN_DAYS <= today@ <= MAX_DAYS,
    {
        Date::now().0
    }

    /// Whether the date comes strictly before `other`.
    pub fn is_before(&self, other: &Date) -> (before: bool)
        ensures
            before == (self@ < other@),
    {
        self.days < other.days
    }

    /// Whether the date comes strictly after `other`.
    pub fn is_after(&self, other: &Date) -> (after: bool)
        ensures
            after == (self@ > other@),
    {
        self.days > other.days
    }
}

} // verus!
