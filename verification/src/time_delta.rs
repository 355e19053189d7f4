use std::str::FromStr;
use vstd::prelude::*;

verus! {

/// The length in whole seconds, and the nanoseconds on top of them, of the
/// duration that `text` spells out in words such as `5h` or `2 months`,
/// where it spells one out.
pub uninterp spec fn parsed_duration(text: Seq<char>) -> Option<(nat, nat)>;

/// The nanoseconds of a second.
pub const NANOS_PER_SEC: u32 = 1_000_000_000;

/// The seconds of a minute.
pub const SECS_PER_MINUTE: i64 = 60;

/// The seconds of an hour.
pub const SECS_PER_HOUR: i64 = 3_600;

/// The seconds of a day.
pub const SECS_PER_DAY: i64 = 86_400;

/// The seconds of a week.
pub const SECS_PER_WEEK: i64 = 604_800;

/// Seconds of the longest span, which is `i64::MAX` milliseconds long.
pub const MAX_SECS: i64 = 9_223_372_036_854_775;

/// Nanoseconds of the longest span.
pub const MAX_NANOS: u32 = 807_000_000;

/// Seconds of the shortest span, which is `-i64::MAX` milliseconds long.
pub const MIN_SECS: i64 = -9_223_372_036_854_776;

/// Nanoseconds of the shortest span.
pub const MIN_NANOS: u32 = 193_000_000;

/// Whether `secs` whole seconds and `nanos` nanoseconds on top of them make a
/// span that a `TimeDelta` can hold.
pub open spec fn in_range(secs: int, nanos: int) -> bool {
    &&& MIN_SECS <= secs <= MAX_SECS
    &&& 0 <= nanos < NANOS_PER_SEC
    &&& secs == MAX_SECS ==> nanos <= MAX_NANOS
    &&& secs == MIN_SECS ==> nanos >= MIN_NANOS
}

/// The quotient of `a` by the positive `b`, rounded towards zero.
pub open spec fn div_towards_zero(a: int, b: int) -> int {
    if a >= 0 {
        a / b
    } else {
        -((-a) / b)
    }
}

/// A signed span of time with nanosecond precision: `secs` whole seconds
/// plus `nanos` nanoseconds, the latter never negative.
#[derive(Debug, Copy, Clone, PartialEq, Eq, Structural, PartialOrd, Ord, Hash)]
pub struct TimeDelta {
    secs: i64,
    nanos: u32,
}

/// The error of a conversion whose source is longer than any `TimeDelta`.
#[derive(Debug, Copy, Clone, PartialEq, Eq, Structural)]
pub struct OutOfRangeError {}

impl TimeDelta {
    /// Whether the parts make a span within range.
    #[verifier::type_invariant]
    pub closed spec fn wf(self) -> bool {
        in_range(self.secs as int, self.nanos as int)
    }

    /// The whole seconds of the span, rounded towards negative infinity.
    pub closed spec fn spec_secs(self) -> int {
        self.secs as int
    }

    /// The nanoseconds that the span holds on top of `spec_secs`.
    pub closed spec fn spec_nanos(self) -> int {
        self.nanos as int
    }

    /// The span of `secs` whole seconds and `nanos` nanoseconds on top.
    pub closed spec fn spec_new(secs: int, nanos: int) -> TimeDelta {
        TimeDelta { secs: secs as i64, nanos: nanos as u32 }
    }

    /// The span of `secs` and `nanos`, if there is one.
    pub open spec fn spec_new_opt(secs: int, nanos: int) -> Option<TimeDelta> {
        if in_range(secs, nanos) {
            Some(TimeDelta::spec_new(secs, nanos))
        } else {
            None
        }
    }

    /// A span in range is valid and holds the parts it was made of.
    pub proof fn lemma_new(secs: int, nanos: int)
        requires
            in_range(secs, nanos),
        ensures
            TimeDelta::spec_new(secs, nanos).wf(),
            TimeDelta::spec_new(secs, nanos).spec_secs() == secs,
            TimeDelta::spec_new(secs, nanos).spec_nanos() == nanos,
    {
    }

    /// The span in nanoseconds.
    pub open spec fn total_nanos(self) -> int {
        self.spec_secs() * (NANOS_PER_SEC as int) + self.spec_nanos()
    }

    /// The whole seconds of the span, rounded towards zero.
    pub open spec fn spec_num_seconds(self) -> int {
        if self.spec_secs() < 0 && self.spec_nanos() > 0 {
            self.spec_secs() + 1
        } else {
            self.spec_secs()
        }
    }

    /// The whole days of the span, rounded towards zero.
    pub open spec fn spec_num_days(self) -> int {
        div_towards_zero(self.spec_num_seconds(), SECS_PER_DAY as int)
    }

    /// Whether the span is strictly shorter than `other`.
    pub open spec fn spec_lt(self, other: TimeDelta) -> bool {
        self.total_nanos() < other.total_nanos()
    }

    /// Every span is within range, and equal parts make equal spans.
    pub proof fn lemma_parts(self, other: TimeDelta)
        requires
            self.wf(),
            other.wf(),
        ensures
            in_range(self.spec_secs(), self.spec_nanos()),
            self.spec_secs() == other.spec_secs() && self.spec_nanos() == other.spec_nanos()
                ==> self == other,
            self == TimeDelta::spec_new(self.spec_secs(), self.spec_nanos()),
            self.spec_lt(other) <==> self.spec_secs() < other.spec_secs() || (self.spec_secs()
                == other.spec_secs() && self.spec_nanos() < other.spec_nanos()),
    {
        let a = self.spec_secs();
        let b = other.spec_secs();
        assert(a < b ==> a * 1_000_000_000 + 1_000_000_000 <= b * 1_000_000_000);
        assert(b < a ==> b * 1_000_000_000 + 1_000_000_000 <= a * 1_000_000_000);
    }

    /// The span of `secs` seconds and `nanos` nanoseconds, if there is one.
    pub fn new(secs: i64, nanos: u32) -> (delta: Option<TimeDelta>)
        ensures
            delta == TimeDelta::spec_new_opt(secs as int, nanos as int),
    {
        if secs < MIN_SECS || secs > MAX_SECS || nanos >= NANOS_PER_SEC || (secs == MAX_SECS
            && nanos > MAX_NANOS) || (secs == MIN_SECS && nanos < MIN_NANOS) {
            return None;
        }
        Some(TimeDelta { secs, nanos })
    }

    /// The span of `seconds` whole seconds, if it is within range.
    pub fn try_seconds(seconds: i64) -> (delta: Option<TimeDelta>)
        ensures
            delta == TimeDelta::spec_new_opt(seconds as int, 0),
    {
        TimeDelta::new(seconds, 0)
    }

    /// The span of `count` units of `unit_secs` seconds each, if it is within range.
    fn try_units(count: i64, unit_secs: i64) -> (delta: Option<TimeDelta>)
        requires
            0 < unit_secs <= SECS_PER_WEEK,
        ensures
            delta == TimeDelta::spec_new_opt(count * unit_secs, 0),
    {
        let limit: i64 = MAX_SECS / unit_secs;
        assert(limit * unit_secs <= MAX_SECS && MAX_SECS < (limit + 1) * unit_secs) by (nonlinear_arith)
            requires
                limit == MAX_SECS / unit_secs,
                unit_secs > 0,
        ;
        if count > limit {
            assert(count * unit_secs >= (limit + 1) * unit_secs) by (nonlinear_arith)
                requires
                    count >= limit + 1,
                    unit_secs > 0,
            ;
            return None;
        }
        if count < -limit {
            assert(count * unit_secs <= (-limit - 1) * unit_secs) by (nonlinear_arith)
                requires
                    count <= -limit - 1,
                    unit_secs > 0,
            ;
            assert((-limit - 1) * unit_secs == -((limit + 1) * unit_secs)) by (nonlinear_arith);
            return None;
        }
        assert(-(limit * unit_secs) <= count * unit_secs <= limit * unit_secs) by (nonlinear_arith)
            requires
                -limit <= count <= limit,
                unit_secs > 0,
        ;
        TimeDelta::new(count * unit_secs, 0)
    }

    /// The span of `minutes` whole minutes, if it is within range.
    pub fn try_minutes(minutes: i64) -> (delta: Option<TimeDelta>)
        ensures
            delta == TimeDelta::spec_new_opt(minutes * SECS_PER_MINUTE, 0),
    {
        TimeDelta::try_units(minutes, SECS_PER_MINUTE)
    }

    /// The span of `hours` whole hours, if it is within range.
    pub fn try_hours(hours: i64) -> (delta: Option<TimeDelta>)
        ensures
            delta == TimeDelta::spec_new_opt(hours * SECS_PER_HOUR, 0),
    {
        TimeDelta::try_units(hours, SECS_PER_HOUR)
    }

    /// The span of `days` whole days, if it is within range.
    pub fn try_days(days: i64) -> (delta: Option<TimeDelta>)
        ensures
            delta == TimeDelta::spec_new_opt(days * SECS_PER_DAY, 0),
    {
        TimeDelta::try_units(days, SECS_PER_DAY)
    }

    /// The span of `weeks` whole weeks, if it is within range.
    pub fn try_weeks(weeks: i64) -> (delta: Option<TimeDelta>)
        ensures
            delta == TimeDelta::spec_new_opt(weeks * SECS_PER_WEEK, 0),
    {
        TimeDelta::try_units(weeks, SECS_PER_WEEK)
    }

    /// The span of `seconds` whole seconds, which must be within range.
    pub fn seconds(seconds: i64) -> (delta: TimeDelta)
        requires
            in_range(seconds as int, 0),
        ensures
            delta == TimeDelta::spec_new(seconds as int, 0),
    {
        match TimeDelta::try_seconds(seconds) {
            Some(delta) => delta,
            None => TimeDelta { secs: 0, nanos: 0 },
        }
    }

    /// The span of `minutes` whole minutes, which must be within range.
    pub fn minutes(minutes: i64) -> (delta: TimeDelta)
        requires
            in_range(minutes * SECS_PER_MINUTE, 0),
        ensures
            delta == TimeDelta::spec_new(minutes * SECS_PER_MINUTE, 0),
    {
        match TimeDelta::try_minutes(minutes) {
            Some(delta) => delta,
            None => TimeDelta { secs: 0, nanos: 0 },
        }
    }

    /// The span of `hours` whole hours, which must be within range.
    pub fn hours(hours: i64) -> (delta: TimeDelta)
        requires
            in_range(hours * SECS_PER_HOUR, 0),
        ensures
            delta == TimeDelta::spec_new(hours * SECS_PER_HOUR, 0),
    {
        match TimeDelta::try_hours(hours) {
            Some(delta) => delta,
            None => TimeDelta { secs: 0, nanos: 0 },
        }
    }

    /// The span of `days` whole days, which must be within range.
    pub fn days(days: i64) -> (delta: TimeDelta)
        requires
            in_range(days * SECS_PER_DAY, 0),
        ensures
            delta == TimeDelta::spec_new(days * SECS_PER_DAY, 0),
    {
        match TimeDelta::try_days(days) {
            Some(delta) => delta,
            None => TimeDelta { secs: 0, nanos: 0 },
        }
    }

    /// The span of `weeks` whole weeks, which must be within range.
    pub fn weeks(weeks: i64) -> (delta: TimeDelta)
        requires
            in_range(weeks * SECS_PER_WEEK, 0),
        ensures
            delta == TimeDelta::spec_new(weeks * SECS_PER_WEEK, 0),
    {
        match TimeDelta::try_weeks(weeks) {
            Some(delta) => delta,
            None => TimeDelta { secs: 0, nanos: 0 },
        }
    }

    /// The span of an unsigned duration of `secs` seconds and `nanos`
    /// nanoseconds; an error if it is longer than any `TimeDelta`.
    pub fn from_std(secs: u64, nanos: u32) -> (delta: Result<TimeDelta, OutOfRangeError>)
        ensures
            match delta {
                Ok(d) => TimeDelta::spec_new_opt(secs as int, nanos as int) == Some(d),
                Err(_) => TimeDelta::spec_new_opt(secs as int, nanos as int) is None,
            },
    {
        if secs > 9_223_372_036_854_775u64 {
            return Err(OutOfRangeError {  });
        }
        match TimeDelta::new(secs as i64, nanos) {
            Some(delta) => Ok(delta),
            None => Err(OutOfRangeError {  }),
        }
    }

    /// The whole seconds of the span, rounded towards zero.
    pub fn num_seconds(&self) -> (seconds: i64)
        ensures
            seconds == self.spec_num_seconds(),
    {
        proof {
            use_type_invariant(self);
        }
        if self.secs < 0 && self.nanos > 0 {
            self.secs + 1
        } else {
            self.secs
        }
    }

    /// The whole days of the span, rounded towards zero.
    pub fn num_days(&self) -> (days: i64)
        ensures
            days == self.spec_num_days(),
    {
        let seconds = self.num_seconds();
        proof {
            use_type_invariant(self);
        }
        if seconds >= 0 {
            seconds / SECS_PER_DAY
        } else {
            -((-seconds) / SECS_PER_DAY)
        }
    }

    /// The nanoseconds that the span holds on top of its whole seconds,
    /// the latter rounded towards negative infinity.
    pub fn subsec_nanos(&self) -> (nanos: u32)
        ensures
            nanos == self.spec_nanos(),
    {
        self.nanos
    }

    /// The whole seconds of the span, rounded towards negative infinity.
    pub fn secs(&self) -> (secs: i64)
        ensures
            secs == self.spec_secs(),
    {
        self.secs
    }

    /// Whether the span is strictly shorter than `other`.
    pub fn lt(&self, other: &TimeDelta) -> (shorter: bool)
        ensures
            shorter == self.spec_lt(*other),
    {
        proof {
            use_type_invariant(self);
            use_type_invariant(other);
            self.lemma_parts(*other);
        }
        self.secs < other.secs || (self.secs == other.secs && self.nanos < other.nanos)
    }
}

/// The most decimal digits that a text may hold to be read as a span.
///
/// humantime adds up the units of a text in whole seconds, the longest
/// unit being the year of 31 557 600 seconds. With eleven digits among
/// all its numbers a text stays below four times ten to the eighteenth
/// seconds, well within what humantime can count. A text with more
/// digits is refused unread, though humantime would read some of them,
/// such as `100000000000ns`: none of them is a span that a request has
/// any use for.
pub const MAX_SPELLED_DIGITS: usize = 11;

/// Whether `c` is a decimal digit.
pub open spec fn is_digit(c: char) -> bool {
    '0' <= c <= '9'
}

/// The number of decimal digits in `text`.
pub open spec fn digit_count(text: Seq<char>) -> nat
    decreases text.len(),
{
    if text.len() == 0 {
        0
    } else if is_digit(text.last()) {
        digit_count(text.drop_last()) + 1
    } else {
        digit_count(text.drop_last())
    }
}

/// A text holds at least as many digits as any part it begins with.
pub proof fn lemma_digit_count_grows(text: Seq<char>, end: int)
    requires
        0 <= end <= text.len(),
    ensures
        digit_count(text.take(end)) <= digit_count(text),
    decreases text.len() - end,
{
    if end < text.len() {
        lemma_digit_count_grows(text, end + 1);
        assert(text.take(end + 1).drop_last() =~= text.take(end));
    } else {
        assert(text.take(end) =~= text);
    }
}

/// Whether `text` holds no more digits than a span may be spelled with.
pub fn has_few_digits(text: &str) -> (few: bool)
    ensures
        few == (digit_count(text@) <= MAX_SPELLED_DIGITS),
{
    let mut count: usize = 0;
    assert(text@.take(0) =~= Seq::<char>::empty());
    for c in iter: text.chars()
        invariant
            iter.seq() == text@,
            count == digit_count(text@.take(iter.index() as int)),
            count <= MAX_SPELLED_DIGITS,
    {
        proof {
            let next = text@.take(iter.index() + 1);
            assert(next.drop_last() =~= text@.take(iter.index() as int));
            assert(next.last() == c);
            lemma_digit_count_grows(text@, iter.index() + 1);
        }
        if c >= '0' && c <= '9' {
            if count == MAX_SPELLED_DIGITS {
                return false;
            }
            count += 1;
        }
    }
    assert(text@.take(text@.len() as int) =~= text@);
    true
}

/// `humantime::Duration::from_str`, and the whole seconds and the
/// nanoseconds of the duration it gives; `None` where it refuses the text.
/// humantime panics on a text whose units add up to the most seconds it
/// can count and to a full second of nanoseconds on top, so a text with
/// more than `MAX_SPELLED_DIGITS` digits is kept out: no other text can
/// add up to that many seconds.
#[verifier::external_body]
fn humantime_parse(text: &str) -> (duration: Option<(u64, u32)>)
    requires
        digit_count(text@) <= MAX_SPELLED_DIGITS,
    ensures
        match duration {
            Some((secs, nanos)) => parsed_duration(text@) == Some((secs as nat, nanos as nat)),
            None => parsed_duration(text@) is None,
        },
{
    humantime::Duration::from_str(text).ok().map(|d| (d.as_secs(), d.subsec_nanos()))
}

/// The span that `text` spells out in words such as `5h` or `2 months`,
/// where it spells out one that a `TimeDelta` can hold in no more than
/// `MAX_SPELLED_DIGITS` digits.
pub open spec fn spelled_delta(text: Seq<char>) -> Option<TimeDelta> {
    if digit_count(text) > MAX_SPELLED_DIGITS {
        None
    } else {
        match parsed_duration(text) {
            Some((secs, nanos)) => TimeDelta::spec_new_opt(secs as int, nanos as int),
            None => None,
        }
    }
}

impl TimeDelta {
    /// The span that `text` spells out in words such as `5h` or
    /// `2 months`; `None` if it spells out none, or one that is too long,
    /// or if it holds more than `MAX_SPELLED_DIGITS` digits.
    pub fn parse(text: &str) -> (delta: Option<TimeDelta>)
        ensures
            delta == spelled_delta(text@),
    {
        if !has_few_digits(text) {
            return None;
        }
        match humantime_parse(text) {
            Some((secs, nanos)) => match TimeDelta::from_std(secs, nanos) {
                Ok(delta) => Some(delta),
                Err(_) => None,
            },
            None => None,
        }
    }
}

} // verus!
