use crate::date::{shifted_days, Date, MAX_DAYS, MIN_DAYS};
use crate::time_delta::TimeDelta;
use vstd::prelude::*;

verus! {

/// Release date constraints that select the credits of a feed.
#[derive(Debug, Copy, Clone, PartialEq, Eq)]
pub enum ReleaseStatus {
    /// Credits that are not released yet, or that have no release date;
    /// with a bound, only those that release before the bound has passed.
    Unreleased { max_time_until_release: Option<TimeDelta> },
    /// Credits released today or earlier; `max_age` leaves out those
    /// released longer ago, `min_age` those released more recently.
    Released { max_age: Option<TimeDelta>, min_age: Option<TimeDelta> },
    /// Credits with a release date; `max_time_until_release` bounds the
    /// upcoming ones and `max_age` the released ones.
    HasReleaseDate { max_time_until_release: Option<TimeDelta>, max_age: Option<TimeDelta> },
    /// Credits without a release date.
    NoReleaseDate,
    /// All credits.
    All,
}

/// Why a release status is refused.
#[derive(Debug, Copy, Clone, PartialEq, Eq, Structural)]
pub enum ReleaseStatusError {
    /// `Released` was given a `max_age` shorter than its `min_age`.
    MaxAgeSmaller,
}

impl ReleaseStatusError {
    /// The message of the error.
    pub open spec fn spec_text(&self) -> Seq<char> {
        match self {
            ReleaseStatusError::MaxAgeSmaller => "max_age must be larger than min_age"@,
        }
    }

    /// The message of the error.
    pub fn text(&self) -> (message: &'static str)
        ensures
            message@ == self.spec_text(),
    {
        match self {
            ReleaseStatusError::MaxAgeSmaller => "max_age must be larger than min_age",
        }
    }

    /// The message of the error.
    pub fn to_string(&self) -> (message: String)
        ensures
            message@ == self.spec_text(),
    {
        self.text().to_owned()
    }
}

/// Whether a release on day `release` comes strictly before `bound` has
/// passed since day `now`. A limit beyond the range of dates admits nothing.
pub open spec fn within_time_until_release(now: int, release: int, bound: Option<TimeDelta>) -> bool {
    match bound {
        None => true,
        Some(delta) => match shifted_days(now, delta.spec_num_days()) {
            None => false,
            Some(limit) => release < limit,
        },
    }
}

/// Whether a release on day `release` is no older than `bound` on day
/// `now`. A limit beyond the range of dates admits nothing.
pub open spec fn within_max_age(now: int, release: int, bound: Option<TimeDelta>) -> bool {
    match bound {
        None => true,
        Some(delta) => match shifted_days(now, -delta.spec_num_days()) {
            None => false,
            Some(oldest) => release >= oldest,
        },
    }
}

/// Whether a release on day `release` is at least as old as `bound` on day
/// `now`. A limit beyond the range of dates admits nothing.
pub open spec fn within_min_age(now: int, release: int, bound: Option<TimeDelta>) -> bool {
    match bound {
        None => true,
        Some(delta) => match shifted_days(now, -delta.spec_num_days()) {
            None => false,
            Some(newest) => release <= newest,
        },
    }
}

impl ReleaseStatus {
    /// Whether the status admits a credit whose release date has the day
    /// number `release`, or no release date, on the day numbered `now`.
    pub open spec fn admits(self, now: int, release: Option<int>) -> bool {
        match self {
            ReleaseStatus::Unreleased { max_time_until_release } => match release {
                None => true,
                Some(day) => day > now && within_time_until_release(now, day, max_time_until_release),
            },
            ReleaseStatus::Released { max_age, min_age } => match release {
                None => false,
                Some(day) => day <= now && within_max_age(now, day, max_age) && within_min_age(
                    now,
                    day,
                    min_age,
                ),
            },
            ReleaseStatus::HasReleaseDate { max_time_until_release, max_age } => match release {
                None => false,
                Some(day) => if day > now {
                    within_time_until_release(now, day, max_time_until_release)
                } else {
                    within_max_age(now, day, max_age)
                },
            },
            ReleaseStatus::NoReleaseDate => release is None,
            ReleaseStatus::All => true,
        }
    }

    /// Whether the bounds of the status contradict each other: `Released`
    /// with both bounds set and `max_age` shorter than `min_age`.
    pub open spec fn contradictory(self) -> bool {
        match self {
            ReleaseStatus::Released { max_age: Some(max_age), min_age: Some(min_age) } =>
                max_age.spec_lt(min_age),
            _ => false,
        }
    }

    fn check_max_time_until_release(
        now: &Date,
        release_date: &Date,
        max_time_until_release: &Option<TimeDelta>,
    ) -> (within: bool)
        ensures
            within == within_time_until_release(now@, release_date@, *max_time_until_release),
    {
        match max_time_until_release {
            Some(delta) => match now.checked_add_signed(*delta) {
                Some(max_release_date) => release_date.is_before(&max_release_date),
                None => false,
            },
            None => true,
        }
    }

    fn check_max_age(now: &Date, release_date: &Date, max_age: &Option<TimeDelta>) -> (within: bool)
        ensures
            within == within_max_age(now@, release_date@, *max_age),
    {
        match max_age {
            Some(delta) => match now.checked_sub_signed(*delta) {
                Some(max_age_date) => !release_date.is_before(&max_age_date),
                None => false,
            },
            None => true,
        }
    }

    fn check_min_age(now: &Date, release_date: &Date, min_age: &Option<TimeDelta>) -> (within: bool)
        ensures
            within == within_min_age(now@, release_date@, *min_age),
    {
        match min_age {
            Some(delta) => match now.checked_sub_signed(*delta) {
                Some(min_age_date) => !release_date.is_after(&min_age_date),
                None => false,
            },
            None => true,
        }
    }

    /// The calendar day against which release dates are judged: the day
    /// in UTC at the moment of the call, a day within the range of dates.
    pub fn date_now() -> (today: Date)
        ensures
            MIN_DAYS <= today@ <= MAX_DAYS,
    {
        Date::today()
    }

    /// Whether the status admits a credit with the given release date on
    /// the day `now`.
    pub fn check(&self, now: &Date, release_date: Option<&Date>) -> (admitted: bool)
        ensures
            admitted == self.admits(
                now@,
                match release_date {
                    Some(date) => Some(date@),
                    None => None,
                },
            ),
    {
        match self {
            ReleaseStatus::Unreleased { max_time_until_release } => {
                match release_date {
                    None => true,
                    Some(date) => date.is_after(now) && ReleaseStatus::check_max_time_until_release(
                        now,
                        date,
                        max_time_until_release,
                    ),
                }
            },
            ReleaseStatus::Released { max_age, min_age } => {
                match release_date {
                    None => false,
                    Some(date) => !date.is_after(now) && ReleaseStatus::check_max_age(
                        now,
                        date,
                        max_age,
                    ) && ReleaseStatus::check_min_age(now, date, min_age),
                }
            },
            ReleaseStatus::HasReleaseDate { max_time_until_release, max_age } => {
                match release_date {
                    None => false,
                    Some(date) => if date.is_after(now) {
                        ReleaseStatus::check_max_time_until_release(now, date, max_time_until_release)
                    } else {
                        ReleaseStatus::check_max_age(now, date, max_age)
                    },
                }
            },
            ReleaseStatus::NoReleaseDate => release_date.is_none(),
            ReleaseStatus::All => true,
        }
    }

    /// The status itself, unless its bounds contradict each other.
    pub fn validate(self) -> (checked: Result<ReleaseStatus, ReleaseStatusError>)
        ensures
            self.contradictory() ==> checked == Err::<ReleaseStatus, ReleaseStatusError>(
                ReleaseStatusError::MaxAgeSmaller,
            ),
            !self.contradictory() ==> checked == Ok::<ReleaseStatus, ReleaseStatusError>(self),
    {
        match self {
            ReleaseStatus::Released { max_age: Some(max_age), min_age: Some(min_age) } => {
                if max_age.lt(&min_age) {
                    Err(ReleaseStatusError::MaxAgeSmaller)
                } else {
                    Ok(self)
                }
            },
            _ => Ok(self),
        }
    }
}

impl Default for ReleaseStatus {
    /// Every credit with a release date, released or not.
    fn default() -> (status: ReleaseStatus)
        ensures
            status == (ReleaseStatus::HasReleaseDate { max_time_until_release: None, max_age: None }),
    {
        ReleaseStatus::HasReleaseDate { max_time_until_release: None, max_age: None }
    }
}

/// `NoReleaseDate` admits exactly the credits without a release date, and
/// `All` admits every credit, on whatever day.
pub proof fn lemma_no_release_date_and_all(now: int, release: Option<int>)
    ensures
        ReleaseStatus::NoReleaseDate.admits(now, release) <==> release is None,
        ReleaseStatus::All.admits(now, release),
{
}

/// `Released` without bounds admits a dated credit exactly if its release
/// date is not after the day on which it is judged.
pub proof fn lemma_released_without_bounds(now: int, release: int)
    ensures
        (ReleaseStatus::Released { max_age: None, min_age: None }).admits(now, Some(release))
            <==> release <= now,
{
}

/// A `Released` status whose `max_age` is shorter than its `min_age` is
/// refused when it is validated; whether a status admits a credit is
/// decided for every status, date and day alike.
pub proof fn lemma_contradictory_is_refused(max_age: TimeDelta, min_age: TimeDelta)
    requires
        max_age.spec_lt(min_age),
    ensures
        (ReleaseStatus::Released { max_age: Some(max_age), min_age: Some(min_age) }).contradictory(),
{
}

} // verus!
