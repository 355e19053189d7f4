use crate::release_status::{ReleaseStatus, ReleaseStatusError};
use crate::size::{Size, SizeError};
use crate::sort_order::SortReleaseDates;
use crate::text::{opt_str, str_eq};
use crate::time_delta::{spelled_delta, TimeDelta};
use vstd::prelude::*;

verus! {

/// What a request asks of a feed.
#[derive(Debug, Eq, PartialEq)]
pub struct QueryArgs {
    /// The number of credits to return at most.
    pub size: Size,
    /// The release status of the credits to return.
    pub release_status: ReleaseStatus,
    /// The order of the credits.
    pub sort_order: SortReleaseDates,
}

/// Why the parameters of a request are refused.
#[derive(Debug, Copy, Clone, Eq, PartialEq, Structural)]
pub enum QueryArgsError {
    /// `size` is not the size of a feed.
    Size(SizeError),
    /// The bounds of the release status contradict each other.
    ReleaseStatus(ReleaseStatusError),
    /// `sort_order` names no order.
    SortOrder,
}

impl Default for QueryArgs {
    fn default() -> (args: QueryArgs)
        ensures
            args.size@ == crate::size::DEFAULT_SIZE,
            args.release_status == (ReleaseStatus::HasReleaseDate {
                max_time_until_release: None,
                max_age: None,
            }),
            args.sort_order == SortReleaseDates::Descending,
    {
        QueryArgs {
            size: Size::default(),
            release_status: ReleaseStatus::default(),
            sort_order: SortReleaseDates::default(),
        }
    }
}

/// The bound that an optional parameter spells out: none if the
/// parameter is missing, an error if it is there and spells out no span.
pub open spec fn bound_of(text: Option<Seq<char>>) -> Result<Option<TimeDelta>, ()> {
    match text {
        None => Ok(None),
        Some(t) => match spelled_delta(t) {
            Some(delta) => Ok(Some(delta)),
            None => Err(()),
        },
    }
}

fn read_bound(text: Option<&str>) -> (bound: Result<Option<TimeDelta>, ()>)
    ensures
        bound == bound_of(opt_str(text)),
{
    match text {
        None => Ok(None),
        Some(t) => match TimeDelta::parse(t) {
            Some(delta) => Ok(Some(delta)),
            None => Err(()),
        },
    }
}

impl ReleaseStatus {
    /// The status that the parameters of a request name. The parameter
    /// `release_status` picks the variant, and the parameters of that
    /// variant give its bounds. A missing or unknown variant, or a bound
    /// of the variant that cannot be read, gives the default status.
    pub open spec fn named(
        release_status: Option<Seq<char>>,
        max_time_until_release: Option<Seq<char>>,
        max_age: Option<Seq<char>>,
        min_age: Option<Seq<char>>,
    ) -> ReleaseStatus {
        let fallback = ReleaseStatus::HasReleaseDate { max_time_until_release: None, max_age: None };
        if release_status == Some("Unreleased"@) {
            match bound_of(max_time_until_release) {
                Ok(max_time_until_release) => ReleaseStatus::Unreleased { max_time_until_release },
                Err(_) => fallback,
            }
        } else if release_status == Some("Released"@) {
            match (bound_of(max_age), bound_of(min_age)) {
                (Ok(max_age), Ok(min_age)) => ReleaseStatus::Released { max_age, min_age },
                _ => fallback,
            }
        } else if release_status == Some("HasReleaseDate"@) {
            match (bound_of(max_time_until_release), bound_of(max_age)) {
                (Ok(max_time_until_release), Ok(max_age)) => ReleaseStatus::HasReleaseDate {
                    max_time_until_release,
                    max_age,
                },
                _ => fallback,
            }
        } else if release_status == Some("NoReleaseDate"@) {
            ReleaseStatus::NoReleaseDate
        } else if release_status == Some("All"@) {
            ReleaseStatus::All
        } else {
            fallback
        }
    }

    /// The status that the parameters of a request name; see `named`.
    pub fn from_params(
        release_status: Option<&str>,
        max_time_until_release: Option<&str>,
        max_age: Option<&str>,
        min_age: Option<&str>,
    ) -> (status: ReleaseStatus)
        ensures
            status == ReleaseStatus::named(
                opt_str(release_status),
                opt_str(max_time_until_release),
                opt_str(max_age),
                opt_str(min_age),
            ),
    {
        let fallback = ReleaseStatus::default();
        let name = match release_status {
            Some(name) => name,
            None => {
                return fallback;
            },
        };
        if str_eq(name, "Unreleased") {
            match read_bound(max_time_until_release) {
                Ok(max_time_until_release) => ReleaseStatus::Unreleased { max_time_until_release },
                Err(_) => fallback,
            }
        } else if str_eq(name, "Released") {
            match (read_bound(max_age), read_bound(min_age)) {
                (Ok(max_age), Ok(min_age)) => ReleaseStatus::Released { max_age, min_age },
                _ => fallback,
            }
        } else if str_eq(name, "HasReleaseDate") {
            match (read_bound(max_time_until_release), read_bound(max_age)) {
                (Ok(max_time_until_release), Ok(max_age)) => ReleaseStatus::HasReleaseDate {
                    max_time_until_release,
                    max_age,
                },
                _ => fallback,
            }
        } else if str_eq(name, "NoReleaseDate") {
            ReleaseStatus::NoReleaseDate
        } else if str_eq(name, "All") {
            ReleaseStatus::All
        } else {
            fallback
        }
    }
}

impl SortReleaseDates {
    /// The order that `name` names, if it names one.
    pub open spec fn named(name: Seq<char>) -> Option<SortReleaseDates> {
        if name == "Descending"@ {
            Some(SortReleaseDates::Descending)
        } else if name == "Ascending"@ {
            Some(SortReleaseDates::Ascending)
        } else {
            None
        }
    }

    /// The order that `name` names, if it names one.
    pub fn from_name(name: &str) -> (order: Option<SortReleaseDates>)
        ensures
            order == SortReleaseDates::named(name@),
    {
        if str_eq(name, "Descending") {
            Some(SortReleaseDates::Descending)
        } else if str_eq(name, "Ascending") {
            Some(SortReleaseDates::Ascending)
        } else {
            None
        }
    }
}

impl QueryArgs {
    /// Whether `built` is what the parameters of a request come to. A
    /// missing parameter takes its default. Of the parameters that are
    /// refused the first one gives the error, in the order size, release
    /// status, sort order.
    pub open spec fn built_from(
        built: Result<QueryArgs, QueryArgsError>,
        size: Option<usize>,
        status: ReleaseStatus,
        sort_order: Option<Seq<char>>,
    ) -> bool {
        let wanted = match size {
            Some(n) => Size::checked(n),
            None => Ok(crate::size::DEFAULT_SIZE as nat),
        };
        let order = match sort_order {
            Some(name) => SortReleaseDates::named(name),
            None => Some(SortReleaseDates::Descending),
        };
        match wanted {
            Err(e) => built == Err::<QueryArgs, QueryArgsError>(QueryArgsError::Size(e)),
            Ok(n) => if status.contradictory() {
                built == Err::<QueryArgs, QueryArgsError>(
                    QueryArgsError::ReleaseStatus(ReleaseStatusError::MaxAgeSmaller),
                )
            } else {
                match order {
                    None => built == Err::<QueryArgs, QueryArgsError>(QueryArgsError::SortOrder),
                    Some(o) => built matches Ok(args) && args.size@ == n && args.release_status
                        == status && args.sort_order == o,
                }
            },
        }
    }

    /// The request that the parameters make up. A missing parameter takes
    /// its default; a release status that cannot be read takes the default
    /// too, but one whose bounds contradict each other is an error.
    pub fn from_params(
        size: Option<usize>,
        release_status: Option<&str>,
        max_time_until_release: Option<&str>,
        max_age: Option<&str>,
        min_age: Option<&str>,
        sort_order: Option<&str>,
    ) -> (built: Result<QueryArgs, QueryArgsError>)
        ensures
            QueryArgs::built_from(
                built,
                size,
                ReleaseStatus::named(
                    opt_str(release_status),
                    opt_str(max_time_until_release),
                    opt_str(max_age),
                    opt_str(min_age),
                ),
                opt_str(sort_order),
            ),
    {
        let size = match size {
            Some(n) => match Size::try_from(n) {
                Ok(size) => size,
                Err(e) => {
                    return Err(QueryArgsError::Size(e));
                },
            },
            None => Size::default(),
        };
        let status = ReleaseStatus::from_params(
            release_status,
            max_time_until_release,
            max_age,
            min_age,
        );
        let release_status = match status.validate() {
            Ok(status) => status,
            Err(e) => {
                return Err(QueryArgsError::ReleaseStatus(e));
            },
        };
        let sort_order = match sort_order {
            Some(name) => match SortReleaseDates::from_name(name) {
                Some(order) => order,
                None => {
                    return Err(QueryArgsError::SortOrder);
                },
            },
            None => SortReleaseDates::default(),
        };
        Ok(QueryArgs { size, release_status, sort_order })
    }
}

} // verus!
