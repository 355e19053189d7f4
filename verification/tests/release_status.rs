use chrono::{Datelike, Days, Months, NaiveDate, Utc};
use movie_feed::date::Date;
use movie_feed::release_status::{ReleaseStatus, ReleaseStatusError};
use movie_feed::time_delta::TimeDelta;

struct ReleaseStatusInit {
    now: Date,

    past_one_week: Date,
    future_one_week: Date,

    past_one_month: Date,
    future_one_month: Date,

    past_one_year: Date,
    future_one_year: Date,
}

fn own(date: NaiveDate) -> Date {
    Date::from_num_days_from_ce_opt(date.num_days_from_ce()).unwrap()
}

fn init_release_status() -> ReleaseStatusInit {
    let now = Utc::now();
    let now = NaiveDate::from_ymd_opt(now.year(), now.month(), now.day())
        .expect("constructed from Utc::now(), should always be valid");

    ReleaseStatusInit {
        now: own(now),
        past_one_week: own(now.checked_sub_days(Days::new(7)).unwrap()),
        future_one_week: own(now.checked_add_days(Days::new(7)).unwrap()),
        past_one_month: own(now.checked_sub_months(Months::new(1)).unwrap()),
        future_one_month: own(now.checked_add_months(Months::new(1)).unwrap()),
        past_one_year: own(now.checked_sub_months(Months::new(12)).unwrap()),
        future_one_year: own(now.checked_add_months(Months::new(12)).unwrap()),
    }
}

fn day(year: i32, month: u32, day: u32) -> Date {
    Date::from_ymd_opt(year, month, day).unwrap()
}

#[test]
fn test_release_status_unreleased() {
    let data = init_release_status();
    let now = data.now;
    let min = own(NaiveDate::MIN);
    let max = own(NaiveDate::MAX);

    let unreleased = ReleaseStatus::Unreleased {
        max_time_until_release: None,
    };

    assert!(unreleased.check(&now, None));
    assert!(!unreleased.check(&now, Some(&min)));
    assert!(!unreleased.check(&now, Some(&now)));
    assert!(unreleased.check(&now, Some(&max)));

    let unreleased = ReleaseStatus::Unreleased {
        max_time_until_release: Some(TimeDelta::weeks(6)),
    };

    assert!(unreleased.check(&now, None));
    assert!(!unreleased.check(&now, Some(&min)));
    assert!(!unreleased.check(&now, Some(&now)));
    assert!(!unreleased.check(&now, Some(&max)));

    assert!(!unreleased.check(&now, Some(&data.past_one_week)));
    assert!(unreleased.check(&now, Some(&data.future_one_week)));
    assert!(!unreleased.check(&now, Some(&data.past_one_month)));
    assert!(unreleased.check(&now, Some(&data.future_one_month)));
    assert!(!unreleased.check(&now, Some(&data.past_one_year)));
    assert!(!unreleased.check(&now, Some(&data.future_one_year)));
}

#[test]
fn test_release_status_released() {
    let data = init_release_status();
    let now = data.now;
    let min = own(NaiveDate::MIN);
    let max = own(NaiveDate::MAX);

    let released = ReleaseStatus::Released {
        max_age: None,
        min_age: None,
    };

    assert!(!released.check(&now, None));
    assert!(released.check(&now, Some(&min)));
    assert!(released.check(&now, Some(&now)));
    assert!(!released.check(&now, Some(&max)));

    let released = ReleaseStatus::Released {
        max_age: Some(TimeDelta::weeks(6)),
        min_age: Some(TimeDelta::weeks(2)),
    };

    assert!(!released.check(&now, None));
    assert!(!released.check(&now, Some(&min)));
    assert!(!released.check(&now, Some(&now)));
    assert!(!released.check(&now, Some(&max)));

    assert!(!released.check(&now, Some(&data.past_one_week)));
    assert!(!released.check(&now, Some(&data.future_one_week)));
    assert!(released.check(&now, Some(&data.past_one_month)));
    assert!(!released.check(&now, Some(&data.future_one_month)));
    assert!(!released.check(&now, Some(&data.past_one_year)));
    assert!(!released.check(&now, Some(&data.future_one_year)));
}

#[test]
fn test_release_status_has_release_date() {
    let data = init_release_status();
    let now = data.now;
    let min = own(NaiveDate::MIN);
    let max = own(NaiveDate::MAX);

    let has_release_date = ReleaseStatus::HasReleaseDate {
        max_time_until_release: None,
        max_age: None,
    };

    assert!(!has_release_date.check(&now, None));
    assert!(has_release_date.check(&now, Some(&min)));
    assert!(has_release_date.check(&now, Some(&now)));
    assert!(has_release_date.check(&now, Some(&max)));

    let has_release_date = ReleaseStatus::HasReleaseDate {
        max_time_until_release: Some(TimeDelta::weeks(2)),
        max_age: Some(TimeDelta::weeks(6)),
    };

    assert!(!has_release_date.check(&now, None));
    assert!(!has_release_date.check(&now, Some(&min)));
    assert!(has_release_date.check(&now, Some(&now)));
    assert!(!has_release_date.check(&now, Some(&max)));

    assert!(has_release_date.check(&now, Some(&data.past_one_week)));
    assert!(has_release_date.check(&now, Some(&data.future_one_week)));
    assert!(has_release_date.check(&now, Some(&data.past_one_month)));
    assert!(!has_release_date.check(&now, Some(&data.future_one_month)));
    assert!(!has_release_date.check(&now, Some(&data.past_one_year)));
    assert!(!has_release_date.check(&now, Some(&data.future_one_year)));
}

#[test]
fn test_release_status_no_release_date() {
    let data = init_release_status();
    let now = data.now;
    let min = own(NaiveDate::MIN);
    let max = own(NaiveDate::MAX);

    assert!(ReleaseStatus::NoReleaseDate.check(&now, None));
    assert!(!ReleaseStatus::NoReleaseDate.check(&now, Some(&min)));
    assert!(!ReleaseStatus::NoReleaseDate.check(&now, Some(&now)));
    assert!(!ReleaseStatus::NoReleaseDate.check(&now, Some(&max)));
}

#[test]
fn test_release_status_all() {
    let data = init_release_status();
    let now = data.now;
    let min = own(NaiveDate::MIN);
    let max = own(NaiveDate::MAX);

    assert!(ReleaseStatus::All.check(&now, None));
    assert!(ReleaseStatus::All.check(&now, Some(&min)));
    assert!(ReleaseStatus::All.check(&now, Some(&now)));
    assert!(ReleaseStatus::All.check(&now, Some(&max)));
}

#[test]
fn release_status_default_is_every_dated_credit() {
    assert_eq!(
        ReleaseStatus::default(),
        ReleaseStatus::HasReleaseDate {
            max_time_until_release: None,
            max_age: None
        }
    );
    assert_eq!(ReleaseStatus::date_now(), Date::today());
}

#[test]
fn released_without_bounds_follows_the_day() {
    let now = day(2025, 9, 18);
    let released = ReleaseStatus::Released {
        max_age: None,
        min_age: None,
    };
    assert!(released.check(&now, Some(&day(2025, 9, 18))));
    assert!(released.check(&now, Some(&day(2025, 9, 17))));
    assert!(!released.check(&now, Some(&day(2025, 9, 19))));
    assert!(released.check(&day(2025, 9, 19), Some(&day(2025, 9, 19))));
}

#[test]
fn unreleased_bound_is_strict_and_counts_whole_days() {
    let now = day(2025, 9, 18);
    let within_two_days = ReleaseStatus::Unreleased {
        max_time_until_release: Some(TimeDelta::hours(71)),
    };
    assert!(within_two_days.check(&now, Some(&day(2025, 9, 19))));
    assert!(!within_two_days.check(&now, Some(&day(2025, 9, 20))));
    assert!(!within_two_days.check(&now, Some(&day(2025, 9, 18))));
    let within_hours = ReleaseStatus::Unreleased {
        max_time_until_release: Some(TimeDelta::hours(5)),
    };
    assert!(!within_hours.check(&now, Some(&day(2025, 9, 19))));
    assert!(within_hours.check(&now, None));
}

#[test]
fn released_bounds_are_inclusive() {
    let now = day(2025, 9, 18);
    let released = ReleaseStatus::Released {
        max_age: Some(TimeDelta::days(10)),
        min_age: Some(TimeDelta::days(3)),
    };
    assert!(!released.check(&now, Some(&day(2025, 9, 7))));
    assert!(released.check(&now, Some(&day(2025, 9, 8))));
    assert!(released.check(&now, Some(&day(2025, 9, 15))));
    assert!(!released.check(&now, Some(&day(2025, 9, 16))));
    assert!(!released.check(&now, None));
}

#[test]
fn has_release_date_bounds_each_side_of_the_day() {
    let now = day(2025, 9, 18);
    let status = ReleaseStatus::HasReleaseDate {
        max_time_until_release: Some(TimeDelta::days(2)),
        max_age: Some(TimeDelta::days(3)),
    };
    assert!(!status.check(&now, Some(&day(2025, 9, 14))));
    assert!(status.check(&now, Some(&day(2025, 9, 15))));
    assert!(status.check(&now, Some(&day(2025, 9, 18))));
    assert!(status.check(&now, Some(&day(2025, 9, 19))));
    assert!(!status.check(&now, Some(&day(2025, 9, 20))));
    let upcoming_only = ReleaseStatus::HasReleaseDate {
        max_time_until_release: Some(TimeDelta::hours(5)),
        max_age: None,
    };
    assert!(upcoming_only.check(&now, Some(&day(2025, 9, 18))));
    assert!(upcoming_only.check(&now, Some(&day(1990, 6, 1))));
    assert!(!upcoming_only.check(&now, Some(&day(2025, 9, 19))));
}

#[test]
fn bound_beyond_the_range_of_dates_admits_nothing() {
    let longest = TimeDelta::new(9_223_372_036_854_775, 0).unwrap();
    let now = day(2025, 9, 18);
    let unreleased = ReleaseStatus::Unreleased {
        max_time_until_release: Some(longest),
    };
    assert!(!unreleased.check(&now, Some(&day(2025, 9, 19))));
    assert!(unreleased.check(&now, None));
    let released = ReleaseStatus::Released {
        max_age: Some(longest),
        min_age: None,
    };
    assert!(!released.check(&now, Some(&day(2025, 9, 17))));
    let released = ReleaseStatus::Released {
        max_age: None,
        min_age: Some(longest),
    };
    assert!(!released.check(&now, Some(&day(2025, 9, 17))));
    let near_the_end = Date::max_value();
    let unreleased = ReleaseStatus::Unreleased {
        max_time_until_release: Some(TimeDelta::days(1)),
    };
    assert!(!unreleased.check(&day(262_142, 12, 30), Some(&near_the_end)));
    assert!(!unreleased.check(&near_the_end, Some(&near_the_end)));
}

#[test]
fn contradictory_released_status_is_refused() {
    let status = ReleaseStatus::Released {
        max_age: Some(TimeDelta::seconds(1)),
        min_age: Some(TimeDelta::minutes(5)),
    };
    assert_eq!(status.validate(), Err(ReleaseStatusError::MaxAgeSmaller));
    assert_eq!(
        ReleaseStatusError::MaxAgeSmaller.text(),
        "max_age must be larger than min_age"
    );
    let equal = ReleaseStatus::Released {
        max_age: Some(TimeDelta::minutes(5)),
        min_age: Some(TimeDelta::minutes(5)),
    };
    assert_eq!(equal.validate(), Ok(equal));
    let only_min = ReleaseStatus::Released {
        max_age: None,
        min_age: Some(TimeDelta::weeks(8)),
    };
    assert_eq!(only_min.validate(), Ok(only_min));
    let only_max = ReleaseStatus::Released {
        max_age: Some(TimeDelta::weeks(8)),
        min_age: None,
    };
    assert_eq!(only_max.validate(), Ok(only_max));
    for status in [
        ReleaseStatus::All,
        ReleaseStatus::NoReleaseDate,
        ReleaseStatus::default(),
        ReleaseStatus::Unreleased {
            max_time_until_release: Some(TimeDelta::seconds(1)),
        },
    ] {
        assert_eq!(status.validate(), Ok(status));
    }
    let now = day(2025, 9, 18);
    let status = ReleaseStatus::Released {
        max_age: Some(TimeDelta::days(1)),
        min_age: Some(TimeDelta::days(5)),
    };
    assert_eq!(status.validate(), Err(ReleaseStatusError::MaxAgeSmaller));
    for offset in 0..8 {
        let release = now.checked_sub_signed(TimeDelta::days(offset)).unwrap();
        assert!(!status.check(&now, Some(&release)));
    }
}

#[test]
fn has_release_date_admits_a_release_today_under_a_short_upcoming_bound() {
    let now = day(2025, 9, 18);
    let status = ReleaseStatus::HasReleaseDate {
        max_time_until_release: Some(TimeDelta::hours(5)),
        max_age: None,
    };
    assert!(status.check(&now, Some(&now)));
    assert!(!status.check(&now, Some(&day(2025, 9, 19))));
    let with_both = ReleaseStatus::HasReleaseDate {
        max_time_until_release: Some(TimeDelta::hours(5)),
        max_age: Some(TimeDelta::weeks(6)),
    };
    assert!(with_both.check(&now, Some(&now)));
    assert!(with_both.check(&now, Some(&day(2025, 9, 17))));
    assert!(!with_both.check(&now, Some(&day(2025, 9, 19))));
    let none_upcoming = ReleaseStatus::HasReleaseDate {
        max_time_until_release: Some(TimeDelta::seconds(0)),
        max_age: Some(TimeDelta::seconds(0)),
    };
    assert!(none_upcoming.check(&now, Some(&now)));
    assert!(!none_upcoming.check(&now, Some(&day(2025, 9, 17))));
    assert!(!none_upcoming.check(&now, Some(&day(2025, 9, 19))));
}
