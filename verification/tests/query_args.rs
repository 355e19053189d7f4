use movie_feed::query_args::{QueryArgs, QueryArgsError};
use movie_feed::release_status::{ReleaseStatus, ReleaseStatusError};
use movie_feed::size::{Size, SizeError};
use movie_feed::sort_order::SortReleaseDates;
use movie_feed::time_delta::TimeDelta;

fn from_uri(uri: &str) -> Result<QueryArgs, QueryArgsError> {
    let url = url::Url::parse(uri).unwrap();
    let param = |name: &str| {
        url.query_pairs()
            .find(|(key, _)| key == name)
            .map(|(_, value)| value.into_owned())
    };
    let size = param("size").map(|text| text.parse::<usize>().unwrap());
    QueryArgs::from_params(
        size,
        param("release_status").as_deref(),
        param("max_time_until_release").as_deref(),
        param("max_age").as_deref(),
        param("min_age").as_deref(),
        param("sort_order").as_deref(),
    )
}

fn with_status(release_status: ReleaseStatus) -> QueryArgs {
    QueryArgs {
        release_status,
        ..Default::default()
    }
}

#[test]
fn query_args_default() {
    let args = QueryArgs::default();
    assert_eq!(args.size, Size::default());
    assert_eq!(*args.size, 20);
    assert_eq!(
        args.release_status,
        ReleaseStatus::HasReleaseDate {
            max_time_until_release: None,
            max_age: None
        }
    );
    assert_eq!(args.sort_order, SortReleaseDates::Descending);
    assert_eq!(from_uri("https://example.com").unwrap(), QueryArgs::default());
}

#[test]
fn query_args_size() {
    assert_eq!(
        from_uri("https://example.com?size=10").unwrap(),
        QueryArgs {
            size: Size::try_from(10).unwrap(),
            ..Default::default()
        }
    );
    assert_eq!(
        from_uri("https://example.com?size=51"),
        Err(QueryArgsError::Size(SizeError::ExceedsMaxSize))
    );
    assert_eq!(
        from_uri("https://example.com?size=0"),
        Err(QueryArgsError::Size(SizeError::TryFromInt))
    );
    assert_eq!(
        from_uri("https://example.com?size=50").unwrap().size.get(),
        50
    );
}

#[test]
fn query_args_release_status() {
    assert_eq!(
        from_uri("https://example.com?release_status=Unreleased").unwrap(),
        with_status(ReleaseStatus::Unreleased {
            max_time_until_release: None
        })
    );
    assert_eq!(
        from_uri("https://example.com?release_status=Unreleased&max_time_until_release=5m").unwrap(),
        with_status(ReleaseStatus::Unreleased {
            max_time_until_release: Some(TimeDelta::minutes(5))
        })
    );
    assert_eq!(
        from_uri("https://example.com?release_status=Released").unwrap(),
        with_status(ReleaseStatus::Released {
            max_age: None,
            min_age: None
        })
    );
    assert_eq!(
        from_uri("https://example.com?release_status=Released&max_age=5h&min_age=5m").unwrap(),
        with_status(ReleaseStatus::Released {
            max_age: Some(TimeDelta::hours(5)),
            min_age: Some(TimeDelta::minutes(5))
        })
    );
    let refused = from_uri("https://example.com?release_status=Released&max_age=1s&min_age=5m");
    assert_eq!(
        refused,
        Err(QueryArgsError::ReleaseStatus(ReleaseStatusError::MaxAgeSmaller))
    );
    assert_eq!(
        ReleaseStatusError::MaxAgeSmaller.text(),
        "max_age must be larger than min_age"
    );
    assert_eq!(
        from_uri("https://example.com?release_status=HasReleaseDate").unwrap(),
        with_status(ReleaseStatus::HasReleaseDate {
            max_time_until_release: None,
            max_age: None
        })
    );
    assert_eq!(
        from_uri(
            "https://example.com?release_status=HasReleaseDate&max_time_until_release=52w&max_age=5h"
        )
        .unwrap(),
        with_status(ReleaseStatus::HasReleaseDate {
            max_time_until_release: Some(TimeDelta::weeks(52)),
            max_age: Some(TimeDelta::hours(5))
        })
    );
    assert_eq!(
        from_uri("https://example.com?release_status=NoReleaseDate").unwrap(),
        with_status(ReleaseStatus::NoReleaseDate)
    );
    assert_eq!(
        from_uri("https://example.com?release_status=All").unwrap(),
        with_status(ReleaseStatus::All)
    );
}

#[test]
fn release_status_that_cannot_be_read_is_the_default() {
    for uri in [
        "https://example.com?release_status=Sometime",
        "https://example.com?release_status=released",
        "https://example.com?max_age=5h",
        "https://example.com?release_status=Released&max_age=soon",
        "https://example.com?release_status=Released&max_age=5h&min_age=",
        "https://example.com?release_status=Unreleased&max_time_until_release=-1h",
        "https://example.com?release_status=HasReleaseDate&max_age=400000000000years",
        "https://example.com?release_status=Released&max_age=18446744073709551615s%201000ms",
        "https://example.com?release_status=Unreleased&max_time_until_release=100000000000s",
    ] {
        assert_eq!(from_uri(uri).unwrap(), QueryArgs::default());
    }
    assert_eq!(
        from_uri("https://example.com?release_status=Unreleased&max_age=soon&min_age=x").unwrap(),
        with_status(ReleaseStatus::Unreleased {
            max_time_until_release: None
        })
    );
    assert_eq!(
        from_uri("https://example.com?release_status=Released&max_age=2%20months").unwrap(),
        with_status(ReleaseStatus::Released {
            max_age: Some(TimeDelta::seconds(5_260_032)),
            min_age: None
        })
    );
    assert_eq!(
        ReleaseStatus::from_params(Some("All"), Some("x"), Some("y"), Some("z")),
        ReleaseStatus::All
    );
    assert_eq!(
        ReleaseStatus::from_params(None, None, None, None),
        ReleaseStatus::default()
    );
    assert_eq!(
        ReleaseStatus::from_params(Some("Released"), None, Some("1s"), Some("5m")),
        ReleaseStatus::Released {
            max_age: Some(TimeDelta::seconds(1)),
            min_age: Some(TimeDelta::minutes(5))
        }
    );
}

#[test]
fn query_args_sort_order() {
    assert_eq!(
        from_uri("https://example.com?sort_order=Ascending").unwrap(),
        QueryArgs {
            sort_order: SortReleaseDates::Ascending,
            ..Default::default()
        }
    );
    assert_eq!(
        from_uri("https://example.com?sort_order=Descending").unwrap(),
        QueryArgs::default()
    );
    assert_eq!(
        from_uri("https://example.com?sort_order=sideways"),
        Err(QueryArgsError::SortOrder)
    );
}

#[test]
fn first_refused_parameter_gives_the_error() {
    assert_eq!(
        from_uri("https://example.com?size=0&release_status=Released&max_age=1s&min_age=5m&sort_order=x"),
        Err(QueryArgsError::Size(SizeError::TryFromInt))
    );
    assert_eq!(
        from_uri("https://example.com?size=5&release_status=Released&max_age=1s&min_age=5m&sort_order=x"),
        Err(QueryArgsError::ReleaseStatus(ReleaseStatusError::MaxAgeSmaller))
    );
    assert_eq!(
        from_uri("https://example.com?size=5&release_status=Released&max_age=5m&min_age=1s&sort_order=x"),
        Err(QueryArgsError::SortOrder)
    );
    assert_eq!(
        from_uri("https://example.com?size=5&release_status=All&sort_order=Ascending").unwrap(),
        QueryArgs {
            size: Size::try_from(5).unwrap(),
            release_status: ReleaseStatus::All,
            sort_order: SortReleaseDates::Ascending,
        }
    );
}
