use movie_feed::credit::{Cast, Credit, Crew, IsCredit, MovieCast, TvCrew};
use movie_feed::date::Date;
use movie_feed::sort_order::SortReleaseDates;
use std::cmp::Ordering;

fn init() -> Vec<Option<Date>> {
    vec![
        None,
        Date::from_ymd_opt(2025, 4, 10),
        None,
        Date::from_ymd_opt(2025, 5, 14),
        Date::from_ymd_opt(2026, 1, 1),
        None,
        Date::from_ymd_opt(1990, 6, 1),
    ]
}

fn cast(id: usize, release_date: Option<Date>) -> Credit {
    Credit::Cast(Cast::Movie(MovieCast {
        id,
        title: format!("Movie {id}"),
        original_title: format!("Movie {id}"),
        character: None,
        genres: vec![],
        release_date,
        overview: None,
        original_language: "en".to_string(),
        credit_id: format!("credit-{id}"),
    }))
}

fn crew(id: usize, first_air_date: Option<Date>) -> Credit {
    Credit::Crew(Crew::Tv(TvCrew {
        id,
        name: format!("Show {id}"),
        original_name: format!("Show {id}"),
        department: "Writing".to_string(),
        job: "Writer".to_string(),
        genres: vec![],
        first_air_date,
        overview: None,
        original_language: "en".to_string(),
        credit_id: format!("credit-{id}"),
    }))
}

fn ids(credits: &[Credit]) -> Vec<usize> {
    credits.iter().map(|credit| credit.id()).collect()
}

#[test]
fn sort_descending() {
    const SORT_ORDER: SortReleaseDates = SortReleaseDates::Descending;

    let mut unsorted_dates = init();

    let sorted_dates = vec![
        Date::from_ymd_opt(2026, 1, 1),
        Date::from_ymd_opt(2025, 5, 14),
        Date::from_ymd_opt(2025, 4, 10),
        Date::from_ymd_opt(1990, 6, 1),
        None,
        None,
        None,
    ];

    unsorted_dates.sort_by(|a, b| SORT_ORDER.sort_release_date(a.as_ref(), b.as_ref()));

    assert_eq!(unsorted_dates, sorted_dates);
}

#[test]
fn sort_ascending() {
    const SORT_ORDER: SortReleaseDates = SortReleaseDates::Ascending;

    let mut unsorted_dates = init();

    let sorted_dates = vec![
        Date::from_ymd_opt(1990, 6, 1),
        Date::from_ymd_opt(2025, 4, 10),
        Date::from_ymd_opt(2025, 5, 14),
        Date::from_ymd_opt(2026, 1, 1),
        None,
        None,
        None,
    ];

    unsorted_dates.sort_by(|a, b| SORT_ORDER.sort_release_date(a.as_ref(), b.as_ref()));

    assert_eq!(unsorted_dates, sorted_dates);
}

#[test]
fn sort_order_default_and_names() {
    assert_eq!(SortReleaseDates::default(), SortReleaseDates::Descending);
    assert_eq!(
        SortReleaseDates::from_name("Descending"),
        Some(SortReleaseDates::Descending)
    );
    assert_eq!(
        SortReleaseDates::from_name("Ascending"),
        Some(SortReleaseDates::Ascending)
    );
    assert_eq!(SortReleaseDates::from_name("ascending"), None);
    assert_eq!(SortReleaseDates::from_name(""), None);
}

#[test]
fn release_dates_compared() {
    let early = Date::from_ymd_opt(1990, 6, 1).unwrap();
    let late = Date::from_ymd_opt(2026, 1, 1).unwrap();
    let descending = SortReleaseDates::Descending;
    let ascending = SortReleaseDates::Ascending;
    assert_eq!(descending.sort_release_date(Some(&late), Some(&early)), Ordering::Less);
    assert_eq!(descending.sort_release_date(Some(&early), Some(&late)), Ordering::Greater);
    assert_eq!(ascending.sort_release_date(Some(&late), Some(&early)), Ordering::Greater);
    assert_eq!(ascending.sort_release_date(Some(&early), Some(&late)), Ordering::Less);
    for order in [descending, ascending] {
        assert_eq!(order.sort_release_date(Some(&early), Some(&early)), Ordering::Equal);
        assert_eq!(order.sort_release_date(None, None), Ordering::Equal);
        assert_eq!(order.sort_release_date(None, Some(&early)), Ordering::Greater);
        assert_eq!(order.sort_release_date(Some(&late), None), Ordering::Less);
    }
}

#[test]
fn credits_sorted_as_the_dates_are() {
    for order in [SortReleaseDates::Descending, SortReleaseDates::Ascending] {
        let credits: Vec<Credit> = init()
            .into_iter()
            .enumerate()
            .map(|(id, date)| cast(id, date))
            .collect();
        let mut expected = credits.clone();
        expected.sort_by(|a, b| order.sort_release_date(a.release_date(), b.release_date()));
        let sorted = order.sort_credits(credits);
        assert_eq!(ids(&sorted), ids(&expected));
    }
    assert_eq!(
        ids(&SortReleaseDates::Descending.sort_credits(
            init().into_iter().enumerate().map(|(id, date)| cast(id, date)).collect()
        )),
        vec![4, 3, 1, 6, 0, 2, 5]
    );
    assert_eq!(
        ids(&SortReleaseDates::Ascending.sort_credits(
            init().into_iter().enumerate().map(|(id, date)| cast(id, date)).collect()
        )),
        vec![6, 1, 3, 4, 0, 2, 5]
    );
}

#[test]
fn sorting_keeps_the_order_of_equal_dates() {
    let day = Date::from_ymd_opt(2020, 2, 2);
    let other = Date::from_ymd_opt(2021, 3, 3);
    for order in [SortReleaseDates::Descending, SortReleaseDates::Ascending] {
        let same: Vec<Credit> = (0..9).map(|id| if id % 2 == 0 { cast(id, day) } else { crew(id, day) }).collect();
        assert_eq!(ids(&order.sort_credits(same)), (0..9).collect::<Vec<usize>>());
        let undated: Vec<Credit> = (0..5).map(|id| crew(id, None)).collect();
        assert_eq!(ids(&order.sort_credits(undated)), vec![0, 1, 2, 3, 4]);
    }
    let mixed = vec![
        cast(0, day),
        crew(1, other),
        cast(2, None),
        crew(3, day),
        cast(4, other),
        crew(5, None),
        cast(6, day),
    ];
    assert_eq!(
        ids(&SortReleaseDates::Descending.sort_credits(mixed.clone())),
        vec![1, 4, 0, 3, 6, 2, 5]
    );
    assert_eq!(
        ids(&SortReleaseDates::Ascending.sort_credits(mixed)),
        vec![0, 3, 6, 1, 4, 2, 5]
    );
}

#[test]
fn sorting_few_credits() {
    let order = SortReleaseDates::Descending;
    assert!(order.sort_credits(vec![]).is_empty());
    assert_eq!(ids(&order.sort_credits(vec![cast(7, None)])), vec![7]);
    assert_eq!(
        ids(&order.sort_credits(vec![cast(1, None), cast(2, Date::from_ymd_opt(2000, 1, 1))])),
        vec![2, 1]
    );
}

#[test]
fn sorting_many_credits_matches_a_stable_sort() {
    let mut seed: u64 = 0x2545_f491_4f6c_dd1d;
    let mut credits = Vec::new();
    for id in 0..500usize {
        seed ^= seed << 13;
        seed ^= seed >> 7;
        seed ^= seed << 17;
        let date = if seed % 5 == 0 {
            None
        } else {
            Date::from_num_days_from_ce_opt(730_000 + (seed % 40) as i32)
        };
        credits.push(if seed % 3 == 0 { crew(id, date) } else { cast(id, date) });
    }
    for order in [SortReleaseDates::Descending, SortReleaseDates::Ascending] {
        let mut expected = credits.clone();
        expected.sort_by(|a, b| order.sort_release_date(a.release_date(), b.release_date()));
        assert_eq!(ids(&order.sort_credits(credits.clone())), ids(&expected));
    }
}
