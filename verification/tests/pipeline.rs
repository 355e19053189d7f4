use movie_feed::credit::{Cast, Credit, Crew, IsCredit, MovieCast, MovieCrew, TvCast, TvCrew};
use movie_feed::date::Date;
use movie_feed::feed::{combined_credits, combined_credits_now, CombinedCredits, Feed, DOCS, GENERATOR};
use movie_feed::feed_item::{feed_item, FeedItem};
use movie_feed::gender::Gender;
use movie_feed::genres::{MovieGenre, TvGenre};
use movie_feed::guid::credit_guid;
use movie_feed::person_details::PersonDetails;
use movie_feed::pipeline::{
    combined_credits_items, filter_credits, first_goes_first, merge_credits, render_items,
    truncate_credits,
};
use movie_feed::query_args::QueryArgs;
use movie_feed::release_status::ReleaseStatus;
use movie_feed::size::Size;
use movie_feed::sort_order::SortReleaseDates;
use movie_feed::time_delta::TimeDelta;

fn movie_cast(id: usize, release_date: Option<Date>) -> Cast {
    Cast::Movie(MovieCast {
        id,
        title: format!("Movie {id}"),
        original_title: format!("Film {id}"),
        character: Some(format!("Character {id}")),
        genres: vec![MovieGenre::Drama],
        release_date,
        overview: None,
        original_language: "en".to_string(),
        credit_id: format!("cast-{id}"),
    })
}

fn tv_crew(id: usize, first_air_date: Option<Date>) -> Crew {
    Crew::Tv(TvCrew {
        id,
        name: format!("Show {id}"),
        original_name: format!("Serie {id}"),
        department: "Writing".to_string(),
        job: "Writer".to_string(),
        genres: vec![TvGenre::Comedy],
        first_air_date,
        overview: None,
        original_language: "de".to_string(),
        credit_id: format!("crew-{id}"),
    })
}

fn sicario() -> MovieCast {
    MovieCast {
        id: 273481,
        title: "Sicario".to_string(),
        original_title: "Sicario".to_string(),
        character: Some("Ted".to_string()),
        genres: vec![MovieGenre::Action, MovieGenre::Crime, MovieGenre::Thriller],
        release_date: Date::from_ymd_opt(2015, 9, 17),
        overview: Some("An idealistic FBI agent.\nShe is enlisted.".to_string()),
        original_language: "en".to_string(),
        credit_id: "example-credit-id".to_string(),
    }
}

fn gentlemen() -> TvCrew {
    TvCrew {
        id: 236235,
        name: "The Gentlemen".to_string(),
        original_name: "The Gentlemen".to_string(),
        department: "Creator".to_string(),
        job: "Creator".to_string(),
        genres: vec![TvGenre::Comedy, TvGenre::Drama, TvGenre::Crime],
        first_air_date: None,
        overview: None,
        original_language: "en".to_string(),
        credit_id: "example-credit-id".to_string(),
    }
}

fn person() -> PersonDetails {
    PersonDetails {
        adult: false,
        also_known_as: vec![],
        biography: Some("Born in Washington.\nAn <b>American</b> actor.".to_string()),
        birthday: Date::from_ymd_opt(1976, 9, 20),
        deathday: None,
        gender: Gender::Male,
        homepage: None,
        id: 19498,
        imdb_id: Some("nm1256532".to_string()),
        known_for_department: "Acting".to_string(),
        name: "Jon Bernthal".to_string(),
        place_of_birth: None,
        profile_path: None,
    }
}

fn three_cast_credits() -> Vec<Cast> {
    vec![
        movie_cast(1, Date::from_ymd_opt(2026, 1, 1)),
        movie_cast(2, None),
        movie_cast(3, Date::from_ymd_opt(1990, 6, 1)),
    ]
}

fn query(size: usize, release_status: ReleaseStatus, sort_order: SortReleaseDates) -> QueryArgs {
    QueryArgs {
        size: Size::try_from(size).unwrap(),
        release_status,
        sort_order,
    }
}

fn today() -> Date {
    Date::from_ymd_opt(2025, 9, 18).unwrap()
}

fn titles(items: &[FeedItem]) -> Vec<&str> {
    items.iter().map(|item| item.title.as_str()).collect()
}

fn ids(credits: &[Credit]) -> Vec<usize> {
    credits.iter().map(|credit| credit.id()).collect()
}

fn written(feed: &Feed) -> String {
    let items: Vec<rss::Item> = feed
        .items
        .iter()
        .map(|item| {
            rss::ItemBuilder::default()
                .guid(Some(
                    rss::GuidBuilder::default()
                        .value(item.guid.value.clone())
                        .permalink(item.guid.permalink)
                        .build(),
                ))
                .categories(
                    item.categories
                        .iter()
                        .map(|name| rss::Category::from(name.as_str()))
                        .collect::<Vec<rss::Category>>(),
                )
                .link(Some(item.link.clone()))
                .title(Some(item.title.clone()))
                .description(Some(item.description.clone()))
                .build()
        })
        .collect();
    let channel = rss::ChannelBuilder::default()
        .title(feed.title.clone())
        .link(feed.link.clone())
        .description(feed.description.clone().unwrap_or_default())
        .last_build_date(Some(feed.last_build_date.clone()))
        .generator(Some(feed.generator.clone()))
        .docs(Some(feed.docs.clone()))
        .ttl(Some(feed.ttl.clone()))
        .items(items)
        .build();
    String::from_utf8(channel.pretty_write_to(Vec::new(), b' ', 2).unwrap()).unwrap()
}

#[test]
fn all_credits_latest_first_with_undated_last() {
    let items = combined_credits_items(
        three_cast_credits(),
        vec![],
        &QueryArgs {
            release_status: ReleaseStatus::All,
            sort_order: SortReleaseDates::Descending,
            ..QueryArgs::default()
        },
        &today(),
    );
    assert_eq!(titles(&items), vec!["Movie 1", "Movie 3", "Movie 2"]);
    assert!(items[0].description.contains("Release Date: 01-Jan-2026"));
    assert!(items[1].description.contains("Release Date: 01-Jun-1990"));
    assert!(items[2].description.contains("Release Date: TBA"));
}

#[test]
fn all_credits_earliest_first_with_undated_last() {
    let items = combined_credits_items(
        three_cast_credits(),
        vec![],
        &query(20, ReleaseStatus::All, SortReleaseDates::Ascending),
        &today(),
    );
    assert_eq!(titles(&items), vec!["Movie 3", "Movie 1", "Movie 2"]);
}

#[test]
fn only_the_credit_without_a_release_date() {
    let items = combined_credits_items(
        three_cast_credits(),
        vec![],
        &QueryArgs {
            release_status: ReleaseStatus::NoReleaseDate,
            ..QueryArgs::default()
        },
        &today(),
    );
    assert_eq!(titles(&items), vec!["Movie 2"]);
}

#[test]
fn five_of_thirty_eligible_credits() {
    let first = Date::from_ymd_opt(2000, 1, 1).unwrap();
    let dated = |id: usize| first.checked_add_signed(TimeDelta::days(((id * 7) % 30) as i64));
    let cast: Vec<Cast> = (0..18).map(|id| movie_cast(id, dated(id))).collect();
    let crew: Vec<Crew> = (18..30).map(|id| tv_crew(id, dated(id))).collect();
    let latest_first = combined_credits_items(
        cast.clone(),
        crew.clone(),
        &query(5, ReleaseStatus::All, SortReleaseDates::Descending),
        &today(),
    );
    assert_eq!(latest_first.len(), 5);
    assert_eq!(
        titles(&latest_first),
        vec!["Movie 17", "Movie 4", "Show 21", "Movie 8", "Show 25"]
    );
    let earliest_first = combined_credits_items(
        cast,
        crew,
        &query(5, ReleaseStatus::All, SortReleaseDates::Ascending),
        &today(),
    );
    assert_eq!(
        titles(&earliest_first),
        vec!["Movie 0", "Movie 13", "Show 26", "Movie 9", "Show 22"]
    );
}

#[test]
fn size_bounds_the_feed() {
    let cast: Vec<Cast> = (0..60).map(|id| movie_cast(id, Date::from_ymd_opt(2001, 1, 1))).collect();
    for (size, expected) in [(1, 1), (20, 20), (50, 50)] {
        let items = combined_credits_items(
            cast.clone(),
            vec![],
            &query(size, ReleaseStatus::All, SortReleaseDates::Descending),
            &today(),
        );
        assert_eq!(items.len(), expected);
        assert_eq!(items[0].title, "Movie 0");
    }
    let few = combined_credits_items(
        three_cast_credits(),
        vec![tv_crew(4, None)],
        &query(50, ReleaseStatus::HasReleaseDate { max_time_until_release: None, max_age: None }, SortReleaseDates::Descending),
        &today(),
    );
    assert_eq!(few.len(), 2);
    let none = combined_credits_items(vec![], vec![], &QueryArgs::default(), &today());
    assert!(none.is_empty());
    assert_eq!(
        combined_credits_items(cast, vec![], &QueryArgs::default(), &today()).len(),
        20
    );
}

#[test]
fn cast_credits_come_before_crew_credits() {
    let cast = vec![movie_cast(1, None), movie_cast(2, None)];
    let crew = vec![tv_crew(3, None), tv_crew(4, None), tv_crew(5, None)];
    let merged = merge_credits(cast.clone(), crew.clone());
    assert_eq!(ids(&merged), vec![1, 2, 3, 4, 5]);
    assert!(matches!(merged[1], Credit::Cast(_)));
    assert!(matches!(merged[2], Credit::Crew(_)));
    assert_eq!(ids(&merge_credits(vec![], crew)), vec![3, 4, 5]);
    assert_eq!(ids(&merge_credits(cast, vec![])), vec![1, 2]);
    assert!(merge_credits(vec![], vec![]).is_empty());
    assert!(first_goes_first(&merged[4], &merged[0]));
    let same_day = Date::from_ymd_opt(2020, 5, 5);
    let items = combined_credits_items(
        vec![movie_cast(1, same_day), movie_cast(2, same_day)],
        vec![tv_crew(3, same_day), tv_crew(4, same_day)],
        &query(3, ReleaseStatus::All, SortReleaseDates::Ascending),
        &today(),
    );
    assert_eq!(titles(&items), vec!["Movie 1", "Movie 2", "Show 3"]);
}

#[test]
fn credits_are_filtered_on_one_day() {
    let credits = merge_credits(
        vec![
            movie_cast(1, Date::from_ymd_opt(2025, 9, 18)),
            movie_cast(2, Date::from_ymd_opt(2025, 9, 19)),
            movie_cast(3, None),
        ],
        vec![tv_crew(4, Date::from_ymd_opt(2025, 9, 17))],
    );
    let released = ReleaseStatus::Released { max_age: None, min_age: None };
    assert_eq!(ids(&filter_credits(credits.clone(), &released, &today())), vec![1, 4]);
    let unreleased = ReleaseStatus::Unreleased { max_time_until_release: None };
    assert_eq!(ids(&filter_credits(credits.clone(), &unreleased, &today())), vec![2, 3]);
    assert_eq!(
        ids(&filter_credits(credits.clone(), &released, &Date::from_ymd_opt(2025, 9, 19).unwrap())),
        vec![1, 2, 4]
    );
    assert_eq!(ids(&filter_credits(credits, &ReleaseStatus::All, &today())), vec![1, 2, 3, 4]);
}

#[test]
fn truncation_keeps_the_first_credits() {
    let credits = || merge_credits((0..7).map(|id| movie_cast(id, None)).collect(), vec![]);
    assert_eq!(ids(&truncate_credits(credits(), &Size::try_from(3).unwrap())), vec![0, 1, 2]);
    assert_eq!(ids(&truncate_credits(credits(), &Size::try_from(7).unwrap())).len(), 7);
    assert_eq!(ids(&truncate_credits(credits(), &Size::try_from(8).unwrap())).len(), 7);
    assert!(truncate_credits(vec![], &Size::default()).is_empty());
}

#[test]
fn item_of_a_cast_credit() {
    let item = feed_item(&Credit::Cast(Cast::Movie(sicario())));
    assert_eq!(item.guid.value, "11069322021334671057");
    assert!(!item.guid.permalink);
    assert_eq!(item.categories, vec!["Movie", "Ted", "Action", "Crime", "Thriller"]);
    assert_eq!(item.link, "https://www.themoviedb.org/movie/273481");
    assert_eq!(item.title, "Sicario");
    assert_eq!(
        item.description,
        "<p>Character: Ted<br>Genres: Action, Crime, Thriller<br>Language: en<br>Release Date: 17-Sep-2015</p><p>An idealistic FBI agent.<br>She is enlisted.</p>"
    );
}

#[test]
fn item_of_a_crew_credit() {
    let item = feed_item(&Credit::Crew(Crew::Tv(gentlemen())));
    assert_eq!(item.guid.value, "7172639696372250581");
    assert!(!item.guid.permalink);
    assert_eq!(item.categories, vec!["TV", "Comedy", "Drama", "Crime"]);
    assert_eq!(item.link, "https://www.themoviedb.org/tv/236235");
    assert_eq!(item.title, "The Gentlemen");
    assert_eq!(
        item.description,
        "<p>Department: Creator<br>Job: Creator<br>Genres: Comedy, Drama, Crime<br>Language: en<br>Release Date: TBA</p>"
    );
}

#[test]
fn item_of_a_credit_with_missing_and_unsafe_texts() {
    let item = feed_item(&Credit::Cast(Cast::Tv(TvCast {
        id: 5,
        name: "Tom & Jerry <live>".to_string(),
        original_name: "Tom & Jerry".to_string(),
        character: None,
        genres: vec![],
        first_air_date: None,
        overview: Some("<script>alert(1)</script>Cat <i>and</i> mouse".to_string()),
        original_language: "en".to_string(),
        credit_id: "c".to_string(),
    })));
    assert_eq!(item.categories, vec!["TV"]);
    assert_eq!(item.title, "Tom & Jerry <live>");
    assert_eq!(
        item.description,
        "<p>Character: TBA<br>Genres: <br>Language: en<br>Release Date: TBA</p><p>Cat and mouse</p>"
    );
    let item = feed_item(&Credit::Cast(Cast::Movie(MovieCast {
        character: Some("The <b>Boss</b>\nhimself".to_string()),
        genres: vec![MovieGenre::Unknown(3)],
        ..sicario()
    })));
    assert_eq!(item.categories, vec!["Movie", "The Boss<br>himself", "Unknown Genre"]);
    assert!(item.description.starts_with("<p>Character: The Boss<br>himself<br>Genres: Unknown Genre<br>"));
    let item = feed_item(&Credit::Crew(Crew::Movie(MovieCrew {
        id: 9,
        title: "Heat".to_string(),
        original_title: "Heat".to_string(),
        department: "Sound".to_string(),
        job: "Original Music Composer".to_string(),
        genres: vec![MovieGenre::Crime, MovieGenre::Drama],
        release_date: Date::from_ymd_opt(1995, 12, 15),
        overview: None,
        original_language: "en".to_string(),
        credit_id: "c".to_string(),
    })));
    assert_eq!(item.categories, vec!["Movie", "Crime", "Drama"]);
    assert_eq!(
        item.description,
        "<p>Department: Sound<br>Job: Original Music Composer<br>Genres: Crime, Drama<br>Language: en<br>Release Date: 15-Dec-1995</p>"
    );
}

#[test]
fn guid_depends_on_five_fields_only() {
    let base = sicario();
    let guid = credit_guid(&base);
    assert_eq!(guid.value, "11069322021334671057");
    assert!(!guid.permalink);
    assert_eq!(credit_guid(&Cast::Movie(base.clone())), guid);
    assert_eq!(credit_guid(&Credit::Cast(Cast::Movie(base.clone()))), guid);
    let same = MovieCast {
        original_title: "Sicario: Day Zero".to_string(),
        character: None,
        genres: vec![],
        overview: None,
        original_language: "es".to_string(),
        credit_id: "another".to_string(),
        ..base.clone()
    };
    assert_eq!(credit_guid(&same), guid);
    assert_ne!(credit_guid(&MovieCast { id: 273482, ..base.clone() }), guid);
    assert_ne!(credit_guid(&MovieCast { title: "Sicari".to_string(), ..base.clone() }), guid);
    assert_ne!(
        credit_guid(&MovieCast { release_date: Date::from_ymd_opt(2015, 9, 18), ..base.clone() }),
        guid
    );
    assert_ne!(credit_guid(&MovieCast { release_date: None, ..base.clone() }), guid);
    let as_show = TvCast {
        id: base.id,
        name: base.title.clone(),
        original_name: base.original_title.clone(),
        character: base.character.clone(),
        genres: vec![],
        first_air_date: base.release_date,
        overview: None,
        original_language: "en".to_string(),
        credit_id: "c".to_string(),
    };
    assert_ne!(credit_guid(&as_show), guid);
    let as_crew = MovieCrew {
        id: base.id,
        title: base.title.clone(),
        original_title: base.original_title.clone(),
        department: "Directing".to_string(),
        job: "Director".to_string(),
        genres: vec![],
        release_date: base.release_date,
        overview: None,
        original_language: "en".to_string(),
        credit_id: "c".to_string(),
    };
    assert_ne!(credit_guid(&as_crew), guid);
    assert_eq!(
        credit_guid(&MovieCrew { job: "Producer".to_string(), ..as_crew.clone() }),
        credit_guid(&as_crew)
    );
}

#[test]
fn items_are_rendered_in_order() {
    let credits = merge_credits(three_cast_credits(), vec![tv_crew(4, None)]);
    let items = render_items(&credits);
    assert_eq!(titles(&items), vec!["Movie 1", "Movie 2", "Movie 3", "Show 4"]);
    for (item, credit) in items.iter().zip(credits.iter()) {
        assert_eq!(item, &feed_item(credit));
    }
    assert!(render_items(&vec![]).is_empty());
}

#[test]
fn feed_of_a_person() {
    let feed = combined_credits(
        &person(),
        CombinedCredits {
            id: Some(19498),
            cast: vec![Cast::Movie(sicario())],
            crew: vec![Crew::Tv(gentlemen())],
        },
        &query(20, ReleaseStatus::All, SortReleaseDates::Descending),
        &today(),
        "Wed, 21 May 2025 18:20 UTC".to_string(),
    );
    assert_eq!(feed.title, "Jon Bernthal - Combined Credits");
    assert_eq!(feed.link, "https://www.themoviedb.org/person/19498");
    assert_eq!(
        feed.description.as_deref(),
        Some("Born in Washington.<br>An American actor.")
    );
    assert_eq!(feed.last_build_date, "Wed, 21 May 2025 18:20 UTC");
    assert_eq!(feed.generator, "Movie Feed <https://github.com/calum4/movie-feed/>");
    assert_eq!(feed.generator, GENERATOR);
    assert_eq!(feed.docs, "https://www.rssboard.org/rss-specification");
    assert_eq!(feed.docs, DOCS);
    assert_eq!(feed.ttl, "216000");
    assert_eq!(titles(&feed.items), vec!["Sicario", "The Gentlemen"]);
    assert_eq!(feed.items[0], feed_item(&Credit::Cast(Cast::Movie(sicario()))));
    let without_biography = combined_credits(
        &PersonDetails { biography: None, name: "A <i>Name</i>".to_string(), ..person() },
        CombinedCredits { id: None, cast: vec![], crew: vec![] },
        &QueryArgs::default(),
        &today(),
        String::new(),
    );
    assert_eq!(without_biography.title, "A Name - Combined Credits");
    assert_eq!(without_biography.description, None);
    assert!(without_biography.items.is_empty());
}

#[test]
fn feed_as_of_now() {
    let next_year = Date::today().checked_add_signed(TimeDelta::days(365));
    let feed = combined_credits_now(
        &person(),
        CombinedCredits {
            id: Some(19498),
            cast: vec![movie_cast(1, Date::from_ymd_opt(1990, 6, 1)), movie_cast(2, next_year)],
            crew: vec![tv_crew(3, None)],
        },
        &query(20, ReleaseStatus::Released { max_age: None, min_age: None }, SortReleaseDates::Descending),
    );
    assert_eq!(titles(&feed.items), vec!["Movie 1"]);
    assert!(feed.last_build_date.ends_with(" UTC"));
}

#[test]
fn written_feed_holds_as_many_items_as_size_and_eligible_credits_allow() {
    let cast: Vec<Cast> = (0..30)
        .map(|id| movie_cast(id, if id % 3 == 0 { None } else { Date::from_ymd_opt(2001, 1, 1) }))
        .collect();
    for (size, status, expected) in [
        (5, ReleaseStatus::All, 5),
        (20, ReleaseStatus::All, 20),
        (50, ReleaseStatus::All, 30),
        (50, ReleaseStatus::NoReleaseDate, 10),
        (7, ReleaseStatus::NoReleaseDate, 7),
        (50, ReleaseStatus::Unreleased { max_time_until_release: None }, 10),
        (50, ReleaseStatus::Released { max_age: None, min_age: None }, 20),
        (50, ReleaseStatus::Released { max_age: Some(TimeDelta::weeks(1)), min_age: None }, 0),
    ] {
        let feed = combined_credits(
            &person(),
            CombinedCredits { id: Some(19498), cast: cast.clone(), crew: vec![] },
            &query(size, status, SortReleaseDates::Descending),
            &today(),
            "Wed, 21 May 2025 18:20 UTC".to_string(),
        );
        let text = written(&feed);
        assert_eq!(text.matches("<item>").count(), expected);
        let read = rss::Channel::read_from(text.as_bytes()).unwrap();
        assert_eq!(read.items().len(), expected);
        assert_eq!(read.items().len(), feed.items.len());
        assert_eq!(read.title(), "Jon Bernthal - Combined Credits");
        for (item, shown) in read.items().iter().zip(feed.items.iter()) {
            assert_eq!(item.title(), Some(shown.title.as_str()));
            assert_eq!(item.link(), Some(shown.link.as_str()));
            assert_eq!(item.description(), Some(shown.description.as_str()));
            assert_eq!(item.guid().map(|guid| guid.value()), Some(shown.guid.value.as_str()));
            assert_eq!(item.guid().map(|guid| guid.is_permalink()), Some(false));
        }
    }
}
