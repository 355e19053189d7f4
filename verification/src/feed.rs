use crate::credit::{Cast, Crew};
use crate::date::{Date, MAX_DAYS, MIN_DAYS};
use crate::feed_item::{FeedItem, FeedItemView};
use crate::person_details::{person_url, PersonDetails};
use crate::pipeline::{combined_credits_items, eligible, items_of, selected, smaller, views_of};
use crate::query_args::QueryArgs;
use crate::sanitise::{sanitise_text, sanitised};
use crate::text::{decimal, opt_chars, push_decimal};
use vstd::prelude::*;

verus! {

/// What a feed names as the program that made it.
pub const GENERATOR: &'static str = "Movie Feed <https://github.com/calum4/movie-feed/>";

/// Where the format of a feed is documented.
pub const DOCS: &'static str = "https://www.rssboard.org/rss-specification";

/// How long a feed may be kept before it is fetched again, as the feed states it.
pub const TTL: u64 = 216_000;

/// What follows the person's name in the title of a feed.
pub const TITLE_SUFFIX: &'static str = " - Combined Credits";

/// The credits of a person as the upstream API lists them.
#[derive(Debug, Clone)]
pub struct CombinedCredits {
    pub id: Option<u64>,
    pub cast: Vec<Cast>,
    pub crew: Vec<Crew>,
}

/// A feed of credits: what it says of itself, and its items.
#[derive(Debug, Clone, PartialEq, Eq)]
pub struct Feed {
    pub title: String,
    pub link: String,
    pub description: Option<String>,
    pub last_build_date: String,
    pub generator: String,
    pub docs: String,
    pub ttl: String,
    pub items: Vec<FeedItem>,
}

/// What a feed holds.
pub struct FeedView {
    pub title: Seq<char>,
    pub link: Seq<char>,
    pub description: Option<Seq<char>>,
    pub last_build_date: Seq<char>,
    pub generator: Seq<char>,
    pub docs: Seq<char>,
    pub ttl: Seq<char>,
    pub items: Seq<FeedItemView>,
}

impl View for Feed {
    type V = FeedView;

    open spec fn view(&self) -> FeedView {
        FeedView {
            title: self.title@,
            link: self.link@,
            description: opt_chars(self.description),
            last_build_date: self.last_build_date@,
            generator: self.generator@,
            docs: self.docs@,
            ttl: self.ttl@,
            items: views_of(self.items@),
        }
    }
}

/// The description of a feed: the biography made safe, where there is one.
pub open spec fn feed_description(biography: Option<Seq<char>>) -> Option<Seq<char>> {
    match biography {
        Some(text) => Some(sanitised(text)),
        None => None,
    }
}

/// The feed of the credits of a person, built at a time that reads
/// `last_build_date`, with release dates judged on the day `now`.
pub open spec fn feed_of(
    details: PersonDetails,
    credits: CombinedCredits,
    query: QueryArgs,
    now: int,
    last_build_date: Seq<char>,
) -> FeedView {
    FeedView {
        title: sanitised(details.name@ + TITLE_SUFFIX@),
        link: person_url(details.id as int),
        description: feed_description(opt_chars(details.biography)),
        last_build_date,
        generator: GENERATOR@,
        docs: DOCS@,
        ttl: decimal(TTL as nat),
        items: items_of(
            selected(
                credits.cast@,
                credits.crew@,
                query.release_status,
                query.sort_order,
                query.size@,
                now,
            ),
        ),
    }
}

/// The feed of the credits of a person: the credits that the request
/// admits on the day `now`, in the order and up to the number it asks for.
pub fn combined_credits(
    details: &PersonDetails,
    credits: CombinedCredits,
    query: &QueryArgs,
    now: &Date,
    last_build_date: String,
) -> (feed: Feed)
    ensures
        feed@ == feed_of(*details, credits, *query, now@, last_build_date@),
        feed.items.len() == smaller(
            query.size@ as int,
            eligible(credits.cast@, credits.crew@, query.release_status, now@).len() as int,
        ),
{
    let mut title = details.name.clone();
    title.append(TITLE_SUFFIX);
    let description = match &details.biography {
        Some(biography) => Some(sanitise_text(biography.as_str())),
        None => None,
    };
    let mut ttl = String::new();
    push_decimal(&mut ttl, TTL);
    let CombinedCredits { id: _, cast, crew } = credits;
    let items = combined_credits_items(cast, crew, query, now);
    Feed {
        title: sanitise_text(title.as_str()),
        link: details.tmdb_url(),
        description,
        last_build_date,
        generator: GENERATOR.to_owned(),
        docs: DOCS.to_owned(),
        ttl,
        items,
    }
}

/// The feed of the credits of a person as of now: the clock is read once,
/// for the day on which release dates are judged and for the build date.
pub fn combined_credits_now(details: &PersonDetails, credits: CombinedCredits, query: &QueryArgs) -> (feed:
    Feed)
    ensures
        exists|now: int, last_build_date: Seq<char>|
            MIN_DAYS <= now <= MAX_DAYS && feed@ == feed_of(
                *details,
                credits,
                *query,
                now,
                last_build_date,
            ),
        feed.items.len() <= query.size@,
{
    let (now, last_build_date) = Date::now();
    let feed = combined_credits(details, credits, query, &now, last_build_date);
    assert(MIN_DAYS <= now@ <= MAX_DAYS && feed@ == feed_of(
        *details,
        credits,
        *query,
        now@,
        last_build_date@,
    ));
    feed
}

} // verus!
