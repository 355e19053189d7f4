use crate::credit::{texts_of, Credit, CreditView, IsCredit, RoleView};
use crate::date::{formatted_days, DISPLAY_DATE_FORMAT};
use crate::guid::{credit_guid, guid_of, Guid};
use crate::sanitise::{sanitise_text, sanitised};
use crate::site::media_url;
use vstd::prelude::*;

verus! {

/// One item of a feed, ready to be written out.
#[derive(Debug, Clone, PartialEq, Eq)]
pub struct FeedItem {
    pub guid: Guid,
    pub categories: Vec<String>,
    pub link: String,
    pub title: String,
    /// The description as HTML.
    pub description: String,
}

/// What a feed item holds.
pub struct FeedItemView {
    pub guid: Seq<char>,
    pub guid_is_permalink: bool,
    pub categories: Seq<Seq<char>>,
    pub link: Seq<char>,
    pub title: Seq<char>,
    pub description: Seq<char>,
}

/// The characters of each of `texts`, in order.
pub open spec fn strings_of(texts: Seq<String>) -> Seq<Seq<char>> {
    Seq::new(texts.len(), |i: int| texts[i]@)
}

impl View for FeedItem {
    type V = FeedItemView;

    open spec fn view(&self) -> FeedItemView {
        FeedItemView {
            guid: self.guid.value@,
            guid_is_permalink: self.guid.permalink,
            categories: strings_of(self.categories@),
            link: self.link@,
            title: self.title@,
            description: self.description@,
        }
    }
}

/// The texts of `parts` in one, with `separator` between neighbours.
pub open spec fn joined(parts: Seq<Seq<char>>, separator: Seq<char>) -> Seq<char>
    decreases parts.len(),
{
    if parts.len() == 0 {
        Seq::empty()
    } else if parts.len() == 1 {
        parts[0]
    } else {
        joined(parts.drop_last(), separator) + separator + parts.last()
    }
}

/// The text that stands for a missing value.
pub open spec fn to_be_announced() -> Seq<char> {
    "TBA"@
}

/// What the description says of the person's part in the work.
pub open spec fn role_text(role: RoleView) -> Seq<char> {
    match role {
        RoleView::Cast { character } => "Character: "@ + match character {
            Some(name) => name,
            None => to_be_announced(),
        },
        RoleView::Crew { department, job } => "Department: "@ + department + "<br>Job: "@ + job,
    }
}

/// What the description says of the release date.
pub open spec fn release_date_text(release_date: Option<int>) -> Seq<char> {
    match release_date {
        Some(day) => formatted_days(day, DISPLAY_DATE_FORMAT@),
        None => to_be_announced(),
    }
}

/// The paragraph that the description ends with, where there is an overview.
pub open spec fn overview_text(overview: Option<Seq<char>>) -> Seq<char> {
    match overview {
        Some(text) => "</p><p>"@ + text + "</p>"@,
        None => Seq::empty(),
    }
}

/// The description of the item of a credit before it is made safe.
pub open spec fn raw_description(credit: CreditView) -> Seq<char> {
    "<p>"@ + role_text(credit.role) + "<br>Genres: "@ + joined(credit.genres, ", "@)
        + "<br>Language: "@ + credit.original_language + "<br>Release Date: "@ + release_date_text(
        credit.release_date,
    ) + overview_text(credit.overview)
}

/// The categories of the item of a credit: the media type, the character
/// where a cast credit names one, and the genres.
pub open spec fn item_categories(credit: CreditView) -> Seq<Seq<char>> {
    seq![sanitised(credit.media_type.label())] + match credit.role {
        RoleView::Cast { character: Some(name) } => seq![sanitised(name)],
        _ => Seq::empty(),
    } + credit.genres
}

/// The feed item of a credit.
pub open spec fn item_of(credit: CreditView) -> FeedItemView {
    FeedItemView {
        guid: guid_of(credit),
        guid_is_permalink: false,
        categories: item_categories(credit),
        link: media_url(credit.media_type, credit.id),
        title: credit.title,
        description: sanitised(raw_description(credit)),
    }
}

/// Appends the names of the genres to `description`, separated by commas,
/// and the names themselves to `categories`.
fn push_genres(description: &mut String, categories: &mut Vec<String>, genres: &Vec<&'static str>)
    ensures
        final(description)@ == old(description)@ + joined(
            texts_of(genres@),
            ", "@,
        ),
        strings_of(final(categories)@) == strings_of(old(categories)@) + texts_of(
            genres@,
        ),
{
    let ghost names = texts_of(genres@);
    let mut i: usize = 0;
    assert(names.take(0) =~= Seq::<Seq<char>>::empty());
    assert(strings_of(categories@) + names.take(0) =~= strings_of(categories@));
    assert(description@ + joined(names.take(0), ", "@) =~= description@);
    while i < genres.len()
        invariant
            i <= genres.len(),
            names == texts_of(genres@),
            description@ == old(description)@ + joined(names.take(i as int), ", "@),
            strings_of(categories@) == strings_of(old(categories)@) + names.take(i as int),
        decreases genres.len() - i,
    {
        let ghost before = description@;
        let ghost listed = strings_of(categories@);
        if i > 0 {
            description.append(", ");
        }
        description.append(genres[i]);
        categories.push(genres[i].to_owned());
        proof {
            let next = names.take(i + 1);
            assert(next.drop_last() =~= names.take(i as int));
            assert(next.last() == genres@[i as int]@);
            if i == 0 {
                assert(next.len() == 1);
                assert(joined(names.take(0), ", "@) =~= Seq::<char>::empty());
                assert(description@ =~= old(description)@ + joined(next, ", "@));
            } else {
                assert(description@ =~= old(description)@ + joined(next, ", "@));
            }
            assert(strings_of(categories@) =~= listed.push(genres@[i as int]@));
            assert(strings_of(categories@) =~= strings_of(old(categories)@) + next);
        }
        i += 1;
    }
    assert(names.take(genres.len() as int) =~= names);
}

/// The feed item of `credit`.
pub fn feed_item(credit: &Credit) -> (item: FeedItem)
    ensures
        item@ == item_of(credit@),
{
    let mut categories: Vec<String> = Vec::new();
    categories.push(sanitise_text(credit.media_type().to_string().as_str()));
    let mut description = String::new();
    description.append("<p>");
    match credit {
        Credit::Cast(cast) => {
            description.append("Character: ");
            match cast.character() {
                None => {
                    description.append("TBA");
                },
                Some(character) => {
                    description.append(character.as_str());
                    categories.push(sanitise_text(character.as_str()));
                },
            }
        },
        Credit::Crew(crew) => {
            description.append("Department: ");
            description.append(crew.department());
            description.append("<br>Job: ");
            description.append(crew.job());
        },
    }
    assert(description@ =~= "<p>"@ + role_text(credit@.role));
    let ghost role_categories = strings_of(categories@);
    assert(role_categories =~= seq![sanitised(credit@.media_type.label())] + match credit@.role {
        RoleView::Cast { character: Some(name) } => seq![sanitised(name)],
        _ => Seq::empty(),
    });
    description.append("<br>Genres: ");
    let genres = credit.genres();
    push_genres(&mut description, &mut categories, &genres);
    description.append("<br>Language: ");
    description.append(credit.original_language());
    description.append("<br>Release Date: ");
    match credit.release_date() {
        None => {
            description.append("TBA");
        },
        Some(date) => {
            let text = date.display_text();
            description.append(text.as_str());
        },
    }
    assert(description@ =~= "<p>"@ + role_text(credit@.role) + "<br>Genres: "@ + joined(
        credit@.genres,
        ", "@,
    ) + "<br>Language: "@ + credit@.original_language + "<br>Release Date: "@ + release_date_text(
        credit@.release_date,
    ));
    match credit.overview() {
        Some(overview) => {
            description.append("</p><p>");
            description.append(overview.as_str());
            description.append("</p>");
        },
        None => {},
    }
    assert(description@ =~= raw_description(credit@));
    let item = FeedItem {
        guid: credit_guid(credit),
        categories,
        link: credit.tmdb_media_url(),
        title: credit.title().to_owned(),
        description: sanitise_text(description.as_str()),
    };
    assert(item@.categories =~= item_categories(credit@));
    item
}

} // verus!
