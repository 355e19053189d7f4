use crate::date::Date;
use crate::gender::Gender;
use crate::site::{
    is_plain_path, joined_url, lemma_decimal_is_plain, resolved_url, IMDB_SITE_URL,
    SITE_URL,
};
use crate::text::{decimal, opt_chars, push_signed_decimal, signed_decimal};
use vstd::prelude::*;

verus! {

/// What the upstream API tells of a person.
#[derive(Debug, Clone)]
pub struct PersonDetails {
    pub adult: bool,
    pub also_known_as: Vec<String>,
    pub biography: Option<String>,
    pub birthday: Option<Date>,
    pub deathday: Option<Date>,
    pub gender: Gender,
    pub homepage: Option<String>,
    pub id: i32,
    pub imdb_id: Option<String>,
    pub known_for_department: String,
    pub name: String,
    pub place_of_birth: Option<String>,
    pub profile_path: Option<String>,
}

/// The address of the page of the person numbered `id` on the site.
pub open spec fn person_url(id: int) -> Seq<char> {
    SITE_URL@ + "person/"@ + signed_decimal(id)
}

/// The path of a name on the site of the Internet Movie Database.
pub open spec fn imdb_name_path(imdb_id: Seq<char>) -> Seq<char> {
    "/name/"@ + imdb_id
}

impl PersonDetails {
    /// The address of the person's page on the site.
    pub fn tmdb_url(&self) -> (url: String)
        ensures
            url@ == person_url(self.id as int),
    {
        let mut path = "person/".to_owned();
        push_signed_decimal(&mut path, self.id as i64);
        proof {
            reveal_strlit("person/");
            let digits = signed_decimal(self.id as int);
            if self.id < 0 {
                lemma_decimal_is_plain((-self.id) as nat);
            } else {
                lemma_decimal_is_plain(self.id as nat);
            }
            assert(path@ == "person/"@ + digits);
            assert forall|i: int| 0 <= i < path@.len() implies crate::site::is_path_char(
                #[trigger] path@[i],
            ) by {
                if i >= 7 {
                    assert(path@[i] == digits[i - 7]);
                    if self.id < 0 && i > 7 {
                        assert(digits[i - 7] == decimal((-self.id) as nat)[i - 8]);
                    }
                }
            }
            assert(is_plain_path(path@));
        }
        match resolved_url(SITE_URL, path.as_str()) {
            Some(url) => {
                assert(url@ =~= person_url(self.id as int));
                url
            },
            None => String::new(),
        }
    }

    /// The address of the person's page on the site of the Internet Movie
    /// Database, where the person has an identifier there that makes one.
    pub fn imdb_url(&self) -> (url: Option<String>)
        ensures
            opt_chars(url) == match opt_chars(self.imdb_id) {
                Some(id) => joined_url(IMDB_SITE_URL@, imdb_name_path(id)),
                None => None,
            },
    {
        match &self.imdb_id {
            Some(id) => {
                let mut path = "/name/".to_owned();
                path.append(id.as_str());
                resolved_url(IMDB_SITE_URL, path.as_str())
            },
            None => None,
        }
    }
}

} // verus!
