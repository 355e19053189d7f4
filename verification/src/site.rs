use crate::media_type::{MediaKind, MediaType};
use crate::text::{decimal, opt_chars, push_decimal};
use vstd::prelude::*;

verus! {

/// The root of the upstream API.
pub const DEFAULT_API_URL: &'static str = "https://api.themoviedb.org/";

/// The root of the site on which the upstream database shows its pages.
pub const SITE_URL: &'static str = "https://www.themoviedb.org/";

/// The root of the site of the Internet Movie Database.
pub const IMDB_SITE_URL: &'static str = "https://www.imdb.com/";

/// The text of the URL that `text` is read as, where it is one.
pub uninterp spec fn parsed_url(text: Seq<char>) -> Option<Seq<char>>;

/// The text of the URL that the reference `reference` stands for when it
/// is met at the URL `base`, where both can be read.
pub uninterp spec fn joined_url(base: Seq<char>, reference: Seq<char>) -> Option<Seq<char>>;

/// Whether `text` is one of the three roots that the library knows.
pub open spec fn is_site_root(text: Seq<char>) -> bool {
    text == DEFAULT_API_URL@ || text == SITE_URL@ || text == IMDB_SITE_URL@
}

/// Whether `c` is an ASCII letter.
pub open spec fn is_ascii_letter(c: char) -> bool {
    ('a' <= c <= 'z') || ('A' <= c <= 'Z')
}

/// Whether `c` may stand in a plain path: an ASCII letter or digit, a
/// hyphen or a slash.
pub open spec fn is_path_char(c: char) -> bool {
    is_ascii_letter(c) || ('0' <= c <= '9') || c == '-' || c == '/'
}

/// Whether `path` is a relative path that reads the same in a URL as on
/// its own: it begins with a letter and holds plain characters only.
pub open spec fn is_plain_path(path: Seq<char>) -> bool {
    &&& path.len() > 0
    &&& is_ascii_letter(path[0])
    &&& forall|i: int| 0 <= i < path.len() ==> is_path_char(#[trigger] path[i])
}

/// `url::Url::parse`, and the text of the URL it gives; `None` where it
/// refuses the input. The result is named by `parsed_url`. Beyond that,
/// each of the three site roots, which are an `https` scheme, a host
/// name in lower case and the path `/`, is read as itself.
#[verifier::external_body]
pub(crate) fn url_parse(text: &str) -> (url: Option<String>)
    ensures
        opt_chars(url) == parsed_url(text@),
        is_site_root(text@) ==> opt_chars(url) == Some(text@),
{
    url::Url::parse(text).ok().map(|url| url.to_string())
}

/// `url::Url::join` on the URL that `base` is read as, and the text of
/// the URL it gives; `None` where either cannot be read. The result is
/// named by `joined_url`. Beyond that, a plain path joined to one of the
/// three site roots, whose path ends in a slash, is that root followed by
/// the path.
#[verifier::external_body]
pub(crate) fn url_join(base: &str, reference: &str) -> (url: Option<String>)
    ensures
        opt_chars(url) == joined_url(base@, reference@),
        is_site_root(base@) && is_plain_path(reference@) ==> opt_chars(url) == Some(
            base@ + reference@,
        ),
{
    url::Url::parse(base).ok()?.join(reference).ok().map(|url| url.to_string())
}

/// The text of the URL that `text` is read as, if it is one.
pub fn normalised_url(text: &str) -> (url: Option<String>)
    ensures
        opt_chars(url) == parsed_url(text@),
        is_site_root(text@) ==> opt_chars(url) == Some(text@),
{
    url_parse(text)
}

/// The URL of `reference` as met at `base`, if both can be read.
pub fn resolved_url(base: &str, reference: &str) -> (url: Option<String>)
    ensures
        opt_chars(url) == joined_url(base@, reference@),
        is_site_root(base@) && is_plain_path(reference@) ==> opt_chars(url) == Some(
            base@ + reference@,
        ),
{
    url_join(base, reference)
}

/// The path of the page of the work numbered `id` under the site root.
/// A kind of media without a page of its own has the empty path.
pub open spec fn media_path(media_type: MediaKind, id: nat) -> Seq<char> {
    match media_type.url_prefix() {
        Some(prefix) => prefix + "/"@ + decimal(id),
        None => Seq::empty(),
    }
}

/// The address of the page of the work numbered `id` on the site.
pub open spec fn media_url(media_type: MediaKind, id: nat) -> Seq<char> {
    SITE_URL@ + media_path(media_type, id)
}

/// Decimal digits are plain characters.
pub proof fn lemma_decimal_is_plain(n: nat)
    ensures
        decimal(n).len() > 0,
        forall|i: int| 0 <= i < decimal(n).len() ==> is_path_char(#[trigger] decimal(n)[i]),
    decreases n,
{
    if n >= 10 {
        lemma_decimal_is_plain(n / 10);
    }
}

/// The address of the page of the work numbered `id` on the site.
pub fn site_media_url(media_type: &MediaType, id: usize) -> (url: String)
    requires
        media_type@ is Movie || media_type@ is Tv,
    ensures
        url@ == media_url(media_type@, id as nat),
{
    let mut path = match media_type.tmdb_url_prefix() {
        Some(prefix) => prefix.to_owned(),
        None => String::new(),
    };
    let ghost prefix = path@;
    path.append("/");
    push_decimal(&mut path, id as u64);
    proof {
        reveal_strlit("movie");
        reveal_strlit("tv");
        reveal_strlit("/");
        lemma_decimal_is_plain(id as nat);
        assert(path@ == prefix + "/"@ + decimal(id as nat));
        assert forall|i: int| 0 <= i < path@.len() implies is_path_char(#[trigger] path@[i]) by {
            if i < prefix.len() {
                assert(path@[i] == prefix[i]);
            } else if i == prefix.len() {
                assert(path@[i] == '/');
            } else {
                assert(path@[i] == decimal(id as nat)[i - prefix.len() - 1]);
            }
        }
        assert(path@[0] == prefix[0]);
    }
    match url_join(SITE_URL, path.as_str()) {
        Some(url) => url,
        None => String::new(),
    }
}

/// The root of the upstream API as a URL reads.
pub fn default_api_url() -> (url: String)
    ensures
        url@ == DEFAULT_API_URL@,
{
    match url_parse(DEFAULT_API_URL) {
        Some(url) => url,
        None => String::new(),
    }
}

/// The root of the site as a URL reads.
pub fn site_url() -> (url: String)
    ensures
        url@ == SITE_URL@,
{
    match url_parse(SITE_URL) {
        Some(url) => url,
        None => String::new(),
    }
}

/// The root of the site of the Internet Movie Database as a URL reads.
pub fn imdb_site_url() -> (url: String)
    ensures
        url@ == IMDB_SITE_URL@,
{
    match url_parse(IMDB_SITE_URL) {
        Some(url) => url,
        None => String::new(),
    }
}

} // verus!
