use crate::text::{lowercased, str_eq, to_lowercase, trim, trimmed};
use std::convert::Infallible;
use std::str::FromStr;
use vstd::prelude::*;

verus! {

/// The kind of media that a credit belongs to.
#[non_exhaustive]
#[derive(Debug, Clone, Eq, PartialEq, Hash)]
pub enum MediaType {
    Movie,
    Tv,
    /// A kind that the library does not know, by the name it came under.
    Unknown(String),
}

/// What a `MediaType` stands for.
pub enum MediaKind {
    Movie,
    Tv,
    Unknown(Seq<char>),
}

impl View for MediaType {
    type V = MediaKind;

    open spec fn view(&self) -> MediaKind {
        match self {
            MediaType::Movie => MediaKind::Movie,
            MediaType::Tv => MediaKind::Tv,
            MediaType::Unknown(name) => MediaKind::Unknown(name@),
        }
    }
}

/// The kind that is written exactly as `name`, if any.
pub open spec fn exact_kind(name: Seq<char>) -> Option<MediaKind> {
    if name == "movie"@ {
        Some(MediaKind::Movie)
    } else if name == "tv"@ {
        Some(MediaKind::Tv)
    } else {
        None
    }
}

/// The kind that `text` names: surrounding whitespace and letter case do
/// not count, and any other name is kept, trimmed, as an unknown kind.
pub open spec fn named_kind(text: Seq<char>) -> MediaKind {
    let name = trimmed(text);
    match exact_kind(name) {
        Some(kind) => kind,
        None => match exact_kind(lowercased(name)) {
            Some(kind) => kind,
            None => MediaKind::Unknown(name),
        },
    }
}

impl MediaKind {
    /// The first segment of the path under which the site shows such media.
    pub open spec fn url_prefix(self) -> Option<Seq<char>> {
        match self {
            MediaKind::Movie => Some("movie"@),
            MediaKind::Tv => Some("tv"@),
            MediaKind::Unknown(_) => None,
        }
    }

    /// The label of the kind for readers.
    pub open spec fn label(self) -> Seq<char> {
        match self {
            MediaKind::Movie => "Movie"@,
            MediaKind::Tv => "TV"@,
            MediaKind::Unknown(name) => "Unknown("@ + name + ")"@,
        }
    }
}

impl MediaType {
    fn exact(name: &str) -> (kind: Option<MediaType>)
        ensures
            match kind {
                Some(k) => exact_kind(name@) == Some(k@),
                None => exact_kind(name@) is None,
            },
    {
        if str_eq(name, "movie") {
            Some(MediaType::Movie)
        } else if str_eq(name, "tv") {
            Some(MediaType::Tv)
        } else {
            None
        }
    }

    /// The media type that `text` names; this never fails.
    pub fn parse(text: &str) -> (media_type: MediaType)
        ensures
            media_type@ == named_kind(text@),
    {
        let name = trim(text);
        match MediaType::exact(name) {
            Some(kind) => kind,
            None => {
                let lower = to_lowercase(name);
                match MediaType::exact(lower.as_str()) {
                    Some(kind) => kind,
                    None => MediaType::Unknown(name.to_owned()),
                }
            },
        }
    }

    /// The first segment of the path under which the site shows media of
    /// this type; an unknown type has none.
    pub fn tmdb_url_prefix(&self) -> (prefix: Option<&'static str>)
        ensures
            match prefix {
                Some(p) => self@.url_prefix() == Some(p@),
                None => self@.url_prefix() is None,
            },
    {
        match self {
            MediaType::Movie => Some("movie"),
            MediaType::Tv => Some("tv"),
            MediaType::Unknown(_) => None,
        }
    }

    /// The label of the media type for readers.
    pub fn to_string(&self) -> (label: String)
        ensures
            label@ == self@.label(),
    {
        match self {
            MediaType::Movie => "Movie".to_owned(),
            MediaType::Tv => "TV".to_owned(),
            MediaType::Unknown(name) => {
                let mut label = "Unknown(".to_owned();
                label.append(name.as_str());
                label.append(")");
                label
            },
        }
    }
}

impl FromStr for MediaType {
    type Err = Infallible;

    /// The media type that `s` names, as `parse` reads it; this never fails.
    fn from_str(s: &str) -> (media_type: Result<Self, Self::Err>)
        ensures
            media_type matches Ok(kind) && kind@ == named_kind(s@),
    {
        Ok(MediaType::parse(s))
    }
}

} // verus!
