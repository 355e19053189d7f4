use crate::genre_id::GenreId;
use vstd::prelude::*;
use vstd::std_specs::convert::FromSpecImpl;

verus! {

/// A genre of the upstream API: a number and the name listed for it.
pub trait Genre {
    spec fn spec_id(&self) -> GenreId;

    spec fn spec_name(&self) -> Seq<char>;

    /// The number of the genre.
    fn id(&self) -> (id: GenreId)
        ensures
            id == self.spec_id(),
    ;

    /// The name of the genre.
    fn name(&self) -> (name: &'static str)
        ensures
            name@ == self.spec_name(),
    ;
}

/// The genres that the upstream API lists for movies.
#[non_exhaustive]
#[derive(Debug, Copy, Clone, Eq, PartialEq, Structural, Hash)]
pub enum MovieGenre {
    Action,
    Adventure,
    Animation,
    Comedy,
    Crime,
    Documentary,
    Drama,
    Family,
    Fantasy,
    History,
    Horror,
    Music,
    Mystery,
    Romance,
    ScienceFiction,
    TvMovie,
    Thriller,
    War,
    Western,
    /// A genre that the list does not hold, by its number.
    Unknown(usize),
}

impl Genre for MovieGenre {
    open spec fn spec_id(&self) -> GenreId {
        match self {
            MovieGenre::Action => GenreId(28),
            MovieGenre::Adventure => GenreId(12),
            MovieGenre::Animation => GenreId(16),
            MovieGenre::Comedy => GenreId(35),
            MovieGenre::Crime => GenreId(80),
            MovieGenre::Documentary => GenreId(99),
            MovieGenre::Drama => GenreId(18),
            MovieGenre::Family => GenreId(10751),
            MovieGenre::Fantasy => GenreId(14),
            MovieGenre::History => GenreId(36),
            MovieGenre::Horror => GenreId(27),
            MovieGenre::Music => GenreId(10402),
            MovieGenre::Mystery => GenreId(9648),
            MovieGenre::Romance => GenreId(10749),
            MovieGenre::ScienceFiction => GenreId(878),
            MovieGenre::TvMovie => GenreId(10770),
            MovieGenre::Thriller => GenreId(53),
            MovieGenre::War => GenreId(10752),
            MovieGenre::Western => GenreId(37),
            MovieGenre::Unknown(id) => GenreId(*id),
        }
    }

    open spec fn spec_name(&self) -> Seq<char> {
        match self {
            MovieGenre::Action => "Action"@,
            MovieGenre::Adventure => "Adventure"@,
            MovieGenre::Animation => "Animation"@,
            MovieGenre::Comedy => "Comedy"@,
            MovieGenre::Crime => "Crime"@,
            MovieGenre::Documentary => "Documentary"@,
            MovieGenre::Drama => "Drama"@,
            MovieGenre::Family => "Family"@,
            MovieGenre::Fantasy => "Fantasy"@,
            MovieGenre::History => "History"@,
            MovieGenre::Horror => "Horror"@,
            MovieGenre::Music => "Music"@,
            MovieGenre::Mystery => "Mystery"@,
            MovieGenre::Romance => "Romance"@,
            MovieGenre::ScienceFiction => "Science Fiction"@,
            MovieGenre::TvMovie => "TV Movie"@,
            MovieGenre::Thriller => "Thriller"@,
            MovieGenre::War => "War"@,
            MovieGenre::Western => "Western"@,
            MovieGenre::Unknown(_) => "Unknown Genre"@,
        }
    }

    fn id(&self) -> (id: GenreId) {
        match self {
            MovieGenre::Action => GenreId(28),
            MovieGenre::Adventure => GenreId(12),
            MovieGenre::Animation => GenreId(16),
            MovieGenre::Comedy => GenreId(35),
            MovieGenre::Crime => GenreId(80),
            MovieGenre::Documentary => GenreId(99),
            MovieGenre::Drama => GenreId(18),
            MovieGenre::Family => GenreId(10751),
            MovieGenre::Fantasy => GenreId(14),
            MovieGenre::History => GenreId(36),
            MovieGenre::Horror => GenreId(27),
            MovieGenre::Music => GenreId(10402),
            MovieGenre::Mystery => GenreId(9648),
            MovieGenre::Romance => GenreId(10749),
            MovieGenre::ScienceFiction => GenreId(878),
            MovieGenre::TvMovie => GenreId(10770),
            MovieGenre::Thriller => GenreId(53),
            MovieGenre::War => GenreId(10752),
            MovieGenre::Western => GenreId(37),
            MovieGenre::Unknown(id) => GenreId(*id),
        }
    }

    fn name(&self) -> (name: &'static str) {
        match self {
            MovieGenre::Action => "Action",
            MovieGenre::Adventure => "Adventure",
            MovieGenre::Animation => "Animation",
            MovieGenre::Comedy => "Comedy",
            MovieGenre::Crime => "Crime",
            MovieGenre::Documentary => "Documentary",
            MovieGenre::Drama => "Drama",
            MovieGenre::Family => "Family",
            MovieGenre::Fantasy => "Fantasy",
            MovieGenre::History => "History",
            MovieGenre::Horror => "Horror",
            MovieGenre::Music => "Music",
            MovieGenre::Mystery => "Mystery",
            MovieGenre::Romance => "Romance",
            MovieGenre::ScienceFiction => "Science Fiction",
            MovieGenre::TvMovie => "TV Movie",
            MovieGenre::Thriller => "Thriller",
            MovieGenre::War => "War",
            MovieGenre::Western => "Western",
            MovieGenre::Unknown(_) => "Unknown Genre",
        }
    }
}

impl From<GenreId> for MovieGenre {
    fn from(genre_id: GenreId) -> (genre: MovieGenre) {
        match genre_id.0 {
            28 => MovieGenre::Action,
            12 => MovieGenre::Adventure,
            16 => MovieGenre::Animation,
            35 => MovieGenre::Comedy,
            80 => MovieGenre::Crime,
            99 => MovieGenre::Documentary,
            18 => MovieGenre::Drama,
            10751 => MovieGenre::Family,
            14 => MovieGenre::Fantasy,
            36 => MovieGenre::History,
            27 => MovieGenre::Horror,
            10402 => MovieGenre::Music,
            9648 => MovieGenre::Mystery,
            10749 => MovieGenre::Romance,
            878 => MovieGenre::ScienceFiction,
            10770 => MovieGenre::TvMovie,
            53 => MovieGenre::Thriller,
            10752 => MovieGenre::War,
            37 => MovieGenre::Western,
            id => MovieGenre::Unknown(id),
        }
    }
}

impl FromSpecImpl<GenreId> for MovieGenre {
    open spec fn obeys_from_spec() -> bool {
        true
    }

    open spec fn from_spec(genre_id: GenreId) -> MovieGenre {
        MovieGenre::with_id(genre_id)
    }
}

impl From<MovieGenre> for GenreId {
    fn from(genre: MovieGenre) -> (id: GenreId) {
        genre.id()
    }
}

impl FromSpecImpl<MovieGenre> for GenreId {
    open spec fn obeys_from_spec() -> bool {
        true
    }

    open spec fn from_spec(genre: MovieGenre) -> GenreId {
        genre.spec_id()
    }
}

impl MovieGenre {
    /// The genre listed under `genre_id`, or an unknown genre with that number.
    pub open spec fn with_id(genre_id: GenreId) -> MovieGenre {
        if genre_id.0 == 28 {
            MovieGenre::Action
        } else if genre_id.0 == 12 {
            MovieGenre::Adventure
        } else if genre_id.0 == 16 {
            MovieGenre::Animation
        } else if genre_id.0 == 35 {
            MovieGenre::Comedy
        } else if genre_id.0 == 80 {
            MovieGenre::Crime
        } else if genre_id.0 == 99 {
            MovieGenre::Documentary
        } else if genre_id.0 == 18 {
            MovieGenre::Drama
        } else if genre_id.0 == 10751 {
            MovieGenre::Family
        } else if genre_id.0 == 14 {
            MovieGenre::Fantasy
        } else if genre_id.0 == 36 {
            MovieGenre::History
        } else if genre_id.0 == 27 {
            MovieGenre::Horror
        } else if genre_id.0 == 10402 {
            MovieGenre::Music
        } else if genre_id.0 == 9648 {
            MovieGenre::Mystery
        } else if genre_id.0 == 10749 {
            MovieGenre::Romance
        } else if genre_id.0 == 878 {
            MovieGenre::ScienceFiction
        } else if genre_id.0 == 10770 {
            MovieGenre::TvMovie
        } else if genre_id.0 == 53 {
            MovieGenre::Thriller
        } else if genre_id.0 == 10752 {
            MovieGenre::War
        } else if genre_id.0 == 37 {
            MovieGenre::Western
        } else {
            MovieGenre::Unknown(genre_id.0)
        }
    }

    /// The name of the genre.
    pub fn to_string(&self) -> (name: String)
        ensures
            name@ == self.spec_name(),
    {
        self.name().to_owned()
    }

    /// A genre made from a number keeps that number.
    pub proof fn lemma_from_keeps_id(genre_id: GenreId)
        ensures
            MovieGenre::with_id(genre_id).spec_id() == genre_id,
    {
    }
}

/// The genres that the upstream API lists for television shows.
#[non_exhaustive]
#[derive(Debug, Copy, Clone, Eq, PartialEq, Structural, Hash)]
pub enum TvGenre {
    ActionAndAdventure,
    Animation,
    Comedy,
    Crime,
    Documentary,
    Drama,
    Family,
    Kids,
    Mystery,
    News,
    Reality,
    SciFiAndFantasy,
    Soap,
    Talk,
    WarAndPolitics,
    Western,
    /// A genre that the list does not hold, by its number.
    Unknown(usize),
}

impl Genre for TvGenre {
    open spec fn spec_id(&self) -> GenreId {
        match self {
            TvGenre::ActionAndAdventure => GenreId(10759),
            TvGenre::Animation => GenreId(16),
            TvGenre::Comedy => GenreId(35),
            TvGenre::Crime => GenreId(80),
            TvGenre::Documentary => GenreId(99),
            TvGenre::Drama => GenreId(18),
            TvGenre::Family => GenreId(10751),
            TvGenre::Kids => GenreId(10762),
            TvGenre::Mystery => GenreId(9648),
            TvGenre::News => GenreId(10763),
            TvGenre::Reality => GenreId(10764),
            TvGenre::SciFiAndFantasy => GenreId(10765),
            TvGenre::Soap => GenreId(10766),
            TvGenre::Talk => GenreId(10767),
            TvGenre::WarAndPolitics => GenreId(10768),
            TvGenre::Western => GenreId(37),
            TvGenre::Unknown(id) => GenreId(*id),
        }
    }

    open spec fn spec_name(&self) -> Seq<char> {
        match self {
            TvGenre::ActionAndAdventure => "Action & Adventure"@,
            TvGenre::Animation => "Animation"@,
            TvGenre::Comedy => "Comedy"@,
            TvGenre::Crime => "Crime"@,
            TvGenre::Documentary => "Documentary"@,
            TvGenre::Drama => "Drama"@,
            TvGenre::Family => "Family"@,
            TvGenre::Kids => "Kids"@,
            TvGenre::Mystery => "Mystery"@,
            TvGenre::News => "News"@,
            TvGenre::Reality => "Reality"@,
            TvGenre::SciFiAndFantasy => "Sci-Fi & Fantasy"@,
            TvGenre::Soap => "Soap"@,
            TvGenre::Talk => "Talk"@,
            TvGenre::WarAndPolitics => "War & Politics"@,
            TvGenre::Western => "Western"@,
            TvGenre::Unknown(_) => "Unknown Genre"@,
        }
    }

    fn id(&self) -> (id: GenreId) {
        match self {
            TvGenre::ActionAndAdventure => GenreId(10759),
            TvGenre::Animation => GenreId(16),
            TvGenre::Comedy => GenreId(35),
            TvGenre::Crime => GenreId(80),
            TvGenre::Documentary => GenreId(99),
            TvGenre::Drama => GenreId(18),
            TvGenre::Family => GenreId(10751),
            TvGenre::Kids => GenreId(10762),
            TvGenre::Mystery => GenreId(9648),
            TvGenre::News => GenreId(10763),
            TvGenre::Reality => GenreId(10764),
            TvGenre::SciFiAndFantasy => GenreId(10765),
            TvGenre::Soap => GenreId(10766),
            TvGenre::Talk => GenreId(10767),
            TvGenre::WarAndPolitics => GenreId(10768),
            TvGenre::Western => GenreId(37),
            TvGenre::Unknown(id) => GenreId(*id),
        }
    }

    fn name(&self) -> (name: &'static str) {
        match self {
            TvGenre::ActionAndAdventure => "Action & Adventure",
            TvGenre::Animation => "Animation",
            TvGenre::Comedy => "Comedy",
            TvGenre::Crime => "Crime",
            TvGenre::Documentary => "Documentary",
            TvGenre::Drama => "Drama",
            TvGenre::Family => "Family",
            TvGenre::Kids => "Kids",
            TvGenre::Mystery => "Mystery",
            TvGenre::News => "News",
            TvGenre::Reality => "Reality",
            TvGenre::SciFiAndFantasy => "Sci-Fi & Fantasy",
            TvGenre::Soap => "Soap",
            TvGenre::Talk => "Talk",
            TvGenre::WarAndPolitics => "War & Politics",
            TvGenre::Western => "Western",
            TvGenre::Unknown(_) => "Unknown Genre",
        }
    }
}

impl From<GenreId> for TvGenre {
    fn from(genre_id: GenreId) -> (genre: TvGenre) {
        match genre_id.0 {
            10759 => TvGenre::ActionAndAdventure,
            16 => TvGenre::Animation,
            35 => TvGenre::Comedy,
            80 => TvGenre::Crime,
            99 => TvGenre::Documentary,
            18 => TvGenre::Drama,
            10751 => TvGenre::Family,
            10762 => TvGenre::Kids,
            9648 => TvGenre::Mystery,
            10763 => TvGenre::News,
            10764 => TvGenre::Reality,
            10765 => TvGenre::SciFiAndFantasy,
            10766 => TvGenre::Soap,
            10767 => TvGenre::Talk,
            10768 => TvGenre::WarAndPolitics,
            37 => TvGenre::Western,
            id => TvGenre::Unknown(id),
        }
    }
}

impl FromSpecImpl<GenreId> for TvGenre {
    open spec fn obeys_from_spec() -> bool {
        true
    }

    open spec fn from_spec(genre_id: GenreId) -> TvGenre {
        TvGenre::with_id(genre_id)
    }
}

impl From<TvGenre> for GenreId {
    fn from(genre: TvGenre) -> (id: GenreId) {
        genre.id()
    }
}

impl FromSpecImpl<TvGenre> for GenreId {
    open spec fn obeys_from_spec() -> bool {
        true
    }

    open spec fn from_spec(genre: TvGenre) -> GenreId {
        genre.spec_id()
    }
}

impl TvGenre {
    /// The genre listed under `genre_id`, or an unknown genre with that number.
    pub open spec fn with_id(genre_id: GenreId) -> TvGenre {
        if genre_id.0 == 10759 {
            TvGenre::ActionAndAdventure
        } else if genre_id.0 == 16 {
            TvGenre::Animation
        } else if genre_id.0 == 35 {
            TvGenre::Comedy
        } else if genre_id.0 == 80 {
            TvGenre::Crime
        } else if genre_id.0 == 99 {
            TvGenre::Documentary
        } else if genre_id.0 == 18 {
            TvGenre::Drama
        } else if genre_id.0 == 10751 {
            TvGenre::Family
        } else if genre_id.0 == 10762 {
            TvGenre::Kids
        } else if genre_id.0 == 9648 {
            TvGenre::Mystery
        } else if genre_id.0 == 10763 {
            TvGenre::News
        } else if genre_id.0 == 10764 {
            TvGenre::Reality
        } else if genre_id.0 == 10765 {
            TvGenre::SciFiAndFantasy
        } else if genre_id.0 == 10766 {
            TvGenre::Soap
        } else if genre_id.0 == 10767 {
            TvGenre::Talk
        } else if genre_id.0 == 10768 {
            TvGenre::WarAndPolitics
        } else if genre_id.0 == 37 {
            TvGenre::Western
        } else {
            TvGenre::Unknown(genre_id.0)
        }
    }

    /// The name of the genre.
    pub fn to_string(&self) -> (name: String)
        ensures
            name@ == self.spec_name(),
    {
        self.name().to_owned()
    }

    /// A genre made from a number keeps that number.
    pub proof fn lemma_from_keeps_id(genre_id: GenreId)
        ensures
            TvGenre::with_id(genre_id).spec_id() == genre_id,
    {
    }
}
} // verus!
