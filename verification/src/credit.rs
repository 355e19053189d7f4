use crate::date::{opt_days, Date};
use crate::genres::{Genre, MovieGenre, TvGenre};
use crate::media_type::{MediaKind, MediaType};
use crate::site::{media_url, site_media_url};
use crate::text::{opt_chars, opt_chars_ref};
use vstd::prelude::*;
use vstd::std_specs::convert::FromSpecImpl;
use vstd::utf8::encode_utf8;

verus! {

/// Whether a credit is for acting or for work behind the camera.
#[derive(Debug, Copy, Clone, Eq, PartialEq, Structural, Hash)]
pub enum CreditType {
    Cast,
    Crew,
}

/// What a credit says of the person's part in the work.
pub enum RoleView {
    Cast { character: Option<Seq<char>> },
    Crew { department: Seq<char>, job: Seq<char> },
}

/// What a credit holds, whatever its shape.
pub struct CreditView {
    pub id: nat,
    pub title: Seq<char>,
    pub original_title: Seq<char>,
    /// The names of the genres, in the order in which they are listed.
    pub genres: Seq<Seq<char>>,
    /// The day number of the release date.
    pub release_date: Option<int>,
    pub original_language: Seq<char>,
    pub overview: Option<Seq<char>>,
    pub credit_id: Seq<char>,
    pub media_type: MediaKind,
    pub role: RoleView,
}

impl CreditView {
    /// Cast or crew, as the role says.
    pub open spec fn credit_type(self) -> CreditType {
        match self.role {
            RoleView::Cast { .. } => CreditType::Cast,
            RoleView::Crew { .. } => CreditType::Crew,
        }
    }

    /// The length of the overview in bytes of UTF-8.
    pub open spec fn overview_len(self) -> Option<usize> {
        match self.overview {
            Some(text) => Some(encode_utf8(text).len() as usize),
            None => None,
        }
    }
}

/// The day number of an optional borrowed date.
pub open spec fn opt_days_ref(date: Option<&Date>) -> Option<int> {
    match date {
        Some(d) => Some(d@),
        None => None,
    }
}

/// The names of `genres`, in order.
pub open spec fn genre_names<G: Genre>(genres: Seq<G>) -> Seq<Seq<char>> {
    Seq::new(genres.len(), |i: int| genres[i].spec_name())
}

/// The characters of each of `texts`, in order.
pub open spec fn texts_of(texts: Seq<&'static str>) -> Seq<Seq<char>> {
    Seq::new(texts.len(), |i: int| texts[i]@)
}

/// The names of `genres`, in order.
pub fn names_of<G: Genre>(genres: &Vec<G>) -> (names: Vec<&'static str>)
    ensures
        texts_of(names@) == genre_names(genres@),
{
    let mut names: Vec<&'static str> = Vec::new();
    let mut i: usize = 0;
    while i < genres.len()
        invariant
            i <= genres.len(),
            names.len() == i,
            forall|j: int| 0 <= j < i ==> names@[j]@ == genres@[j].spec_name(),
        decreases genres.len() - i,
    {
        names.push(genres[i].name());
        i += 1;
    }
    assert(texts_of(names@) =~= genre_names(genres@));
    names
}

/// The accessors that every shape of credit offers.
pub trait IsCredit {
    /// What the credit holds.
    spec fn model(&self) -> CreditView;

    /// The number of the work in the upstream database.
    fn id(&self) -> (id: usize)
        ensures
            id == self.model().id,
    ;

    /// The title of the work; for a show, its name.
    fn title(&self) -> (title: &str)
        ensures
            title@ == self.model().title,
    ;

    fn original_title(&self) -> (title: &str)
        ensures
            title@ == self.model().original_title,
    ;

    /// The names of the genres of the work, in the order of the source.
    fn genres(&self) -> (names: Vec<&'static str>)
        ensures
            texts_of(names@) == self.model().genres,
    ;

    /// The release date of a movie, or the date on which a show first aired.
    fn release_date(&self) -> (date: Option<&Date>)
        ensures
            opt_days_ref(date) == self.model().release_date,
    ;

    fn original_language(&self) -> (language: &str)
        ensures
            language@ == self.model().original_language,
    ;

    fn overview(&self) -> (overview: Option<&String>)
        ensures
            opt_chars_ref(overview) == self.model().overview,
    ;

    /// The identifier of this engagement in the upstream database.
    fn credit_id(&self) -> (credit_id: &str)
        ensures
            credit_id@ == self.model().credit_id,
    ;

    /// Movie or show; never an unknown kind.
    fn media_type(&self) -> (media_type: MediaType)
        ensures
            media_type@ == self.model().media_type,
            media_type@ is Movie || media_type@ is Tv,
    ;

    fn credit_type(&self) -> (credit_type: CreditType)
        ensures
            credit_type == self.model().credit_type(),
    ;

    /// The length of the overview in bytes.
    fn overview_len(&self) -> (len: Option<usize>)
        ensures
            len == self.model().overview_len(),
    ;

    /// The address of the page of the work on the site.
    fn tmdb_media_url(&self) -> (url: String)
        ensures
            url@ == media_url(self.model().media_type, self.model().id),
    {
        let media_type = self.media_type();
        site_media_url(&media_type, self.id())
    }
}

/// A part played in a movie.
#[derive(Debug, Hash, Clone)]
pub struct MovieCast {
    pub id: usize,
    pub title: String,
    pub original_title: String,
    pub character: Option<String>,
    pub genres: Vec<MovieGenre>,
    pub release_date: Option<Date>,
    pub overview: Option<String>,
    pub original_language: String,
    pub credit_id: String,
}

impl View for MovieCast {
    type V = CreditView;

    open spec fn view(&self) -> CreditView {
        CreditView {
            id: self.id as nat,
            title: self.title@,
            original_title: self.original_title@,
            genres: genre_names(self.genres@),
            release_date: opt_days(self.release_date),
            original_language: self.original_language@,
            overview: opt_chars(self.overview),
            credit_id: self.credit_id@,
            media_type: MediaKind::Movie,
            role: RoleView::Cast { character: opt_chars(self.character) },
        }
    }
}

impl MovieCast {
    /// The kind of media of every such credit.
    pub const MEDIA_TYPE: MediaType = MediaType::Movie;

    /// The kind of role of every such credit.
    pub const CREDIT_TYPE: CreditType = CreditType::Cast;
}

impl IsCredit for MovieCast {
    open spec fn model(&self) -> CreditView {
        self@
    }

    #[inline]
    fn id(&self) -> (id: usize) {
        self.id
    }

    #[inline]
    fn title(&self) -> (title: &str) {
        self.title.as_str()
    }

    #[inline]
    fn original_title(&self) -> (title: &str) {
        self.original_title.as_str()
    }

    #[inline]
    fn genres(&self) -> (names: Vec<&'static str>) {
        names_of(&self.genres)
    }

    #[inline]
    fn release_date(&self) -> (date: Option<&Date>) {
        self.release_date.as_ref()
    }

    #[inline]
    fn original_language(&self) -> (language: &str) {
        self.original_language.as_str()
    }

    #[inline]
    fn overview(&self) -> (overview: Option<&String>) {
        self.overview.as_ref()
    }

    #[inline]
    fn credit_id(&self) -> (credit_id: &str) {
        self.credit_id.as_str()
    }

    #[inline]
    fn media_type(&self) -> (media_type: MediaType) {
        MediaType::Movie
    }

    #[inline]
    fn credit_type(&self) -> (credit_type: CreditType) {
        CreditType::Cast
    }

    #[inline]
    fn overview_len(&self) -> (len: Option<usize>) {
        match &self.overview {
            Some(overview) => Some(overview.as_str().len()),
            None => None,
        }
    }
}

/// A part played in a television show.
#[derive(Debug, Hash, Clone)]
pub struct TvCast {
    pub id: usize,
    pub name: String,
    pub original_name: String,
    pub character: Option<String>,
    pub genres: Vec<TvGenre>,
    pub first_air_date: Option<Date>,
    pub overview: Option<String>,
    pub original_language: String,
    pub credit_id: String,
}

impl View for TvCast {
    type V = CreditView;

    open spec fn view(&self) -> CreditView {
        CreditView {
            id: self.id as nat,
            title: self.name@,
            original_title: self.original_name@,
            genres: genre_names(self.genres@),
            release_date: opt_days(self.first_air_date),
            original_language: self.original_language@,
            overview: opt_chars(self.overview),
            credit_id: self.credit_id@,
            media_type: MediaKind::Tv,
            role: RoleView::Cast { character: opt_chars(self.character) },
        }
    }
}

impl TvCast {
    /// The kind of media of every such credit.
    pub const MEDIA_TYPE: MediaType = MediaType::Tv;

    /// The kind of role of every such credit.
    pub const CREDIT_TYPE: CreditType = CreditType::Cast;
}

impl IsCredit for TvCast {
    open spec fn model(&self) -> CreditView {
        self@
    }

    #[inline]
    fn id(&self) -> (id: usize) {
        self.id
    }

    #[inline]
    fn title(&self) -> (title: &str) {
        self.name.as_str()
    }

    #[inline]
    fn original_title(&self) -> (title: &str) {
        self.original_name.as_str()
    }

    #[inline]
    fn genres(&self) -> (names: Vec<&'static str>) {
        names_of(&self.genres)
    }

    #[inline]
    fn release_date(&self) -> (date: Option<&Date>) {
        self.first_air_date.as_ref()
    }

    #[inline]
    fn original_language(&self) -> (language: &str) {
        self.original_language.as_str()
    }

    #[inline]
    fn overview(&self) -> (overview: Option<&String>) {
        self.overview.as_ref()
    }

    #[inline]
    fn credit_id(&self) -> (credit_id: &str) {
        self.credit_id.as_str()
    }

    #[inline]
    fn media_type(&self) -> (media_type: MediaType) {
        MediaType::Tv
    }

    #[inline]
    fn credit_type(&self) -> (credit_type: CreditType) {
        CreditType::Cast
    }

    #[inline]
    fn overview_len(&self) -> (len: Option<usize>) {
        match &self.overview {
            Some(overview) => Some(overview.as_str().len()),
            None => None,
        }
    }
}

/// Work behind the camera of a movie.
#[derive(Debug, Hash, Clone)]
pub struct MovieCrew {
    pub id: usize,
    pub title: String,
    pub original_title: String,
    pub department: String,
    pub job: String,
    pub genres: Vec<MovieGenre>,
    pub release_date: Option<Date>,
    pub overview: Option<String>,
    pub original_language: String,
    pub credit_id: String,
}

impl View for MovieCrew {
    type V = CreditView;

    open spec fn view(&self) -> CreditView {
        CreditView {
            id: self.id as nat,
            title: self.title@,
            original_title: self.original_title@,
            genres: genre_names(self.genres@),
            release_date: opt_days(self.release_date),
            original_language: self.original_language@,
            overview: opt_chars(self.overview),
            credit_id: self.credit_id@,
            media_type: MediaKind::Movie,
            role: RoleView::Crew { department: self.department@, job: self.job@ },
        }
    }
}

impl MovieCrew {
    /// The kind of media of every such credit.
    pub const MEDIA_TYPE: MediaType = MediaType::Movie;

    /// The kind of role of every such credit.
    pub const CREDIT_TYPE: CreditType = CreditType::Crew;
}

impl IsCredit for MovieCrew {
    open spec fn model(&self) -> CreditView {
        self@
    }

    #[inline]
    fn id(&self) -> (id: usize) {
        self.id
    }

    #[inline]
    fn title(&self) -> (title: &str) {
        self.title.as_str()
    }

    #[inline]
    fn original_title(&self) -> (title: &str) {
        self.original_title.as_str()
    }

    #[inline]
    fn genres(&self) -> (names: Vec<&'static str>) {
        names_of(&self.genres)
    }

    #[inline]
    fn release_date(&self) -> (date: Option<&Date>) {
        self.release_date.as_ref()
    }

    #[inline]
    fn original_language(&self) -> (language: &str) {
        self.original_language.as_str()
    }

    #[inline]
    fn overview(&self) -> (overview: Option<&String>) {
        self.overview.as_ref()
    }

    #[inline]
    fn credit_id(&self) -> (credit_id: &str) {
        self.credit_id.as_str()
    }

    #[inline]
    fn media_type(&self) -> (media_type: MediaType) {
        MediaType::Movie
    }

    #[inline]
    fn credit_type(&self) -> (credit_type: CreditType) {
        CreditType::Crew
    }

    #[inline]
    fn overview_len(&self) -> (len: Option<usize>) {
        match &self.overview {
            Some(overview) => Some(overview.as_str().len()),
            None => None,
        }
    }
}

/// Work behind the camera of a television show.
#[derive(Debug, Hash, Clone)]
pub struct TvCrew {
    pub id: usize,
    pub name: String,
    pub original_name: String,
    pub department: String,
    pub job: String,
    pub genres: Vec<TvGenre>,
    pub first_air_date: Option<Date>,
    pub overview: Option<String>,
    pub original_language: String,
    pub credit_id: String,
}

impl View for TvCrew {
    type V = CreditView;

    open spec fn view(&self) -> CreditView {
        CreditView {
            id: self.id as nat,
            title: self.name@,
            original_title: self.original_name@,
            genres: genre_names(self.genres@),
            release_date: opt_days(self.first_air_date),
            original_language: self.original_language@,
            overview: opt_chars(self.overview),
            credit_id: self.credit_id@,
            media_type: MediaKind::Tv,
            role: RoleView::Crew { department: self.department@, job: self.job@ },
        }
    }
}

impl TvCrew {
    /// The kind of media of every such credit.
    pub const MEDIA_TYPE: MediaType = MediaType::Tv;

    /// The kind of role of every such credit.
    pub const CREDIT_TYPE: CreditType = CreditType::Crew;
}

impl IsCredit for TvCrew {
    open spec fn model(&self) -> CreditView {
        self@
    }

    #[inline]
    fn id(&self) -> (id: usize) {
        self.id
    }

    #[inline]
    fn title(&self) -> (title: &str) {
        self.name.as_str()
    }

    #[inline]
    fn original_title(&self) -> (title: &str) {
        self.original_name.as_str()
    }

    #[inline]
    fn genres(&self) -> (names: Vec<&'static str>) {
        names_of(&self.genres)
    }

    #[inline]
    fn release_date(&self) -> (date: Option<&Date>) {
        self.first_air_date.as_ref()
    }

    #[inline]
    fn original_language(&self) -> (language: &str) {
        self.original_language.as_str()
    }

    #[inline]
    fn overview(&self) -> (overview: Option<&String>) {
        self.overview.as_ref()
    }

    #[inline]
    fn credit_id(&self) -> (credit_id: &str) {
        self.credit_id.as_str()
    }

    #[inline]
    fn media_type(&self) -> (media_type: MediaType) {
        MediaType::Tv
    }

    #[inline]
    fn credit_type(&self) -> (credit_type: CreditType) {
        CreditType::Crew
    }

    #[inline]
    fn overview_len(&self) -> (len: Option<usize>) {
        match &self.overview {
            Some(overview) => Some(overview.as_str().len()),
            None => None,
        }
    }
}

/// A credit for acting, in a movie or in a show.
#[derive(Debug, Hash, Clone)]
pub enum Cast {
    Movie(MovieCast),
    Tv(TvCast),
}

impl View for Cast {
    type V = CreditView;

    open spec fn view(&self) -> CreditView {
        match self {
            Cast::Movie(credit) => credit@,
            Cast::Tv(credit) => credit@,
        }
    }
}

impl IsCredit for Cast {
    open spec fn model(&self) -> CreditView {
        self@
    }

    #[inline]
    fn id(&self) -> (id: usize) {
        match self {
            Cast::Movie(credit) => credit.id(),
            Cast::Tv(credit) => credit.id(),
        }
    }

    #[inline]
    fn title(&self) -> (title: &str) {
        match self {
            Cast::Movie(credit) => credit.title(),
            Cast::Tv(credit) => credit.title(),
        }
    }

    #[inline]
    fn original_title(&self) -> (title: &str) {
        match self {
            Cast::Movie(credit) => credit.original_title(),
            Cast::Tv(credit) => credit.original_title(),
        }
    }

    #[inline]
    fn genres(&self) -> (names: Vec<&'static str>) {
        match self {
            Cast::Movie(credit) => credit.genres(),
            Cast::Tv(credit) => credit.genres(),
        }
    }

    #[inline]
    fn release_date(&self) -> (date: Option<&Date>) {
        match self {
            Cast::Movie(credit) => credit.release_date(),
            Cast::Tv(credit) => credit.release_date(),
        }
    }

    #[inline]
    fn original_language(&self) -> (language: &str) {
        match self {
            Cast::Movie(credit) => credit.original_language(),
            Cast::Tv(credit) => credit.original_language(),
        }
    }

    #[inline]
    fn overview(&self) -> (overview: Option<&String>) {
        match self {
            Cast::Movie(credit) => credit.overview(),
            Cast::Tv(credit) => credit.overview(),
        }
    }

    #[inline]
    fn credit_id(&self) -> (credit_id: &str) {
        match self {
            Cast::Movie(credit) => credit.credit_id(),
            Cast::Tv(credit) => credit.credit_id(),
        }
    }

    #[inline]
    fn media_type(&self) -> (media_type: MediaType) {
        match self {
            Cast::Movie(credit) => credit.media_type(),
            Cast::Tv(credit) => credit.media_type(),
        }
    }

    #[inline]
    fn credit_type(&self) -> (credit_type: CreditType) {
        match self {
            Cast::Movie(credit) => credit.credit_type(),
            Cast::Tv(credit) => credit.credit_type(),
        }
    }

    #[inline]
    fn overview_len(&self) -> (len: Option<usize>) {
        match self {
            Cast::Movie(credit) => credit.overview_len(),
            Cast::Tv(credit) => credit.overview_len(),
        }
    }
}

/// A credit for work behind the camera, on a movie or on a show.
#[derive(Debug, Hash, Clone)]
pub enum Crew {
    Movie(MovieCrew),
    Tv(TvCrew),
}

impl View for Crew {
    type V = CreditView;

    open spec fn view(&self) -> CreditView {
        match self {
            Crew::Movie(credit) => credit@,
            Crew::Tv(credit) => credit@,
        }
    }
}

impl IsCredit for Crew {
    open spec fn model(&self) -> CreditView {
        self@
    }

    #[inline]
    fn id(&self) -> (id: usize) {
        match self {
            Crew::Movie(credit) => credit.id(),
            Crew::Tv(credit) => credit.id(),
        }
    }

    #[inline]
    fn title(&self) -> (title: &str) {
        match self {
            Crew::Movie(credit) => credit.title(),
            Crew::Tv(credit) => credit.title(),
        }
    }

    #[inline]
    fn original_title(&self) -> (title: &str) {
        match self {
            Crew::Movie(credit) => credit.original_title(),
            Crew::Tv(credit) => credit.original_title(),
        }
    }

    #[inline]
    fn genres(&self) -> (names: Vec<&'static str>) {
        match self {
            Crew::Movie(credit) => credit.genres(),
            Crew::Tv(credit) => credit.genres(),
        }
    }

    #[inline]
    fn release_date(&self) -> (date: Option<&Date>) {
        match self {
            Crew::Movie(credit) => credit.release_date(),
            Crew::Tv(credit) => credit.release_date(),
        }
    }

    #[inline]
    fn original_language(&self) -> (language: &str) {
        match self {
            Crew::Movie(credit) => credit.original_language(),
            Crew::Tv(credit) => credit.original_language(),
        }
    }

    #[inline]
    fn overview(&self) -> (overview: Option<&String>) {
        match self {
            Crew::Movie(credit) => credit.overview(),
            Crew::Tv(credit) => credit.overview(),
        }
    }

    #[inline]
    fn credit_id(&self) -> (credit_id: &str) {
        match self {
            Crew::Movie(credit) => credit.credit_id(),
            Crew::Tv(credit) => credit.credit_id(),
        }
    }

    #[inline]
    fn media_type(&self) -> (media_type: MediaType) {
        match self {
            Crew::Movie(credit) => credit.media_type(),
            Crew::Tv(credit) => credit.media_type(),
        }
    }

    #[inline]
    fn credit_type(&self) -> (credit_type: CreditType) {
        match self {
            Crew::Movie(credit) => credit.credit_type(),
            Crew::Tv(credit) => credit.credit_type(),
        }
    }

    #[inline]
    fn overview_len(&self) -> (len: Option<usize>) {
        match self {
            Crew::Movie(credit) => credit.overview_len(),
            Crew::Tv(credit) => credit.overview_len(),
        }
    }
}

/// A person's single engagement on one piece of media.
#[derive(Debug, Hash, Clone)]
pub enum Credit {
    Cast(Cast),
    Crew(Crew),
}

impl View for Credit {
    type V = CreditView;

    open spec fn view(&self) -> CreditView {
        match self {
            Credit::Cast(credit) => credit@,
            Credit::Crew(credit) => credit@,
        }
    }
}

impl IsCredit for Credit {
    open spec fn model(&self) -> CreditView {
        self@
    }

    #[inline]
    fn id(&self) -> (id: usize) {
        match self {
            Credit::Cast(credit) => credit.id(),
            Credit::Crew(credit) => credit.id(),
        }
    }

    #[inline]
    fn title(&self) -> (title: &str) {
        match self {
            Credit::Cast(credit) => credit.title(),
            Credit::Crew(credit) => credit.title(),
        }
    }

    #[inline]
    fn original_title(&self) -> (title: &str) {
        match self {
            Credit::Cast(credit) => credit.original_title(),
            Credit::Crew(credit) => credit.original_title(),
        }
    }

    #[inline]
    fn genres(&self) -> (names: Vec<&'static str>) {
        match self {
            Credit::Cast(credit) => credit.genres(),
            Credit::Crew(credit) => credit.genres(),
        }
    }

    #[inline]
    fn release_date(&self) -> (date: Option<&Date>) {
        match self {
            Credit::Cast(credit) => credit.release_date(),
            Credit::Crew(credit) => credit.release_date(),
        }
    }

    #[inline]
    fn original_language(&self) -> (language: &str) {
        match self {
            Credit::Cast(credit) => credit.original_language(),
            Credit::Crew(credit) => credit.original_language(),
        }
    }

    #[inline]
    fn overview(&self) -> (overview: Option<&String>) {
        match self {
            Credit::Cast(credit) => credit.overview(),
            Credit::Crew(credit) => credit.overview(),
        }
    }

    #[inline]
    fn credit_id(&self) -> (credit_id: &str) {
        match self {
            Credit::Cast(credit) => credit.credit_id(),
            Credit::Crew(credit) => credit.credit_id(),
        }
    }

    #[inline]
    fn media_type(&self) -> (media_type: MediaType) {
        match self {
            Credit::Cast(credit) => credit.media_type(),
            Credit::Crew(credit) => credit.media_type(),
        }
    }

    #[inline]
    fn credit_type(&self) -> (credit_type: CreditType) {
        match self {
            Credit::Cast(credit) => credit.credit_type(),
            Credit::Crew(credit) => credit.credit_type(),
        }
    }

    #[inline]
    fn overview_len(&self) -> (len: Option<usize>) {
        match self {
            Credit::Cast(credit) => credit.overview_len(),
            Credit::Crew(credit) => credit.overview_len(),
        }
    }
}

impl Cast {
    /// The character played, where the source names one.
    pub fn character(&self) -> (character: Option<&String>)
        ensures
            self@.role == (RoleView::Cast { character: opt_chars_ref(character) }),
    {
        match self {
            Cast::Movie(credit) => credit.character.as_ref(),
            Cast::Tv(credit) => credit.character.as_ref(),
        }
    }
}

impl Crew {
    /// The department in which the person worked.
    pub fn department(&self) -> (department: &str)
        ensures
            self@.role matches RoleView::Crew { department: d, .. } && d == department@,
    {
        match self {
            Crew::Movie(credit) => credit.department.as_str(),
            Crew::Tv(credit) => credit.department.as_str(),
        }
    }

    /// The job that the person did.
    pub fn job(&self) -> (job: &str)
        ensures
            self@.role matches RoleView::Crew { job: j, .. } && j == job@,
    {
        match self {
            Crew::Movie(credit) => credit.job.as_str(),
            Crew::Tv(credit) => credit.job.as_str(),
        }
    }
}

impl From<Cast> for Credit {
    fn from(cast: Cast) -> (credit: Credit) {
        Credit::Cast(cast)
    }
}

impl FromSpecImpl<Cast> for Credit {
    open spec fn obeys_from_spec() -> bool {
        true
    }

    open spec fn from_spec(cast: Cast) -> Credit {
        Credit::Cast(cast)
    }
}

impl From<Crew> for Credit {
    fn from(crew: Crew) -> (credit: Credit) {
        Credit::Crew(crew)
    }
}

impl FromSpecImpl<Crew> for Credit {
    open spec fn obeys_from_spec() -> bool {
        true
    }

    open spec fn from_spec(crew: Crew) -> Credit {
        Credit::Crew(crew)
    }
}

} // verus!
