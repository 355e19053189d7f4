//! Turns a person's film and television credits into a feed.
//!
//! The credits of a person come in two lists, cast and crew. [`feed`] makes
//! one feed of them in five steps, each a function of [`pipeline`]: the
//! lists are merged, the credits that the requested [`release_status`]
//! refuses are dropped, the rest is put in the requested [`sort_order`],
//! cut to the requested [`size`], and each credit that is left becomes a
//! [`feed_item`] with an identifier from [`guid`].
//!
//! Every function states what it returns, and Verus proves that it does.
//! Of the few that read the clock, only what holds of every day is stated.
//! What the library takes from other crates stands behind small wrappers
//! whose contracts are believed, not proved: the calendar of chrono in
//! [`date`], the durations of humantime in [`time_delta`], the HTML cleaner
//! ammonia in [`sanitise`], the URLs of url in [`site`], the merging
//! adaptor of itertools in [`pipeline`], the grapheme clusters of
//! unicode-segmentation in [`ident`], the status lines of http in
//! [`tmdb_error`], and a few string functions of std in [`text`] and
//! [`ident`].

pub mod api_version;
pub mod credit;
pub mod date;
pub mod endpoints;
pub mod feed;
pub mod feed_item;
pub mod gender;
pub mod genre_id;
pub mod genres;
pub mod guid;
pub mod ident;
pub mod media_type;
pub mod person_details;
pub mod pipeline;
pub mod query_args;
pub mod release_status;
pub mod sanitise;
pub mod serde_utils;
pub mod site;
pub mod size;
pub mod sort_order;
pub mod text;
pub mod time_delta;
pub mod tmdb_error;
