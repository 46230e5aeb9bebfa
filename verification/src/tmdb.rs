//! The shapes of the records that The Movie Database returns for movies and
//! shows. A field that the service may leave out is an `Option`.

use crate::calendar::CalendarDate;
use vstd::prelude::*;

verus! {

/// The collection that a movie belongs to.
#[derive(Clone, Debug, PartialEq, Eq)]
pub struct Collection {
    /// The collection's identifier.
    pub id: u64,
    /// The collection's name.
    pub name: String,
    /// The path of the collection's poster.
    pub poster_path: String,
    /// The path of the collection's backdrop.
    pub backdrop_path: String,
}

/// A genre.
#[derive(Clone, Debug, PartialEq, Eq)]
pub struct Genre {
    /// The genre's identifier.
    pub id: u64,
    /// The genre's name.
    pub name: String,
}

/// A company that produced a movie.
#[derive(Clone, Debug, PartialEq, Eq)]
pub struct ProductionCompany {
    /// The company's name.
    pub name: String,
    /// The company's identifier.
    pub id: u64,
    /// The country the company comes from.
    pub origin_country: String,
}

/// A country in which a movie was produced.
#[derive(Clone, Debug, PartialEq, Eq)]
pub struct ProductionCountry {
    /// The country's ISO 3166-1 code.
    pub iso_3166_1: String,
    /// The country's name.
    pub name: String,
}

/// A creator of a show.
#[derive(Clone, Debug, PartialEq, Eq)]
pub struct CreatedBy {
    /// The creator's identifier.
    pub id: i64,
    /// The identifier of the credit.
    pub credit_id: String,
    /// The creator's name.
    pub name: String,
    /// The creator's gender, as the service numbers it.
    pub gender: Option<i64>,
    /// The path of the creator's picture.
    pub profile_path: Option<String>,
}

/// A network that airs a show, or a studio that produces it.
#[derive(Clone, Debug, PartialEq, Eq)]
pub struct NetworkOrStudio {
    /// The name.
    pub name: String,
    /// The identifier.
    pub id: i64,
    /// The path of the logo.
    pub logo_path: Option<String>,
    /// The country it comes from.
    pub origin_country: Option<String>,
}

/// A season of a show.
#[derive(Clone, Debug, PartialEq, Eq)]
pub struct Season {
    /// The day the season first aired.
    pub air_date: Option<CalendarDate>,
    /// How many episodes the season has.
    pub episode_count: i64,
    /// The season's identifier.
    pub id: i64,
    /// The season's name, most often "Season" and its number.
    pub name: String,
    /// What the season is about.
    pub overview: Option<String>,
    /// The path of the season's poster.
    pub poster_path: Option<String>,
    /// The season's number.
    pub season_number: i64,
}

/// A language spoken in a show.
#[derive(Clone, Debug, PartialEq, Eq)]
pub struct Language {
    /// The language's name in English.
    pub english_name: String,
    /// The language's ISO 639-1 code.
    pub iso_639_1: String,
    /// The language's name in the language itself.
    pub name: String,
}

/// The identifiers that other services have for a show.
#[derive(Clone, Debug, PartialEq, Eq)]
pub struct ExternalId {
    pub imdb_id: Option<String>,
    pub freebase_mid: Option<String>,
    pub freebase_id: Option<String>,
    pub tvdb_id: Option<i64>,
    pub tvrage_id: Option<i64>,
    pub facebook_id: Option<String>,
    pub instagram_id: Option<String>,
    pub twitter_id: Option<String>,
    /// The show's identifier at The Movie Database.
    pub id: Option<i64>,
}

} // verus!
