use bot_lookups::calendar::CalendarDate;
use bot_lookups::tmdb::Collection;
use bot_lookups::tmdb::CreatedBy;
use bot_lookups::tmdb::ExternalId;
use bot_lookups::tmdb::Genre;
use bot_lookups::tmdb::Language;
use bot_lookups::tmdb::NetworkOrStudio;
use bot_lookups::tmdb::ProductionCompany;
use bot_lookups::tmdb::ProductionCountry;
use bot_lookups::tmdb::Season;

#[test]
fn collection_holds_its_fields() {
    let collection = Collection {
        id: 10,
        name: "Star Wars Collection".to_string(),
        poster_path: "/poster.jpg".to_string(),
        backdrop_path: "/backdrop.jpg".to_string(),
    };
    assert_eq!(collection.id, 10);
    assert_eq!(collection.name, "Star Wars Collection");
    assert_eq!(collection.poster_path, "/poster.jpg");
    assert_eq!(collection.backdrop_path, "/backdrop.jpg");
    assert_eq!(collection.clone(), collection);
}

#[test]
fn genre_holds_its_fields() {
    let genre = Genre { id: 18, name: "Drama".to_string() };
    assert_eq!(genre.id, 18);
    assert_eq!(genre.name, "Drama");
    assert_ne!(genre, Genre { id: 18, name: "Comedy".to_string() });
}

#[test]
fn production_company_and_country_hold_their_fields() {
    let company = ProductionCompany {
        name: "Lucasfilm".to_string(),
        id: 1,
        origin_country: "US".to_string(),
    };
    assert_eq!(company.name, "Lucasfilm");
    assert_eq!(company.id, 1);
    assert_eq!(company.origin_country, "US");
    let country = ProductionCountry {
        iso_3166_1: "US".to_string(),
        name: "United States of America".to_string(),
    };
    assert_eq!(country.iso_3166_1, "US");
    assert_eq!(country.name, "United States of America");
}

#[test]
fn creator_may_lack_gender_and_picture() {
    let creator = CreatedBy {
        id: 66633,
        credit_id: "52542286760ee31328001a7b".to_string(),
        name: "Vince Gilligan".to_string(),
        gender: None,
        profile_path: None,
    };
    assert_eq!(creator.id, 66633);
    assert_eq!(creator.gender, None);
    assert_eq!(creator.profile_path, None);
    let known = CreatedBy { gender: Some(2), profile_path: Some("/p.jpg".to_string()), ..creator };
    assert_eq!(known.gender, Some(2));
    assert_eq!(known.profile_path.as_deref(), Some("/p.jpg"));
    assert_eq!(known.name, "Vince Gilligan");
}

#[test]
fn network_may_lack_logo_and_country() {
    let network = NetworkOrStudio {
        name: "AMC".to_string(),
        id: 174,
        logo_path: None,
        origin_country: Some("US".to_string()),
    };
    assert_eq!(network.name, "AMC");
    assert_eq!(network.id, 174);
    assert_eq!(network.logo_path, None);
    assert_eq!(network.origin_country.as_deref(), Some("US"));
}

#[test]
fn season_may_lack_its_air_date() {
    let season = Season {
        air_date: CalendarDate::new(2008, 1, 20),
        episode_count: 7,
        id: 3572,
        name: "Season 1".to_string(),
        overview: None,
        poster_path: Some("/1.jpg".to_string()),
        season_number: 1,
    };
    let date = season.air_date.unwrap();
    assert_eq!((date.year(), date.month(), date.day()), (2008, 1, 20));
    assert_eq!(season.episode_count, 7);
    assert_eq!(season.season_number, 1);
    let unaired = Season { air_date: None, ..season };
    assert_eq!(unaired.air_date, None);
    assert_eq!(unaired.name, "Season 1");
}

#[test]
fn language_holds_its_fields() {
    let language = Language {
        english_name: "German".to_string(),
        iso_639_1: "de".to_string(),
        name: "Deutsch".to_string(),
    };
    assert_eq!(language.english_name, "German");
    assert_eq!(language.iso_639_1, "de");
    assert_eq!(language.name, "Deutsch");
}

#[test]
fn external_ids_may_all_be_absent() {
    let none = ExternalId {
        imdb_id: None,
        freebase_mid: None,
        freebase_id: None,
        tvdb_id: None,
        tvrage_id: None,
        facebook_id: None,
        instagram_id: None,
        twitter_id: None,
        id: None,
    };
    assert_eq!(none.imdb_id, None);
    assert_eq!(none.id, None);
    let some = ExternalId {
        imdb_id: Some("tt0903747".to_string()),
        tvdb_id: Some(81189),
        id: Some(1396),
        ..none.clone()
    };
    assert_eq!(some.imdb_id.as_deref(), Some("tt0903747"));
    assert_eq!(some.tvdb_id, Some(81189));
    assert_eq!(some.id, Some(1396));
    assert_ne!(some, none);
}
