use movie_feed::credit::{CreditType, MovieCast, MovieCrew, TvCast, TvCrew};
use movie_feed::media_type::MediaType;
use std::str::FromStr;

#[test]
fn test_infallible() {
    assert!(MediaType::from_str("Lorem ipsum dolor sit amet, consectetur adipiscing").is_ok());
}

#[test]
fn test_movie() {
    assert_eq!(MediaType::from_str("movie").unwrap(), MediaType::Movie);
}

#[test]
fn test_tv() {
    assert_eq!(MediaType::from_str("tv").unwrap(), MediaType::Tv);
}

#[test]
fn test_to_lowercase() {
    assert_eq!(MediaType::from_str("TV").unwrap(), MediaType::Tv);
}

#[test]
fn test_trimmed_whitespace() {
    assert_eq!(
        MediaType::from_str("    movie   ").unwrap(),
        MediaType::Movie
    );
}

#[test]
fn test_unknown() {
    assert_eq!(
        MediaType::from_str("radio").unwrap(),
        MediaType::Unknown("radio".to_string())
    );
}

#[test]
fn test_tmdb_url_prefix() {
    assert_eq!(MediaType::Tv.tmdb_url_prefix(), Some("tv"));
    assert_eq!(MediaType::Movie.tmdb_url_prefix(), Some("movie"));
    assert_eq!(
        MediaType::Unknown("UNKNOWN".to_string()).tmdb_url_prefix(),
        None
    );
}

#[test]
fn test_movie_cast_media_type() {
    assert_eq!(MovieCast::MEDIA_TYPE, MediaType::Movie);
}

#[test]
fn test_tv_cast_media_type() {
    assert_eq!(TvCast::MEDIA_TYPE, MediaType::Tv);
}

#[test]
fn test_credit_type() {
    assert_eq!(MovieCast::CREDIT_TYPE, CreditType::Cast);
    assert_eq!(TvCast::CREDIT_TYPE, CreditType::Cast);
}

#[test]
fn test_movie_crew_media_type() {
    assert_eq!(MovieCrew::MEDIA_TYPE, MediaType::Movie);
}

#[test]
fn test_tv_crew_media_type() {
    assert_eq!(TvCrew::MEDIA_TYPE, MediaType::Tv);
}

#[test]
fn crew_credit_type() {
    assert_eq!(MovieCrew::CREDIT_TYPE, CreditType::Crew);
    assert_eq!(TvCrew::CREDIT_TYPE, CreditType::Crew);
}

#[test]
fn media_type_parse_keeps_the_trimmed_name_of_an_unknown_kind() {
    assert_eq!(
        MediaType::parse("  Radio Play \n"),
        MediaType::Unknown("Radio Play".to_string())
    );
    assert_eq!(MediaType::parse(""), MediaType::Unknown(String::new()));
    assert_eq!(MediaType::parse("\tMoViE\r\n"), MediaType::Movie);
}

#[test]
fn media_type_labels() {
    assert_eq!(MediaType::Movie.to_string(), "Movie");
    assert_eq!(MediaType::Tv.to_string(), "TV");
    assert_eq!(
        MediaType::Unknown("radio".to_string()).to_string(),
        "Unknown(radio)"
    );
}
