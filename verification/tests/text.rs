use movie_feed::ident::sanitise_ident;
use movie_feed::media_type::MediaType;
use movie_feed::sanitise::sanitise_text;
use movie_feed::text::{push_decimal, push_signed_decimal, str_eq};

fn decimal(n: u64) -> String {
    let mut out = String::new();
    push_decimal(&mut out, n);
    out
}

fn signed(n: i64) -> String {
    let mut out = String::new();
    push_signed_decimal(&mut out, n);
    out
}

#[test]
fn decimal_digits() {
    assert_eq!(decimal(0), "0");
    assert_eq!(decimal(7), "7");
    assert_eq!(decimal(10), "10");
    assert_eq!(decimal(216_000), "216000");
    assert_eq!(decimal(1_234_567_890), "1234567890");
    assert_eq!(decimal(u64::MAX), "18446744073709551615");
    let mut out = "id: ".to_string();
    push_decimal(&mut out, 42);
    assert_eq!(out, "id: 42");
}

#[test]
fn signed_decimal_digits() {
    assert_eq!(signed(0), "0");
    assert_eq!(signed(-1), "-1");
    assert_eq!(signed(19498), "19498");
    assert_eq!(signed(i64::MAX), "9223372036854775807");
    assert_eq!(signed(i64::MIN), "-9223372036854775808");
}

#[test]
fn texts_compared() {
    assert!(str_eq("", ""));
    assert!(str_eq("movie", "movie"));
    assert!(!str_eq("movie", "movi"));
    assert!(!str_eq("movie", "Movie"));
    assert!(!str_eq("tv", "td"));
    assert!(str_eq("乔·本恩瑟", "乔·本恩瑟"));
    assert!(!str_eq("乔·本恩瑟", "乔·本恩琵"));
}

#[test]
fn newlines_become_line_breaks() {
    assert_eq!(sanitise_text("one\ntwo"), "one<br>two");
    assert_eq!(sanitise_text("\n\n"), "<br><br>");
    assert_eq!(sanitise_text("plain"), "plain");
    assert_eq!(sanitise_text(""), "");
}

#[test]
fn only_paragraphs_and_line_breaks_get_through() {
    assert_eq!(sanitise_text("<p>kept</p>"), "<p>kept</p>");
    assert_eq!(sanitise_text("a<br>b"), "a<br>b");
    assert_eq!(sanitise_text("<b>bold</b> text"), "bold text");
    assert_eq!(sanitise_text("<script>alert(1)</script>safe"), "safe");
    assert_eq!(sanitise_text("<style>p { color: red }</style>safe"), "safe");
    assert_eq!(
        sanitise_text("<a href=\"https://example.com\">link</a>"),
        "link"
    );
    assert_eq!(sanitise_text("<p onclick=\"x()\">kept</p>"), "<p>kept</p>");
    assert_eq!(sanitise_text("Tom & Jerry"), "Tom &amp; Jerry");
    assert_eq!(sanitise_text("1 < 2"), "1 &lt; 2");
    assert_eq!(sanitise_text("<p>unclosed"), "<p>unclosed</p>");
}

fn has_white_space_property(c: char) -> bool {
    matches!(
        c as u32,
        0x0009..=0x000D
            | 0x0020
            | 0x0085
            | 0x00A0
            | 0x1680
            | 0x2000..=0x200A
            | 0x2028
            | 0x2029
            | 0x202F
            | 0x205F
            | 0x3000
    )
}

#[test]
fn whitespace_is_the_listed_characters() {
    let mut listed = 0;
    for code in 0..=0x10FFFFu32 {
        if let Some(c) = char::from_u32(code) {
            assert_eq!(c.is_whitespace(), has_white_space_property(c));
            if c.is_whitespace() {
                listed += 1;
            }
        }
    }
    assert_eq!(listed, 25);
}

#[test]
fn every_whitespace_character_is_trimmed_and_parts_words() {
    for code in 0..=0x10FFFFu32 {
        let Some(c) = char::from_u32(code) else {
            panic!("whitespace lies below the surrogates or above them: {code}")
        };
        if code == 0xD7FF {
            break;
        }
        let padded = format!("{c}{c}movie{c}");
        let parted = format!("film{c}noir");
        if has_white_space_property(c) {
            assert_eq!(MediaType::parse(&padded), MediaType::Movie);
            assert_eq!(sanitise_ident(parted), "FilmNoir");
        } else if code > 0x7F {
            assert_eq!(MediaType::parse(&padded), MediaType::Unknown(padded.clone()));
        }
    }
    assert_eq!(
        MediaType::parse(" \t\n tv\u{3000}\u{2028}"),
        MediaType::Tv
    );
    assert_eq!(
        MediaType::parse(" a b "),
        MediaType::Unknown("a b".to_string())
    );
    assert_eq!(MediaType::parse(" \u{85} "), MediaType::Unknown(String::new()));
}
