use tiko::parser::VideoInfo;
use tiko::parser::parse_tiktok_url;
use tiko::types::ParseError;

#[test]
fn can_parse() {
    let url = "https://www.tiktok.com/@user012147011/video/7571521498322652434";
    let expected = VideoInfo {
        username: String::from("user012147011"),
        video_id: String::from("7571521498322652434"),
        item_type: String::from("video"),
    };

    assert_eq!(expected, parse_tiktok_url(url).unwrap())
}

#[test]
fn fails_on_invalid_url() {
    let url = "https://example.com/not/a/tiktok/url";

    assert!(parse_tiktok_url(url).is_err());
}

#[test]
fn parses_photo_links() {
    let url = "https://www.tiktok.com/@someone/photo/12345";
    let info = parse_tiktok_url(url).unwrap();
    assert_eq!(info.username, "someone");
    assert_eq!(info.item_type, "photo");
    assert_eq!(info.video_id, "12345");
}

#[test]
fn keeps_unrecognized_kind_tokens() {
    let url = "https://www.tiktok.com/@someone/story/777";
    let info = parse_tiktok_url(url).unwrap();
    assert_eq!(info.item_type, "story");
}

#[test]
fn round_trips_assembled_links() {
    let handle = "a_handle.x";
    let kind = "video";
    let id = "90210";
    let url = format!("https://site/@{}/{}/{}", handle, kind, id);
    let info = parse_tiktok_url(&url).unwrap();
    assert_eq!(info.username, handle);
    assert_eq!(info.item_type, kind);
    assert_eq!(info.video_id, id);
}

#[test]
fn takes_the_leftmost_occurrence() {
    let url = "https://site/@first/video/1/@second/video/2";
    let info = parse_tiktok_url(url).unwrap();
    assert_eq!(info.username, "first");
    assert_eq!(info.video_id, "1");
}

#[test]
fn skips_an_at_sign_that_opens_no_match() {
    let url = "https://user@host.example/@handle/video/42";
    let info = parse_tiktok_url(url).unwrap();
    assert_eq!(info.username, "handle");
    assert_eq!(info.video_id, "42");
}

#[test]
fn id_stops_at_the_first_non_digit() {
    let url = "https://www.tiktok.com/@someone/video/123abc";
    let info = parse_tiktok_url(url).unwrap();
    assert_eq!(info.video_id, "123");
}

#[test]
fn rejects_missing_pieces() {
    assert_eq!(
        parse_tiktok_url("https://www.tiktok.com/@/video/123"),
        Err(ParseError::MalformedUrl)
    );
    assert_eq!(
        parse_tiktok_url("https://www.tiktok.com/@user//123"),
        Err(ParseError::MalformedUrl)
    );
    assert_eq!(
        parse_tiktok_url("https://www.tiktok.com/@user/video/"),
        Err(ParseError::MalformedUrl)
    );
    assert_eq!(
        parse_tiktok_url("https://www.tiktok.com/@user/VIDEO/123"),
        Err(ParseError::MalformedUrl)
    );
    assert_eq!(parse_tiktok_url(""), Err(ParseError::MalformedUrl));
}
