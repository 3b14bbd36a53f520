use radio_widget::models::{station_subtitle, Station};
use radio_widget::text::{ellipsize_chars, join_strings, trim_str, u32_to_string};

#[test]
fn trims_unicode_whitespace() {
    assert_eq!(trim_str("  hello  "), "hello");
    assert_eq!(trim_str("\t\n x y \u{a0}"), "x y");
    assert_eq!(trim_str("   "), "");
    assert_eq!(trim_str(""), "");
    assert_eq!(trim_str("inner  space"), "inner  space");
}

#[test]
fn formats_decimals() {
    assert_eq!(u32_to_string(0), "0");
    assert_eq!(u32_to_string(7), "7");
    assert_eq!(u32_to_string(128), "128");
    assert_eq!(u32_to_string(4294967295), "4294967295");
}

#[test]
fn joins_with_separators() {
    let parts: Vec<String> = vec![];
    assert_eq!(join_strings(&parts, ", "), "");
    let parts = vec!["a".to_owned()];
    assert_eq!(join_strings(&parts, ", "), "a");
    let parts = vec!["a".to_owned(), "b".to_owned(), "c".to_owned()];
    assert_eq!(join_strings(&parts, ", "), "a, b, c");
}

#[test]
fn ellipsizes_long_labels() {
    assert_eq!(ellipsize_chars("short", 30), "short");
    assert_eq!(ellipsize_chars("exact", 5), "exact");
    assert_eq!(ellipsize_chars("overflowing", 5), "overf\u{2026}");
    assert_eq!(ellipsize_chars("", 5), "");
}

#[test]
fn subtitles_join_available_parts() {
    let mut s = Station {
        stationuuid: "u1".to_owned(),
        name: "Test FM".to_owned(),
        country: Some("US".to_owned()),
        codec: Some("MP3".to_owned()),
        bitrate: Some(128),
        votes: Some(42),
    };
    assert_eq!(station_subtitle(&s), "US \u{b7} MP3 \u{b7} 128 kbps");
    s.codec = Some("  ".to_owned());
    assert_eq!(station_subtitle(&s), "US \u{b7} 128 kbps");
    s.country = None;
    s.bitrate = None;
    assert_eq!(station_subtitle(&s), "");
}
