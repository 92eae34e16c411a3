//! Lookup request building and the platform label table.

use songwhip_bot::songlink::{build_songlink_request, map_platform_to_formatted_display_name};
use songwhip_bot::songwhip::build_songwhip_request;

#[test]
fn test_songlink_url() {
    let output =
        build_songlink_request("https://music.apple.com/us/song/what-we-worked-for/44733632");

    assert_eq!(output, "https://api.song.link/v1-alpha.1/links?url=https%3A%2F%2Fmusic.apple.com%2Fus%2Fsong%2Fwhat-we-worked-for%2F44733632")
}

#[test]
fn songlink_url_encodes_space_and_unicode() {
    assert_eq!(
        build_songlink_request("a b*c-d.e_f"),
        "https://api.song.link/v1-alpha.1/links?url=a+b*c-d.e_f"
    );
    // U+00E9 is 0xC3 0xA9 in UTF-8: each byte is percent-escaped.
    assert_eq!(
        build_songlink_request("caf\u{e9}"),
        "https://api.song.link/v1-alpha.1/links?url=caf%C3%A9"
    );
}

#[test]
fn songwhip_body_is_the_one_field_object() {
    assert_eq!(
        build_songwhip_request("https://open.spotify.com/track/1"),
        "{\"url\":\"https://open.spotify.com/track/1\"}"
    );
}

#[test]
fn songwhip_body_escapes_json_metacharacters() {
    assert_eq!(build_songwhip_request("a\"b\\c"), "{\"url\":\"a\\\"b\\\\c\"}");
    assert_eq!(build_songwhip_request("a\nb\tc"), "{\"url\":\"a\\nb\\tc\"}");
    assert_eq!(build_songwhip_request("a\u{1}b"), "{\"url\":\"a\\u0001b\"}");
}

#[test]
fn platform_labels_cover_exactly_the_approved_five() {
    assert_eq!(
        map_platform_to_formatted_display_name("appleMusic"),
        Some(":apple-inc: _*Apple Music*_")
    );
    assert_eq!(map_platform_to_formatted_display_name("spotify"), Some(":spotify: _*Spotify*_"));
    assert_eq!(map_platform_to_formatted_display_name("deezer"), Some(":deezer: _*Deezer*_"));
    assert_eq!(map_platform_to_formatted_display_name("youtube"), Some(":youtube: _*Youtube*_"));
    assert_eq!(
        map_platform_to_formatted_display_name("youtubeMusic"),
        Some(":youtube-music: _*YT Music*_")
    );
    assert_eq!(map_platform_to_formatted_display_name("boomplay"), None);
    assert_eq!(map_platform_to_formatted_display_name("tidal"), None);
    assert_eq!(map_platform_to_formatted_display_name(""), None);
}
