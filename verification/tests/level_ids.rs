use senddb_cache::check::parse_level_id;
use senddb_cache::config::{cache_control, Config};
use senddb_cache::text::parse_unsigned_text;
use senddb_cache::upstream::upstream_url;

#[test]
fn plain_number_is_a_level() {
    assert_eq!(parse_level_id("42"), Some(42));
}

#[test]
fn white_space_around_the_number_is_trimmed() {
    assert_eq!(parse_level_id(" 42\n"), Some(42));
    assert_eq!(parse_level_id("\t\r 7 \u{000B}"), Some(7));
    assert_eq!(parse_level_id("\u{3000}12\u{a0}"), Some(12));
    assert_eq!(parse_level_id("\u{2003}99\u{205F}"), Some(99));
}

#[test]
fn plus_sign_and_leading_zeros_are_accepted() {
    assert_eq!(parse_level_id("+7"), Some(7));
    assert_eq!(parse_level_id("007"), Some(7));
}

#[test]
fn zero_and_negative_numbers_are_refused() {
    assert_eq!(parse_level_id("0"), None);
    assert_eq!(parse_level_id("-0"), None);
    assert_eq!(parse_level_id("-5"), None);
    assert_eq!(parse_level_id("+0"), None);
}

#[test]
fn text_that_is_no_number_is_refused() {
    assert_eq!(parse_level_id(""), None);
    assert_eq!(parse_level_id("   "), None);
    assert_eq!(parse_level_id("abc"), None);
    assert_eq!(parse_level_id("4a"), None);
    assert_eq!(parse_level_id("1 2"), None);
    assert_eq!(parse_level_id("+"), None);
    assert_eq!(parse_level_id("-"), None);
    assert_eq!(parse_level_id("++1"), None);
    assert_eq!(parse_level_id("1.5"), None);
    assert_eq!(parse_level_id("\u{200B}5"), None);
}

#[test]
fn the_largest_i32_is_the_largest_level() {
    assert_eq!(parse_level_id("2147483647"), Some(2147483647));
    assert_eq!(parse_level_id("2147483648"), None);
    assert_eq!(parse_level_id("99999999999999999999"), None);
}

#[test]
fn level_numbers_read_back_what_the_upstream_address_writes() {
    for n in [1u32, 9, 10, 128, 65535, 1_000_000, 2147483647] {
        let text = upstream_url("", n);
        assert_eq!(text, n.to_string());
        assert_eq!(parse_level_id(&text), Some(n));
    }
}

#[test]
fn settings_parse_as_unsigned_integers() {
    assert_eq!(parse_unsigned_text("8080", 65535), Some(8080));
    assert_eq!(parse_unsigned_text("65535", 65535), Some(65535));
    assert_eq!(parse_unsigned_text("65536", 65535), None);
    assert_eq!(parse_unsigned_text("+5", 65535), Some(5));
    assert_eq!(parse_unsigned_text("-5", 65535), None);
    assert_eq!(parse_unsigned_text("", 65535), None);
    assert_eq!(parse_unsigned_text(" 5", 65535), None);
    assert_eq!(parse_unsigned_text("4294967295", 4294967295), Some(4294967295));
    assert_eq!(parse_unsigned_text("4294967296", 4294967295), None);
}

#[test]
fn unset_settings_take_their_defaults() {
    let config = Config::from_env(None, None, None, None, None);
    assert_eq!(config.port, 8273);
    assert_eq!(config.not_sent_expiration, 5);
    assert_eq!(config.sent_cache, 60);
    assert_eq!(config.not_sent_cache, 5);
    assert_eq!(config.endpoint_url, "https://api.senddb.dev/api/v1/level/");
}

#[test]
fn set_settings_are_read() {
    let config = Config::from_env(
        Some("9000".to_string()),
        Some("10".to_string()),
        Some("120".to_string()),
        Some("1".to_string()),
        Some("http://localhost/levels/".to_string()),
    );
    assert_eq!(config.port, 9000);
    assert_eq!(config.not_sent_expiration, 10);
    assert_eq!(config.sent_cache, 120);
    assert_eq!(config.not_sent_cache, 1);
    assert_eq!(config.endpoint_url, "http://localhost/levels/");
}

#[test]
fn unreadable_settings_take_their_defaults() {
    let config = Config::from_env(
        Some("70000".to_string()),
        Some("five".to_string()),
        Some("-1".to_string()),
        Some(" 3".to_string()),
        None,
    );
    assert_eq!(config.port, 8273);
    assert_eq!(config.not_sent_expiration, 5);
    assert_eq!(config.sent_cache, 60);
    assert_eq!(config.not_sent_cache, 5);
}

#[test]
fn cache_control_counts_seconds() {
    assert_eq!(cache_control(60), "public, max-age=3600");
    assert_eq!(cache_control(5), "public, max-age=300");
    assert_eq!(cache_control(0), "public, max-age=0");
}

#[test]
fn upstream_url_appends_the_level() {
    assert_eq!(
        upstream_url("https://api.senddb.dev/api/v1/level/", 128),
        "https://api.senddb.dev/api/v1/level/128"
    );
    assert_eq!(upstream_url("", 7), "7");
}
