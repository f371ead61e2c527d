use antihook::config::{
    config_dir_for_home, config_file_path_for_home, get_config_path, parse_config, render_config,
    save_config_document,
};
use antihook::errors::ConfigError;

#[test]
fn render_exact_document() {
    assert_eq!(
        render_config("https://example.com"),
        "{\n  \"server_url\": \"https://example.com\"\n}\n"
    );
}

#[test]
fn render_escapes_quotes_and_backslashes() {
    assert_eq!(
        render_config("http://h/a\"b\\c"),
        "{\n  \"server_url\": \"http://h/a\\\"b\\\\c\"\n}\n"
    );
}

#[test]
fn render_escapes_controls() {
    assert_eq!(
        render_config("a\tb\u{1}c"),
        "{\n  \"server_url\": \"a\\tb\\u0001c\"\n}\n"
    );
}

#[test]
fn round_trip_through_document() {
    for url in [
        "https://example.com",
        "http://h/a\"b\\c",
        "a\u{1}b\u{1f}c\nd\re\tf\u{8}g\u{c}h",
        "",
        "unicode \u{3000} path/\u{263a}",
    ] {
        let doc = render_config(url);
        let cfg = parse_config(&doc).unwrap();
        assert_eq!(cfg.server_url, url);
    }
}

#[test]
fn parse_accepts_compact_and_spaced_documents() {
    assert_eq!(
        parse_config("{\"server_url\":\"http://a\"}").unwrap().server_url,
        "http://a"
    );
    assert_eq!(
        parse_config(" \t\r\n{ \"server_url\" : \"http://a\" }\n").unwrap().server_url,
        "http://a"
    );
}

#[test]
fn parse_decodes_escapes() {
    let cfg = parse_config("{\"server_url\":\"a\\n\\\"\\\\\\/\\b\\f\\r\\t\\u0001z\"}").unwrap();
    assert_eq!(cfg.server_url, "a\n\"\\/\u{8}\u{c}\r\t\u{1}z");
}

#[test]
fn parse_rejects_malformed_documents() {
    for doc in [
        "",
        "not json",
        "{}",
        "{\"server_url\": 5}",
        "{\"server_url\": \"x\", \"other\": \"y\"}",
        "{\"server_url\": \"x\"} trailing",
        "{\"server_url\": \"unterminated",
        "{\"server_url\": \"bad \\q escape\"}",
        "[\"server_url\"]",
    ] {
        match parse_config(doc) {
            Err(ConfigError::Json(d)) => assert_eq!(d, "invalid config document"),
            _ => panic!("expected Json error for {doc:?}"),
        }
    }
}

#[test]
fn paths_for_home() {
    assert_eq!(config_dir_for_home("/home/u"), "/home/u/.config/antihook");
    assert_eq!(
        config_file_path_for_home("/home/u"),
        "/home/u/.config/antihook/config.json"
    );
}

#[test]
fn config_path_points_into_home() {
    let p = get_config_path().unwrap();
    assert!(p.ends_with("/.config/antihook/config.json"));
}

#[test]
fn save_with_invalid_url_prepares_nothing() {
    match save_config_document("nope") {
        Err(ConfigError::InvalidUrl(d)) => assert_eq!(d, "relative URL without a base"),
        _ => panic!("expected InvalidUrl"),
    }
    match save_config_document("") {
        Err(ConfigError::InvalidUrl(d)) => assert_eq!(d, "empty url"),
        _ => panic!("expected InvalidUrl"),
    }
}

#[test]
fn save_prepares_atomic_plan() {
    let doc = save_config_document(" https://example.com/ ").unwrap();
    assert_eq!(doc.normalized, "https://example.com");
    assert_eq!(doc.contents, render_config("https://example.com"));
    assert!(doc.target_path.ends_with("/.config/antihook/config.json"));
    assert_eq!(doc.tmp_path, format!("{}.tmp", doc.target_path));
    assert!(doc.dir_path.ends_with("/.config/antihook"));
    assert!(doc.target_path.starts_with(&doc.dir_path));
    let parsed = parse_config(&doc.contents).unwrap();
    assert_eq!(parsed.server_url, doc.normalized);
}
