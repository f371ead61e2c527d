use antihook::errors::ConfigError;
use antihook::urlnorm::normalize_base_url;

fn expect_invalid(input: &str, detail: &str) {
    match normalize_base_url(input) {
        Err(ConfigError::InvalidUrl(d)) => assert_eq!(d, detail),
        _ => panic!("expected InvalidUrl({detail:?}) for {input:?}"),
    }
}

#[test]
fn accepts_and_strips_trailing_slashes() {
    let r = normalize_base_url("  https://example.com///  ").unwrap();
    assert_eq!(r, "https://example.com");
}

#[test]
fn accepts_http_and_keeps_path() {
    let r = normalize_base_url("http://example.com:8080/base/").unwrap();
    assert_eq!(r, "http://example.com:8080/base");
}

#[test]
fn preserves_original_formatting() {
    let r = normalize_base_url("HTTPS://Example.com/Path").unwrap();
    assert_eq!(r, "HTTPS://Example.com/Path");
}

#[test]
fn rejects_empty_input() {
    expect_invalid("", "empty url");
    expect_invalid("   ", "empty url");
    expect_invalid("///", "empty url");
    expect_invalid("  ///  ", "empty url");
}

#[test]
fn rejects_unsupported_schemes() {
    expect_invalid("ftp://example.com", "unsupported scheme: ftp");
    expect_invalid("file:///tmp/data", "unsupported scheme: file");
    expect_invalid("ws://example.com", "unsupported scheme: ws");
}

#[test]
fn rejects_unparsable_input() {
    expect_invalid("not a url", "relative URL without a base");
    expect_invalid("example.com", "relative URL without a base");
    expect_invalid("http://", "empty host");
}

#[test]
fn idempotent_on_ordinary_input() {
    for input in ["https://example.com/", "  http://a.b/c//  ", "https://x.y"] {
        let once = normalize_base_url(input).unwrap();
        let twice = normalize_base_url(&once).unwrap();
        assert_eq!(once, twice);
    }
}

#[test]
fn trims_unicode_whitespace() {
    let r = normalize_base_url("\u{3000}\u{a0} https://example.com \u{2028}\t").unwrap();
    assert_eq!(r, "https://example.com");
}

#[test]
fn slash_stripping_can_expose_whitespace() {
    // The one non-idempotent shape: stripping the trailing slash leaves a
    // trailing space that only a second pass would trim.
    let once = normalize_base_url("http://h/a /").unwrap();
    assert_eq!(once, "http://h/a ");
    let twice = normalize_base_url(&once).unwrap();
    assert_eq!(twice, "http://h/a");
}

#[test]
fn error_messages_per_variant() {
    assert_eq!(
        ConfigError::MissingHomeDir.message(),
        "missing user home directory"
    );
    assert_eq!(
        ConfigError::InvalidUrl("empty url".to_string()).message(),
        "invalid url: empty url"
    );
    assert_eq!(ConfigError::Io("boom".to_string()).message(), "io error: boom");
    assert_eq!(
        ConfigError::Json("bad".to_string()).message(),
        "json error: bad"
    );
}
