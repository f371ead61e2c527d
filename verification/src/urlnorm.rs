//! The URL normalizer: trims whitespace, strips trailing slashes, and
//! validates the scheme and host through the WHATWG URL parser. It is
//! the single validation gate for both the config store and the health
//! probe.

use vstd::prelude::*;
use vstd::string::*;

use crate::errors::ConfigError;
use crate::text::{strip_slashes_spec, strip_trailing_slashes, trim_spec, trim_str};

verus! {

/// Whether the WHATWG URL parser accepts the string.
pub uninterp spec fn url_parse_ok(s: Seq<char>) -> bool;

/// The scheme of the parsed URL, lowercased by the parser.
pub uninterp spec fn url_scheme(s: Seq<char>) -> Seq<char>;

/// Whether the parsed URL has a host component.
pub uninterp spec fn url_has_host(s: Seq<char>) -> bool;

/// The display text of the parse error when parsing fails.
pub uninterp spec fn url_parse_detail(s: Seq<char>) -> Seq<char>;

/// What the URL parser reports about one input string: its scheme and
/// whether a host is present.
pub struct UrlFacts {
    pub scheme: String,
    pub has_host: bool,
}

/// Relies on `url::Url::parse` (the WHATWG URL parser): whether a string
/// parses, the scheme and host of the parsed value (`Url::scheme`,
/// `Url::host_str`), and the error's display text are all functions of
/// the input string alone.
#[verifier::external_body]
fn parse_url_facts(s: &str) -> (r: Result<UrlFacts, String>)
    ensures
        r is Ok <==> url_parse_ok(s@),
        (r matches Ok(f) ==> f.scheme@ == url_scheme(s@) && f.has_host == url_has_host(s@)),
        (r matches Err(e) ==> e@ == url_parse_detail(s@)),
{
    match url::Url::parse(s) {
        Ok(u) => Ok(UrlFacts { scheme: u.scheme().to_string(), has_host: u.host_str().is_some() }),
        Err(e) => Err(format!("{e}")),
    }
}

/// The normal form of an input: trimmed, then stripped of trailing
/// slashes.
pub open spec fn normalized_of(s: Seq<char>) -> Seq<char> {
    strip_slashes_spec(trim_spec(s))
}

/// Whether normalization succeeds: the normal form is non-empty, parses
/// as a URL, carries an `http` or `https` scheme, and has a host.
pub open spec fn normalize_ok(s: Seq<char>) -> bool {
    let t = normalized_of(s);
    t.len() > 0 && url_parse_ok(t) && (url_scheme(t) == "http"@ || url_scheme(t) == "https"@)
        && url_has_host(t)
}

/// The detail text of the `InvalidUrl` error when normalization fails.
pub open spec fn normalize_error_detail(s: Seq<char>) -> Seq<char> {
    let t = normalized_of(s);
    if t.len() == 0 {
        "empty url"@
    } else if !url_parse_ok(t) {
        url_parse_detail(t)
    } else if !(url_scheme(t) == "http"@ || url_scheme(t) == "https"@) {
        "unsupported scheme: "@ + url_scheme(t)
    } else {
        "missing host"@
    }
}

/// Validates and canonicalizes a base URL: trims whitespace, strips
/// trailing slashes, and requires an `http`/`https` URL with a host.
/// On success the returned string is the trimmed input itself, not a
/// re-serialization.
pub fn normalize_base_url(raw: &str) -> (r: Result<String, ConfigError>)
    ensures
        r is Ok <==> normalize_ok(raw@),
        (r matches Ok(u) ==> u@ == normalized_of(raw@)),
        (r matches Err(e) ==> e matches ConfigError::InvalidUrl(d) && d@ == normalize_error_detail(
            raw@,
        )),
{
    let t = strip_trailing_slashes(trim_str(raw));
    if t.unicode_len() == 0 {
        return Err(ConfigError::InvalidUrl(String::from_str("empty url")));
    }
    match parse_url_facts(t) {
        Err(d) => Err(ConfigError::InvalidUrl(d)),
        Ok(f) => {
            let http = String::from_str("http");
            let https = String::from_str("https");
            proof {
                reveal_strlit("http");
                reveal_strlit("https");
            }
            if !(f.scheme == http || f.scheme == https) {
                Err(
                    ConfigError::InvalidUrl(
                        String::from_str("unsupported scheme: ").concat(f.scheme.as_str()),
                    ),
                )
            } else if !f.has_host {
                Err(ConfigError::InvalidUrl(String::from_str("missing host")))
            } else {
                Ok(String::from_str(t))
            }
        },
    }
}

/// Classification law: an input whose normal form lacks an `http` or
/// `https` scheme, or lacks a host, or is empty, or fails to parse, is
/// rejected; every other input is accepted, and the accepted value is
/// the normal form, which never ends in a slash.
pub proof fn lemma_normalize_classification(s: Seq<char>)
    ensures
        !(url_scheme(normalized_of(s)) == "http"@ || url_scheme(normalized_of(s)) == "https"@)
            ==> !normalize_ok(s),
        !url_has_host(normalized_of(s)) ==> !normalize_ok(s),
        !url_parse_ok(normalized_of(s)) ==> !normalize_ok(s),
        normalized_of(s).len() == 0 ==> !normalize_ok(s),
        (normalized_of(s).len() > 0 && url_parse_ok(normalized_of(s)) && (url_scheme(
            normalized_of(s),
        ) == "http"@ || url_scheme(normalized_of(s)) == "https"@) && url_has_host(
            normalized_of(s),
        )) ==> normalize_ok(s),
        normalize_ok(s) ==> normalized_of(s).last() != '/',
{
    crate::text::lemma_strip_slashes_shape(trim_spec(s));
}

/// Idempotence law: normalizing an already-normalized value changes
/// nothing, provided the normal form does not end in whitespace.
/// (Stripping trailing slashes can expose trailing whitespace — as in an
/// input ending in `" /"` — which only a second pass would remove; such
/// inputs are the one exception.)
pub proof fn lemma_normalize_idempotent(s: Seq<char>)
    ensures
        (normalize_ok(s) && !crate::text::is_space(normalized_of(s).last())) ==> (normalized_of(
            normalized_of(s),
        ) == normalized_of(s) && normalize_ok(normalized_of(s))),
{
    if normalize_ok(s) && !crate::text::is_space(normalized_of(s).last()) {
        let t = normalized_of(s);
        crate::text::lemma_strip_slashes_shape(trim_spec(s));
        crate::text::lemma_trim_shape(s);
        assert(t[0] == trim_spec(s)[0]);
        assert(!crate::text::is_space(t[0]));
        assert(crate::text::trim_start_spec(t) == t);
        assert(crate::text::trim_end_spec(t) == t);
        assert(trim_spec(t) == t);
        assert(strip_slashes_spec(t) == t);
        assert(normalized_of(t) == t);
    }
}

} // verus!
