//! The configuration store: the well-known config file location, the
//! document read and written there, and the fully prepared atomic save.
//! Reading the disk and executing the write plan are the caller's I/O;
//! everything decided here is verified.

use vstd::prelude::*;
use vstd::string::*;

use crate::errors::ConfigError;
use crate::jsondoc::{parse_config_spec, parse_config_text, render_config_spec, render_config_text};
use crate::urlnorm::{normalize_base_url, normalize_error_detail, normalize_ok, normalized_of};

verus! {

/// The persisted configuration: the one `server_url` value, always in
/// normalized form.
pub struct AppConfig {
    pub server_url: String,
}

/// Relies on `dirs::home_dir`: the platform's home directory, if it can
/// be resolved, converted to a string. The result depends on the
/// environment, so nothing is promised of it.
#[verifier::external_body]
fn home_dir_string() -> (r: Option<String>) {
    dirs::home_dir().map(|p| p.to_string_lossy().into_owned())
}

/// The configuration directory under a given home directory.
pub open spec fn config_dir_of(home: Seq<char>) -> Seq<char> {
    home + "/.config/antihook"@
}

/// The configuration file path under a given home directory.
pub open spec fn config_file_of(home: Seq<char>) -> Seq<char> {
    home + "/.config/antihook/config.json"@
}

/// The configuration directory for a known home directory path.
pub fn config_dir_for_home(home: &str) -> (r: String)
    ensures
        r@ == config_dir_of(home@),
{
    String::from_str(home).concat("/.config/antihook")
}

/// The configuration file path for a known home directory path.
pub fn config_file_path_for_home(home: &str) -> (r: String)
    ensures
        r@ == config_file_of(home@),
{
    String::from_str(home).concat("/.config/antihook/config.json")
}

/// The configuration directory, resolved against the platform's home
/// directory; fails only when no home directory can be resolved.
pub fn config_dir() -> (r: Result<String, ConfigError>)
    ensures
        (r matches Ok(p) ==> exists|h: Seq<char>| p@ == config_dir_of(h)),
        (r matches Err(e) ==> e is MissingHomeDir),
{
    match home_dir_string() {
        None => Err(ConfigError::MissingHomeDir),
        Some(home) => {
            let p = config_dir_for_home(home.as_str());
            proof {
                assert(p@ == config_dir_of(home@));
            }
            Ok(p)
        },
    }
}

/// The configuration file path, resolved against the platform's home
/// directory; fails only when no home directory can be resolved.
pub fn config_file_path() -> (r: Result<String, ConfigError>)
    ensures
        (r matches Ok(p) ==> exists|h: Seq<char>| p@ == config_file_of(h)),
        (r matches Err(e) ==> e is MissingHomeDir),
{
    match home_dir_string() {
        None => Err(ConfigError::MissingHomeDir),
        Some(home) => {
            let p = config_file_path_for_home(home.as_str());
            proof {
                assert(p@ == config_file_of(home@));
            }
            Ok(p)
        },
    }
}

/// The configuration file path as the shell sees it, with the error
/// already collapsed to its descriptive string.
pub fn get_config_path() -> (r: Result<String, String>)
    ensures
        (r matches Ok(p) ==> exists|h: Seq<char>| p@ == config_file_of(h)),
        (r matches Err(m) ==> m@ == crate::errors::message_of(&ConfigError::MissingHomeDir)),
{
    match config_file_path() {
        Ok(p) => Ok(p),
        Err(e) => Err(e.message()),
    }
}

/// Reads a configuration document. Absence of the file is the caller's
/// case to handle; text that is not a well-formed document is a hard
/// `Json` error, never treated as absent.
pub fn parse_config(text: &str) -> (r: Result<AppConfig, ConfigError>)
    ensures
        (r is Ok <==> parse_config_spec(text@) is Some),
        (r matches Ok(c) ==> parse_config_spec(text@) == Some(c.server_url@)),
        (r matches Err(e) ==> e matches ConfigError::Json(d) && d@ == "invalid config document"@),
{
    match parse_config_text(text) {
        Some(u) => Ok(AppConfig { server_url: u }),
        None => Err(ConfigError::Json(String::from_str("invalid config document"))),
    }
}

/// Renders the configuration document for a value: pretty-printed JSON
/// with a trailing newline.
pub fn render_config(server_url: &str) -> (r: String)
    ensures
        r@ == render_config_spec(server_url@),
{
    render_config_text(server_url)
}

/// Everything the atomic persistence sequence needs: the normalized
/// value to report back, the directory to create, the temporary and
/// target paths, and the exact document text to write.
pub struct SaveDoc {
    pub normalized: String,
    pub dir_path: String,
    pub target_path: String,
    pub tmp_path: String,
    pub contents: String,
}

/// Validates the input and prepares the whole atomic save. An invalid
/// URL aborts before anything else — in particular before any path is
/// computed — so a failed save has nothing to write. A valid URL fails
/// only when no home directory can be resolved.
pub fn save_config_document(raw_url: &str) -> (r: Result<SaveDoc, ConfigError>)
    ensures
        (!normalize_ok(raw_url@) ==> (r matches Err(e) && e matches ConfigError::InvalidUrl(d)
            && d@ == normalize_error_detail(raw_url@))),
        (r matches Err(e) ==> (e matches ConfigError::InvalidUrl(d) && !normalize_ok(raw_url@)
            && d@ == normalize_error_detail(raw_url@)) || (e is MissingHomeDir && normalize_ok(
            raw_url@,
        ))),
        (r matches Ok(doc) ==> normalize_ok(raw_url@) && doc.normalized@ == normalized_of(
            raw_url@,
        ) && doc.contents@ == render_config_spec(normalized_of(raw_url@)) && (exists|
            h: Seq<char>,
        |
            doc.dir_path@ == config_dir_of(h) && doc.target_path@ == config_file_of(h)
                && doc.tmp_path@ == config_file_of(h) + ".tmp"@)),
{
    let normalized = match normalize_base_url(raw_url) {
        Ok(u) => u,
        Err(e) => {
            return Err(e);
        },
    };
    let home = match home_dir_string() {
        Some(h) => h,
        None => {
            return Err(ConfigError::MissingHomeDir);
        },
    };
    let dir_path = config_dir_for_home(home.as_str());
    let target_path = config_file_path_for_home(home.as_str());
    let tmp_path = target_path.clone().concat(".tmp");
    let contents = render_config_text(normalized.as_str());
    proof {
        assert(dir_path@ == config_dir_of(home@));
        assert(target_path@ == config_file_of(home@));
        assert(tmp_path@ == config_file_of(home@) + ".tmp"@);
    }
    Ok(SaveDoc { normalized, dir_path, target_path, tmp_path, contents })
}

} // verus!
