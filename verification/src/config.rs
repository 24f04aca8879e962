//! Validation of the daemon's settings: the token and the status.

use vstd::prelude::*;
use vstd::string::*;

verus! {

/// Why the settings cannot be used.
#[derive(Debug, Clone)]
pub enum ConfigError {
    /// No token, or an empty one.
    MissingToken,
    /// The status (lower-cased) is none of the four allowed.
    InvalidStatus { status: String },
}

/// The mathematical value of a [`ConfigError`].
pub enum ConfigErrorView {
    MissingToken,
    InvalidStatus { status: Seq<char> },
}

impl View for ConfigError {
    type V = ConfigErrorView;

    open spec fn view(&self) -> ConfigErrorView {
        match self {
            ConfigError::MissingToken => ConfigErrorView::MissingToken,
            ConfigError::InvalidStatus { status } => ConfigErrorView::InvalidStatus {
                status: status@,
            },
        }
    }
}

/// The view of a string result.
pub open spec fn string_result_view(r: Result<String, ConfigError>) -> Result<
    Seq<char>,
    ConfigErrorView,
> {
    match r {
        Ok(s) => Ok(s@),
        Err(e) => Err(e@),
    }
}

/// The token to use: the one given, unless it is missing or empty.
pub fn resolve_token(token: Option<String>) -> (r: Result<String, ConfigError>)
    ensures
        string_result_view(r) == match token {
            Some(t) => if t@.len() > 0 {
                Ok(t@)
            } else {
                Err(ConfigErrorView::MissingToken)
            },
            None => Err(ConfigErrorView::MissingToken),
        },
{
    match token {
        Some(t) => {
            if t.as_str().unicode_len() > 0 {
                Ok(t)
            } else {
                Err(ConfigError::MissingToken)
            }
        },
        None => Err(ConfigError::MissingToken),
    }
}

/// `str::to_lowercase` of the standard library applied to `s`.
pub uninterp spec fn lowercase(s: Seq<char>) -> Seq<char>;

/// Calls `str::to_lowercase`. The contract names the result.
#[verifier::external_body]
fn to_lowercase(s: &str) -> (r: String)
    ensures
        r@ == lowercase(s@),
{
    s.to_lowercase()
}

/// The statuses the daemon can keep.
pub open spec fn allowed_status(s: Seq<char>) -> bool {
    s == "online"@ || s == "idle"@ || s == "dnd"@ || s == "invisible"@
}

/// The status to keep: the given one in lower case, which must be `online`,
/// `idle`, `dnd` or `invisible`.
pub fn normalize_status(status: &str) -> (r: Result<String, ConfigError>)
    ensures
        string_result_view(r) == if allowed_status(lowercase(status@)) {
            Ok(lowercase(status@))
        } else {
            Err(ConfigErrorView::InvalidStatus { status: lowercase(status@) })
        },
{
    let lower = to_lowercase(status);
    if lower == String::from_str("online") || lower == String::from_str("idle") || lower
        == String::from_str("dnd") || lower == String::from_str("invisible") {
        Ok(lower)
    } else {
        Err(ConfigError::InvalidStatus { status: lower })
    }
}

} // verus!
