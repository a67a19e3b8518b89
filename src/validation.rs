//! Names of configurations and instances: ASCII letters, digits, `-` and `_`.

use vstd::prelude::*;
use crate::error::{ConfigError, QuincyError, Result};
use crate::text::owned;

verus! {

/// The pattern a configuration or instance name must match.
pub const NAME_PATTERN: &'static str = "^[A-Za-z0-9_-]+$";

/// Whether `pattern` compiles as a regular expression.
pub uninterp spec fn regex_compiles(pattern: Seq<char>) -> bool;

/// Whether the regular expression `pattern` matches somewhere in `haystack`.
pub uninterp spec fn regex_matches(pattern: Seq<char>, haystack: Seq<char>) -> bool;

/// Relies on `regex::Regex::new` (whether `pattern` compiles) and
/// `regex::Regex::is_match` (whether it matches in `haystack`).
#[verifier::external_body]
fn regex_is_match(pattern: &str, haystack: &str) -> (r: Option<bool>)
    ensures
        r is Some <==> regex_compiles(pattern@),
        r matches Some(b) ==> b == regex_matches(pattern@, haystack@),
{
    match regex::Regex::new(pattern) {
        Ok(re) => Some(re.is_match(haystack)),
        Err(_) => None,
    }
}

/// Whether `name` is a valid name: not empty, and matching `NAME_PATTERN`.
pub open spec fn valid_name(name: Seq<char>) -> bool {
    name.len() > 0 && regex_compiles(NAME_PATTERN@) && regex_matches(NAME_PATTERN@, name)
}

pub open spec fn unsupported_characters() -> Seq<char> {
    "contains unsupported characters (allowed: letters, digits, '-', '_')"@
}

/// An invalid-value error for `field` with the unsupported-characters reason.
pub open spec fn is_invalid_name_error(e: QuincyError, field: Seq<char>) -> bool {
    e matches QuincyError::Config(ConfigError::InvalidValue { field: f, reason: r }) && f@ == field
        && r@ == unsupported_characters()
}

pub fn is_valid_config_name(name: &str) -> (r: bool)
    ensures
        r == valid_name(name@),
{
    if name.is_empty() {
        return false;
    }
    match regex_is_match(NAME_PATTERN, name) {
        Some(b) => b,
        None => false,
    }
}

fn invalid_name(field: &str) -> (r: QuincyError)
    ensures
        is_invalid_name_error(r, field@),
{
    QuincyError::Config(
        ConfigError::InvalidValue {
            field: owned(field),
            reason: owned("contains unsupported characters (allowed: letters, digits, '-', '_')"),
        },
    )
}

/// Validates a configuration's name.
pub fn validate_config_name(name: &str) -> (r: Result<()>)
    ensures
        valid_name(name@) <==> r is Ok,
        r is Err ==> is_invalid_name_error(r->Err_0, "config_name"@),
{
    if is_valid_config_name(name) {
        Ok(())
    } else {
        Err(invalid_name("config_name"))
    }
}

/// Validates an instance's name, by the same rule as configuration names.
pub fn validate_instance_name(name: &str) -> (r: Result<()>)
    ensures
        valid_name(name@) <==> r is Ok,
        r is Err ==> is_invalid_name_error(r->Err_0, "instance_name"@),
{
    if is_valid_config_name(name) {
        Ok(())
    } else {
        Err(invalid_name("instance_name"))
    }
}

} // verus!
