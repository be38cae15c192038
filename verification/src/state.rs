//! The activation as it is kept on disk: one JSON value, a string or `null`.

use vstd::prelude::*;
use vstd::string::StringExecFns;
use crate::error::GitShiftError;

verus! {

/// The error that the JSON reader and writer report.
#[verifier::external_type_specification]
#[verifier::external_body]
pub struct ExJsonError(serde_json::Error);

/// What `content` holds when read as a JSON string or `null`; `None` where
/// it is neither.
pub uninterp spec fn json_optional_string(content: Seq<char>) -> Option<Option<Seq<char>>>;

/// The pretty-printed JSON text of an optional string.
pub uninterp spec fn json_of_optional_string(value: Option<Seq<char>>) -> Seq<char>;

/// An optional string as an optional character sequence.
pub open spec fn optional_view(value: Option<String>) -> Option<Seq<char>> {
    match value {
        Some(s) => Some(s@),
        None => None,
    }
}

/// Reads `content` with `serde_json::from_str` as an optional string. The
/// reader is a function of the text alone: what it finds, or that it fails,
/// goes by the name `json_optional_string`.
#[verifier::external_body]
fn parse_optional_string(content: &str) -> (r: Result<Option<String>, serde_json::Error>)
    ensures
        match r {
            Ok(value) => json_optional_string(content@) == Some(optional_view(value)),
            Err(_) => json_optional_string(content@) is None,
        },
{
    serde_json::from_str(content)
}

/// Writes an optional string with `serde_json::to_string_pretty`. The
/// serializer fails only where its writer does, and the writer here is a
/// vector in memory: the call succeeds. The text is a function of the value
/// alone and goes by the name `json_of_optional_string`.
#[verifier::external_body]
fn render_optional_string(value: &Option<String>) -> (r: Result<String, serde_json::Error>)
    ensures
        r is Ok,
        r->Ok_0@ == json_of_optional_string(optional_view(*value)),
{
    serde_json::to_string_pretty(value)
}

/// The activation that a read of the activation file amounts to: what the
/// reader found, or a corrupt store where it failed.
pub fn state_from_parsed(parsed: Result<Option<String>, serde_json::Error>) -> (r: Result<
    Option<String>,
    GitShiftError,
>)
    ensures
        match parsed {
            Ok(active) => r == Ok::<Option<String>, GitShiftError>(active),
            Err(_) => r matches Err(GitShiftError::CorruptStore(what)) && what@ == "state file"@,
        },
{
    match parsed {
        Ok(active) => Ok(active),
        Err(_) => Err(GitShiftError::CorruptStore(String::from_str("state file"))),
    }
}

/// The text that a write of the activation file is to hold, or an I/O
/// failure that carries `detail` where the writer gave none.
pub fn text_from_rendered(rendered: Result<String, serde_json::Error>, detail: &str) -> (r: Result<
    String,
    GitShiftError,
>)
    ensures
        match rendered {
            Ok(text) => r == Ok::<String, GitShiftError>(text),
            Err(_) => r matches Err(GitShiftError::Io(d)) && d@ == detail@,
        },
{
    match rendered {
        Ok(text) => Ok(text),
        Err(_) => Err(GitShiftError::Io(String::from_str(detail))),
    }
}

/// The activation that the activation file holds. A file that was never
/// written (`None`) means that no account is active; a file that holds
/// anything but a JSON string or `null` is a corrupt store.
pub fn load_state(content: Option<&str>) -> (r: Result<Option<String>, GitShiftError>)
    ensures
        match content {
            None => r matches Ok(None),
            Some(text) => match json_optional_string(text@) {
                Some(active) => r matches Ok(found) && optional_view(found) == active,
                None => r matches Err(GitShiftError::CorruptStore(what)) && what@
                    == "state file"@,
            },
        },
{
    match content {
        None => Ok(None),
        Some(text) => state_from_parsed(parse_optional_string(text)),
    }
}

/// The text to write to the activation file for `active`. Every
/// activation has one.
pub fn save_state(active: &Option<String>) -> (r: Result<String, GitShiftError>)
    ensures
        r matches Ok(text) && text@ == json_of_optional_string(optional_view(*active)),
{
    text_from_rendered(render_optional_string(active), "Failed to write state file")
}

} // verus!
