//! The errors a call can end in, and the structured error body the API
//! returns on a rejected request.

use vstd::prelude::*;

verus! {

/// Everything that can go wrong while performing a call.
#[derive(Clone, Debug, PartialEq)]
pub enum Error {
    /// The API rejected the request and returned a structured error body.
    Github(GithubError),
    /// The transport failed before a response settled.
    HTTP(String),
    /// A response body could not be parsed; holds the text that failed.
    Parsing(String),
    /// The response body stream could not be read.
    STDIO(String),
}

/// The structured error body of a rejected request.
#[derive(Clone, Debug, PartialEq)]
pub struct GithubError {
    pub message: String,
    pub documentation_url: Option<String>,
    pub errors: Option<Vec<GithubErrorErrors>>,
}

/// One field-level entry of a structured error body.
#[derive(Clone, Debug, PartialEq)]
pub struct GithubErrorErrors {
    pub resource: String,
    pub field: String,
    pub code: String,
}

/// What a structured error body parses to: `None` when the text is not JSON
/// or lacks the shape `{message, documentation_url?, errors?}`.
pub uninterp spec fn github_error_of(body: Seq<char>) -> Option<GithubError>;

/// Relies on `serde_json::from_str`: parsing is a function of the text alone.
/// The fields are lifted out of the parsed `serde_json::Value` one for one.
#[verifier::external_body]
pub(crate) fn parse_error_body(body: &str) -> (r: Option<GithubError>)
    ensures
        r == github_error_of(body@),
{
    let v: serde_json::Value = serde_json::from_str(body).ok()?;
    let errors = match v.get("errors") {
        None => None,
        Some(e) => Some(e.as_array()?.iter().map(|s| Some(GithubErrorErrors {
            resource: s.get("resource")?.as_str()?.to_owned(),
            field: s.get("field")?.as_str()?.to_owned(),
            code: s.get("code")?.as_str()?.to_owned(),
        })).collect::<Option<Vec<GithubErrorErrors>>>()?),
    };
    Some(GithubError {
        message: v.get("message")?.as_str()?.to_owned(),
        documentation_url: v.get("documentation_url").and_then(|d| d.as_str()).map(|s| s.to_owned()),
        errors,
    })
}

/// What a JSON array of strings parses to: `None` when the text is not such
/// an array.
pub uninterp spec fn string_list_of(body: Seq<char>) -> Option<Vec<String>>;

/// Relies on `serde_json::from_str`: parsing is a function of the text alone.
#[verifier::external_body]
pub(crate) fn parse_string_list(body: &str) -> (r: Option<Vec<String>>)
    ensures
        r == string_list_of(body@),
{
    serde_json::from_str(body).ok()
}

} // verus!
