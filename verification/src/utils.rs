//! The generic endpoint helper: GET a relative endpoint and hand back the
//! response body, ready to be decoded into an endpoint's own response type.

use vstd::prelude::*;

use crate::client::{spec_settle, Client, Exchange, Settled};
use crate::error::Error;
use crate::headers::Headers;

verus! {

/// Whether `r` is the body of what `s` says the call settles to.
pub open spec fn body_result_matches(r: Result<String, Error>, s: Settled) -> bool {
    match s {
        Settled::Done { body, .. } => r matches Ok(b) && b@ == body,
        Settled::Api { err } => r == Err::<String, Error>(Error::Github(err)),
        Settled::Unparsed { body } => r matches Err(Error::Parsing(m)) && m@ == body,
        Settled::Transport { msg } => r matches Err(Error::HTTP(m)) && m@ == msg,
        Settled::Read { msg } => r matches Err(Error::STDIO(m)) && m@ == msg,
        Settled::NoResponse => r matches Err(Error::HTTP(m)) && m@
            == "no response from transport"@,
    }
}

/// Whether two helper results carry the same outcome.
pub open spec fn body_results_agree(r1: Result<String, Error>, r2: Result<String, Error>) -> bool {
    match (r1, r2) {
        (Ok(a), Ok(b)) => a@ == b@,
        (Err(Error::Github(a)), Err(Error::Github(b))) => a == b,
        (Err(Error::Parsing(a)), Err(Error::Parsing(b))) => a@ == b@,
        (Err(Error::HTTP(a)), Err(Error::HTTP(b))) => a@ == b@,
        (Err(Error::STDIO(a)), Err(Error::STDIO(b))) => a@ == b@,
        _ => false,
    }
}

/// GETs `endpoint` with the given header overrides and hands back the body
/// of the response the call settles on.
pub fn request_endpoint_with_headers(
    client: &Client,
    endpoint: String,
    headers: Option<Headers>,
    script: &Vec<Exchange>,
) -> (r: Result<String, Error>)
    ensures
        body_result_matches(r, spec_settle(script@, 0)),
{
    match client.get(endpoint, headers, script) {
        Ok(response) => Ok(response.body),
        Err(e) => Err(e),
    }
}

/// GETs `endpoint` with the default headers and hands back the body of the
/// response the call settles on.
pub fn request_endpoint(client: &Client, endpoint: String, script: &Vec<Exchange>) -> (r: Result<
    String,
    Error,
>)
    ensures
        body_result_matches(r, spec_settle(script@, 0)),
{
    request_endpoint_with_headers(client, endpoint, None, script)
}

/// Two calls of the endpoint helper with identical inputs return equal
/// values: the outcome is a function of the endpoint and the transport
/// exchanges alone, with no hidden state between calls.
pub proof fn lemma_request_endpoint_idempotent(
    r1: Result<String, Error>,
    r2: Result<String, Error>,
    script: Seq<Exchange>,
)
    requires
        body_result_matches(r1, spec_settle(script, 0)),
        body_result_matches(r2, spec_settle(script, 0)),
    ensures
        body_results_agree(r1, r2),
{
}

} // verus!
