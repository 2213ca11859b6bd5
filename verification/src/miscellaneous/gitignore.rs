//! Records and endpoints for the gitignore template endpoints.

use vstd::prelude::*;
use vstd::string::*;

use crate::client::{spec_default_entries, spec_default_lookup, spec_settle, Client, Exchange, Settled};
use crate::error::{parse_string_list, string_list_of, Error};
use crate::headers::{remove_name, Headers};
use crate::utils::{body_result_matches, request_endpoint, request_endpoint_with_headers};

verus! {

/// The response of the single-template endpoint.
#[derive(Clone, Debug, PartialEq)]
pub struct GitignoreTemplate {
    pub name: String,
    pub source: String,
}

/// The endpoint of one gitignore template.
pub fn gitignore_templates_name_path(name: &str) -> (r: String)
    ensures
        r@ == "/gitignore/templates/"@ + name@,
{
    String::from_str("/gitignore/templates/").concat(name)
}

/// The default headers with the `Accept` value the raw media type asks for.
pub fn raw_accept_headers(client: &Client) -> (r: Headers)
    ensures
        r.entries() == remove_name(spec_default_entries(client.user_agent@), "Accept"@).push(
            ("Accept"@, "application/vnd.github.v3.raw"@),
        ),
        forall|n: Seq<char>| #[trigger]
            r.lookup(n) == (if n == "Accept"@ {
                Some("application/vnd.github.v3.raw"@)
            } else {
                spec_default_lookup(client.user_agent@, n)
            }),
{
    let mut headers = client.get_default_headers();
    headers.set("Accept", String::from_str("application/vnd.github.v3.raw"));
    headers
}

/// Lists the templates available when creating a repository: a 200 response
/// whose body is a JSON array of strings yields exactly those strings, and a
/// 200 body of any other shape is a parse error.
pub fn get_gitignore_templates(client: &Client, script: &Vec<Exchange>) -> (r: Result<
    Vec<String>,
    Error,
>)
    ensures
        match spec_settle(script@, 0) {
            Settled::Done { body, .. } => match string_list_of(body) {
                Some(v) => r == Ok::<Vec<String>, Error>(v),
                None => r matches Err(Error::Parsing(m)) && m@ == body,
            },
            Settled::Api { err } => r == Err::<Vec<String>, Error>(Error::Github(err)),
            Settled::Unparsed { body } => r matches Err(Error::Parsing(m)) && m@ == body,
            Settled::Transport { msg } => r matches Err(Error::HTTP(m)) && m@ == msg,
            Settled::Read { msg } => r matches Err(Error::STDIO(m)) && m@ == msg,
            Settled::NoResponse => r matches Err(Error::HTTP(m)) && m@
                == "no response from transport"@,
        },
{
    match request_endpoint(client, String::from_str("/gitignore/templates"), script) {
        Ok(body) => match parse_string_list(body.as_str()) {
            Some(v) => Ok(v),
            None => Err(Error::Parsing(body)),
        },
        Err(e) => Err(e),
    }
}

/// Fetches one template in raw form: the body of a 200 response is handed
/// back as it stands.
pub fn get_gitignore_templates_name_raw(client: &Client, name: &str, script: &Vec<Exchange>) -> (r:
    Result<String, Error>)
    ensures
        body_result_matches(r, spec_settle(script@, 0)),
{
    let headers = raw_accept_headers(client);
    request_endpoint_with_headers(client, gitignore_templates_name_path(name), Some(headers), script)
}

} // verus!
