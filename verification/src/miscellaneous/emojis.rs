//! The emoji listing endpoint.
//!
//! The response is one JSON object mapping emoji names to image URLs.  The
//! parse hands its entries over raw — string values as they stand, values of
//! any other type marked absent — and the listing replaces each absent value
//! with the empty string, as the callers expect.

use vstd::prelude::*;
use vstd::string::*;

use crate::client::{spec_settle, Client, Exchange, Settled};
use crate::error::Error;
use crate::headers::clone_string;
use crate::utils::request_endpoint;

verus! {

/// What a JSON object of strings parses to: `None` when the text is not
/// JSON, `Some(None)` when it is JSON but not an object, and otherwise the
/// object's entries in key order, each non-string value marked absent.
pub uninterp spec fn object_strings_of(body: Seq<char>) -> Option<
    Option<Vec<(String, Option<String>)>>,
>;

/// Relies on `serde_json::from_str`: parsing is a function of the text
/// alone, and the parsed object iterates its entries in key order.
#[verifier::external_body]
pub(crate) fn parse_object_strings(body: &str) -> (r: Option<
    Option<Vec<(String, Option<String>)>>,
>)
    ensures
        r == object_strings_of(body@),
{
    let v: serde_json::Value = match serde_json::from_str(body) {
        Ok(v) => v,
        Err(_) => return None,
    };
    match v.as_object() {
        None => Some(None),
        Some(o) => Some(Some(
            o.iter().map(|(k, val)| (k.clone(), val.as_str().map(|s| s.to_owned()))).collect(),
        )),
    }
}

/// The value an emoji entry ends up with: the string itself, or the empty
/// string where the object held something other than a string.
pub open spec fn spec_emoji_value(v: Option<String>) -> Seq<char> {
    match v {
        Some(s) => s@,
        None => Seq::empty(),
    }
}

/// Lists the emojis: a 200 response whose body is a JSON object yields its
/// entries in key order, with the empty string standing in for any
/// non-string value; a 200 body that is JSON but no object yields `None`,
/// and one that is not JSON is a parse error.
pub fn get_emojis(client: &Client, script: &Vec<Exchange>) -> (r: Result<
    Option<Vec<(String, String)>>,
    Error,
>)
    ensures
        match spec_settle(script@, 0) {
            Settled::Done { body, .. } => match object_strings_of(body) {
                None => r matches Err(Error::Parsing(m)) && m@ == body,
                Some(None) => r == Ok::<Option<Vec<(String, String)>>, Error>(None),
                Some(Some(entries)) => r matches Ok(Some(list)) && list@.len() == entries@.len()
                    && forall|j: int|
                        0 <= j < list@.len() ==> (#[trigger] list@[j]).0@ == entries@[j].0@
                            && list@[j].1@ == spec_emoji_value(entries@[j].1),
            },
            Settled::Api { err } => r == Err::<Option<Vec<(String, String)>>, Error>(
                Error::Github(err),
            ),
            Settled::Unparsed { body } => r matches Err(Error::Parsing(m)) && m@ == body,
            Settled::Transport { msg } => r matches Err(Error::HTTP(m)) && m@ == msg,
            Settled::Read { msg } => r matches Err(Error::STDIO(m)) && m@ == msg,
            Settled::NoResponse => r matches Err(Error::HTTP(m)) && m@
                == "no response from transport"@,
        },
{
    match request_endpoint(client, String::from_str("/emojis"), script) {
        Ok(body) => match parse_object_strings(body.as_str()) {
            None => Err(Error::Parsing(body)),
            Some(None) => Ok(None),
            Some(Some(entries)) => {
                let mut list: Vec<(String, String)> = Vec::new();
                let n = entries.len();
                let mut i: usize = 0;
                while i < n
                    invariant
                        n == entries@.len(),
                        i <= n,
                        list@.len() == i,
                        forall|j: int|
                            0 <= j < i ==> (#[trigger] list@[j]).0@ == entries@[j].0@
                                && list@[j].1@ == spec_emoji_value(entries@[j].1),
                    decreases n - i,
                {
                    let value = match &entries[i].1 {
                        Some(v) => clone_string(v),
                        None => String::new(),
                    };
                    let entry = (clone_string(&entries[i].0), value);
                    list.push(entry);
                    i = i + 1;
                }
                Ok(Some(list))
            },
        },
        Err(e) => Err(e),
    }
}

} // verus!
