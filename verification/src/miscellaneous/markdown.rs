//! Records and header builders for the markdown rendering endpoints.

use vstd::prelude::*;
use vstd::string::*;

use crate::client::{spec_default_entries, spec_default_lookup, Client};
use crate::headers::{remove_name, Headers};

verus! {

/// Input for the markdown rendering endpoints.
#[derive(Clone, Debug, PartialEq)]
pub struct MarkdownRequest {
    /// The markdown text to render.
    pub text: String,
    /// `markdown` renders a plain document, `gfm` renders user content with
    /// hard line breaks and mention links.
    pub mode: Option<String>,
    /// The repository context, taken into account when rendering as `gfm`.
    pub context: Option<String>,
}

/// The media type the raw variant's input is declared as.
#[derive(Clone, Copy, Debug, PartialEq, Eq, Structural)]
pub enum MarkdownRawMIME {
    TextPlain,
    TextXMarkdown,
}

/// The `Content-Type` value for a raw-variant media type.
pub open spec fn spec_markdown_raw_mime_str(m: MarkdownRawMIME) -> Seq<char> {
    match m {
        MarkdownRawMIME::TextPlain => "text/plain"@,
        MarkdownRawMIME::TextXMarkdown => "text/x-markdown"@,
    }
}

/// The default headers with the `Accept` value the markdown endpoints ask
/// for.
pub fn markdown_headers(client: &Client) -> (r: Headers)
    ensures
        r.entries() == remove_name(spec_default_entries(client.user_agent@), "Accept"@).push(
            ("Accept"@, "application/html"@),
        ),
        forall|n: Seq<char>| #[trigger]
            r.lookup(n) == (if n == "Accept"@ {
                Some("application/html"@)
            } else {
                spec_default_lookup(client.user_agent@, n)
            }),
{
    let mut headers = client.get_default_headers();
    headers.set("Accept", String::from_str("application/html"));
    headers
}

/// The markdown headers with the raw variant's `Content-Type`.
pub fn markdown_raw_headers(client: &Client, mime: MarkdownRawMIME) -> (r: Headers)
    ensures
        r.entries() == remove_name(
            remove_name(spec_default_entries(client.user_agent@), "Accept"@).push(
                ("Accept"@, "application/html"@),
            ),
            "Content-Type"@,
        ).push(("Content-Type"@, spec_markdown_raw_mime_str(mime))),
        forall|n: Seq<char>| #[trigger]
            r.lookup(n) == (if n == "Content-Type"@ {
                Some(spec_markdown_raw_mime_str(mime))
            } else if n == "Accept"@ {
                Some("application/html"@)
            } else {
                spec_default_lookup(client.user_agent@, n)
            }),
{
    proof {
        reveal_strlit("Accept");
        reveal_strlit("Content-Type");
        assert("Accept"@.len() == 6);
        assert("Content-Type"@.len() == 12);
    }
    let mut headers = markdown_headers(client);
    let value = match mime {
        MarkdownRawMIME::TextPlain => String::from_str("text/plain"),
        MarkdownRawMIME::TextXMarkdown => String::from_str("text/x-markdown"),
    };
    headers.set("Content-Type", value);
    headers
}

} // verus!
