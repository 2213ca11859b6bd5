//! Endpoint builders for the gist comments endpoints.

use vstd::prelude::*;
use vstd::string::*;

use crate::encoding::{dec_str, u64_to_dec};

verus! {

/// The endpoint of one gist's comments.
pub fn gists_comments_path(gist_id: u64) -> (r: String)
    ensures
        r@ == "/gists/"@ + dec_str(gist_id as nat) + "/comments"@,
{
    String::from_str("/gists/").concat(u64_to_dec(gist_id).as_str()).concat("/comments")
}

/// The endpoint of one comment on a gist.
pub fn gists_comments_id_path(gist_id: u64, id: u64) -> (r: String)
    ensures
        r@ == "/gists/"@ + dec_str(gist_id as nat) + "/comments/"@ + dec_str(id as nat),
{
    String::from_str("/gists/").concat(u64_to_dec(gist_id).as_str()).concat("/comments/").concat(
        u64_to_dec(id).as_str(),
    )
}

} // verus!
