//! Records and endpoint builders for the blob endpoints.

use vstd::prelude::*;
use vstd::string::*;

use super::repo_git_path;

verus! {

/// The response of the blob fetch endpoint.
#[derive(Clone, Debug, PartialEq)]
pub struct Blob {
    pub content: String,
    pub encoding: String,
    pub url: String,
    pub sha: String,
    pub size: u64,
}

/// The response of the blob creation endpoint.
#[derive(Clone, Debug, PartialEq)]
pub struct BlobCreate {
    pub url: String,
    pub sha: String,
}

/// The encodings a blob's content can be supplied in.
#[derive(Clone, Copy, Debug, PartialEq, Eq, Structural)]
pub enum BlobEncoding {
    Base64,
    UTF8,
}

/// The token `to_str` renders an encoding as.
pub open spec fn spec_blob_encoding_str(e: BlobEncoding) -> Seq<char> {
    match e {
        BlobEncoding::Base64 => "base64"@,
        BlobEncoding::UTF8 => "utf-8"@,
    }
}

impl BlobEncoding {
    /// The token the API expects for this encoding.
    pub fn to_str(self) -> (r: String)
        ensures
            r@ == spec_blob_encoding_str(self),
    {
        match self {
            BlobEncoding::Base64 => String::from_str("base64"),
            BlobEncoding::UTF8 => String::from_str("utf-8"),
        }
    }
}

/// The endpoint of one blob.
pub fn repo_blobs_sha_path(owner: &str, repo: &str, sha: &str) -> (r: String)
    ensures
        r@ == "/repos/"@ + owner@ + "/"@ + repo@ + "/git"@ + "/blobs/"@ + sha@,
{
    repo_git_path(owner, repo).concat("/blobs/").concat(sha)
}

/// The endpoint that creates a blob.
pub fn repo_blobs_path(owner: &str, repo: &str) -> (r: String)
    ensures
        r@ == "/repos/"@ + owner@ + "/"@ + repo@ + "/git"@ + "/blobs"@,
{
    repo_git_path(owner, repo).concat("/blobs")
}

} // verus!
