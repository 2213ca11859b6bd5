//! Client library for the GitHub REST v3 API.
//!
//! A [`client::Client`] holds the base API URL, a user agent string and the
//! active [`auth::Auth`] strategy.  Its verb methods build the full request,
//! follow redirects and classify error responses; the endpoint modules hold
//! the response records and the path and query builders for each resource
//! group of the API.

pub mod activity;
pub mod auth;
pub mod client;
pub mod common;
pub mod encoding;
pub mod error;
pub mod gists;
pub mod git_data;
pub mod headers;
pub mod issues;
pub mod miscellaneous;
pub mod organizations;
pub mod utils;

use vstd::prelude::*;

verus! {

} // verus!
