//! The record of the instance metadata endpoint.

use vstd::prelude::*;

verus! {

/// The response of the metadata endpoint.
#[derive(Clone, Debug, PartialEq)]
pub struct Meta {
    /// Whether password authentication is supported.
    pub verifiable_password_authentication: bool,
    /// The currently deployed services revision.
    pub github_services_sha: String,
    /// Addresses that incoming service hooks originate from.
    pub hooks: Vec<String>,
    /// Addresses of the git servers.
    pub git: Vec<String>,
    /// Addresses of the pages servers.
    pub pages: Vec<String>,
    /// Addresses that source imports originate from.
    pub importer: Vec<String>,
}

} // verus!
