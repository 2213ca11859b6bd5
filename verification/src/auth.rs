//! The authentication strategies the API accepts.

use vstd::prelude::*;

verus! {

/// How a request is authenticated: not at all, with an OAuth2 token, with an
/// OAuth2 client key and secret, or with basic credentials and an optional
/// one-time password.
#[derive(Clone, Debug, PartialEq)]
pub enum Auth {
    /// Use the API un-authenticated.
    NoAuth,
    /// Use the API authenticated with an OAuth2 token.
    OAuth2Token(String),
    /// Use the API authenticated with an OAuth2 client ID and client secret.
    OAuth2KeySecret(String, String),
    /// Use the API authenticated with a username, a password and optionally a
    /// two-factor one-time password.
    Basic(String, String, Option<String>),
}

} // verus!
