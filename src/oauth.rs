//! Decisions of the OAuth token proxy: which endpoint a path names,
//! whether a request carries the right API key, and the secrets it hands
//! out. Fetching the stored values is the caller's work.
use vstd::prelude::*;
use crate::models::same_text;

verus! {

/// Endpoints of the proxy.
#[derive(Clone, Copy, Debug, PartialEq, Eq, Structural)]
pub enum Route {
    Ping,
    Token,
    NotFound,
}

/// The endpoint a request path names.
pub open spec fn route_named(path: Seq<char>) -> Route {
    if path == "/oauth/ping"@ {
        Route::Ping
    } else if path == "/oauth/token"@ {
        Route::Token
    } else {
        Route::NotFound
    }
}

/// The endpoint a request path names.
pub fn route_of(path: &str) -> (r: Route)
    ensures
        r == route_named(path@),
{
    if same_text(path, "/oauth/ping") {
        Route::Ping
    } else if same_text(path, "/oauth/token") {
        Route::Token
    } else {
        Route::NotFound
    }
}

/// Outcome of checking a request's API key.
#[derive(Clone, Copy, Debug, PartialEq, Eq, Structural)]
pub enum KeyCheck {
    /// The request carries no key.
    Missing,
    /// The key differs from the stored one.
    Unauthorized,
    /// The key is the stored one.
    Authorized,
}

/// Checks the API key a request carries against the stored key.
pub fn check_api_key(provided: Option<&str>, stored: &str) -> (r: KeyCheck)
    ensures
        r == match provided {
            None => KeyCheck::Missing,
            Some(k) => if k@ == stored@ {
                KeyCheck::Authorized
            } else {
                KeyCheck::Unauthorized
            },
        },
{
    match provided {
        None => KeyCheck::Missing,
        Some(k) => if same_text(k, stored) {
            KeyCheck::Authorized
        } else {
            KeyCheck::Unauthorized
        },
    }
}

/// Whether the client id a request names is the stored one; secrets are
/// handed out only to that client.
pub fn client_matches(requested: &str, stored: &str) -> (r: bool)
    ensures
        r == (requested@ == stored@),
{
    same_text(requested, stored)
}

/// The credentials handed to an authorised client.
#[derive(Debug)]
pub struct Secrets {
    pub client_id: String,
    pub client_secret: String,
    pub refresh_token: String,
}

impl Secrets {
    /// Secrets from the client id, client secret and refresh token, in
    /// that order.
    pub fn from_values(values: &[String; 3]) -> (r: Secrets)
        ensures
            r.client_id@ == values[0]@,
            r.client_secret@ == values[1]@,
            r.refresh_token@ == values[2]@,
    {
        Secrets {
            client_id: values[0].clone(),
            client_secret: values[1].clone(),
            refresh_token: values[2].clone(),
        }
    }
}

} // verus!
