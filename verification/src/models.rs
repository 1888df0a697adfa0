//! Plain configuration and credential records consumed by the collaborators.

use vstd::prelude::*;

use crate::listing::{json_as_u64, json_get, parse_json, string_field};

verus! {

/// The credentials and identifiers the surrounding program needs to talk to
/// the social API and the repository-hosting API. Immutable after load.
#[derive(Clone, Debug)]
pub struct Config {
    pub username: String,
    pub password: String,
    pub user_agent: String,
    pub client_id: String,
    pub client_secret: String,
    pub github_username: String,
}

/// The typed response of the social API's login endpoint.
#[derive(Debug)]
pub struct AccessTokenResponse {
    pub token: String,
    pub token_type: String,
    pub expires_in: u64,
    pub scope: String,
}

impl AccessTokenResponse {
    /// Read the record out of the login endpoint's JSON body; the credential
    /// stands under `access_token`, or under `token` where a body already
    /// uses the record's own field name. The JSON values are opaque to the
    /// verifier; absence of any field yields nothing.
    pub fn from_json(body: &str) -> (r: Option<Self>) {
        let root = match parse_json(body) {
            Some(v) => v,
            None => {
                return None;
            },
        };
        let token = match string_field(&root, "access_token") {
            Some(s) => Some(s),
            None => string_field(&root, "token"),
        };
        let token = match token {
            Some(s) => s,
            None => {
                return None;
            },
        };
        let token_type = match string_field(&root, "token_type") {
            Some(s) => s,
            None => {
                return None;
            },
        };
        let expires_in = match json_get(&root, "expires_in") {
            Some(v) => match json_as_u64(v) {
                Some(n) => n,
                None => {
                    return None;
                },
            },
            None => {
                return None;
            },
        };
        let scope = match string_field(&root, "scope") {
            Some(s) => s,
            None => {
                return None;
            },
        };
        Some(AccessTokenResponse { token, token_type, expires_in, scope })
    }
}

} // verus!
