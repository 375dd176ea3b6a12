use vstd::prelude::*;

verus! {

/// Keys under which the login flow keeps its data in the user's session.
#[derive(Debug, Clone, PartialEq, Eq)]
pub struct SessionKeys {
    /// Key of the secrets of the login attempt in progress (csrf token, pkce verifier, nonce).
    pub request: String,
    /// Key of the user data written once a login has finished.
    pub data: String,
}

impl Default for SessionKeys {
    fn default() -> (r: Self)
        ensures
            r.request@ == "oidc_request"@,
            r.data@ == "oidc_data"@,
    {
        SessionKeys { request: String::from_str("oidc_request"), data: String::from_str("oidc_data") }
    }
}

/// What the login handlers need to know of the deployment, besides the provider client.
#[derive(Debug, Clone, PartialEq, Eq)]
pub struct ClientSettings {
    /// Where the user agent is sent once a login has finished.
    pub post_auth_url: String,
    /// Scopes requested from the provider.
    pub scopes: Vec<String>,
    /// Keys in the user's session.
    pub session_keys: SessionKeys,
}

} // verus!
