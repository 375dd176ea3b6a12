use actix_toolbox::{
    login, new_auth_attempt, query_carries_attempt, AuthAttempt, AuthState, ClientSettings,
    SessionKeys,
};

fn settings() -> ClientSettings {
    ClientSettings {
        post_auth_url: "/".to_string(),
        scopes: vec![],
        session_keys: SessionKeys::default(),
    }
}

fn attempt() -> AuthAttempt {
    AuthAttempt {
        state: AuthState {
            csrf_token: "S1".to_string(),
            pkce_code_verifier: "V1".to_string(),
            nonce: "N1".to_string(),
        },
        pkce_code_challenge: "C1".to_string(),
    }
}

fn pairs(p: &[(&str, &str)]) -> Vec<(String, String)> {
    p.iter().map(|(k, v)| (k.to_string(), v.to_string())).collect()
}

#[test]
fn login_stores_attempt_and_redirects() {
    let url = "https://idp.example/auth?state=S1&nonce=N1&code_challenge=C1&code_challenge_method=S256";
    let action = login(&settings(), attempt(), url.to_string()).unwrap();
    assert_eq!(action.session_key, "oidc_request");
    assert_eq!(action.state, attempt().state);
    assert_eq!(action.location, url);
}

#[test]
fn login_refuses_url_with_other_state() {
    let url = "https://idp.example/auth?state=S2&nonce=N1&code_challenge=C1&code_challenge_method=S256";
    assert_eq!(login(&settings(), attempt(), url.to_string()), None);
}

#[test]
fn login_refuses_url_without_nonce() {
    let url = "https://idp.example/auth?state=S1&code_challenge=C1&code_challenge_method=S256";
    assert_eq!(login(&settings(), attempt(), url.to_string()), None);
}

#[test]
fn login_refuses_plain_challenge() {
    let url = "https://idp.example/auth?state=S1&nonce=N1&code_challenge=C1&code_challenge_method=plain";
    assert_eq!(login(&settings(), attempt(), url.to_string()), None);
}

#[test]
fn login_refuses_text_that_is_no_url() {
    assert_eq!(login(&settings(), attempt(), "not a url".to_string()), None);
}

#[test]
fn login_reads_percent_encoded_query() {
    let mut a = attempt();
    a.state.csrf_token = "a b".to_string();
    let url = "https://idp.example/auth?state=a%20b&nonce=N1&code_challenge=C1&code_challenge_method=S256";
    assert!(login(&settings(), a, url.to_string()).is_some());
}

#[test]
fn query_with_conflicting_state_is_refused() {
    let q = pairs(&[
        ("state", "S1"),
        ("nonce", "N1"),
        ("code_challenge", "C1"),
        ("code_challenge_method", "S256"),
        ("state", "S2"),
    ]);
    assert!(!query_carries_attempt(&q, &attempt()));
}

#[test]
fn query_in_any_order_is_accepted() {
    let q = pairs(&[
        ("code_challenge_method", "S256"),
        ("scope", "openid"),
        ("nonce", "N1"),
        ("code_challenge", "C1"),
        ("state", "S1"),
    ]);
    assert!(query_carries_attempt(&q, &attempt()));
}

#[test]
fn fresh_attempt_is_base64url() {
    let a = new_auth_attempt();
    for s in [&a.state.csrf_token, &a.state.nonce, &a.state.pkce_code_verifier] {
        assert!(s.chars().all(|c| c.is_ascii_alphanumeric() || c == '-' || c == '_'));
    }
}
