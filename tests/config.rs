use actix_toolbox::{
    FinishLoginError, LoggingMiddlewareConfig, SessionKeys, LOG_PATTERN_ACTIX_NGINX_LIKE,
};

#[test]
fn session_keys_default() {
    let k = SessionKeys::default();
    assert_eq!(k.request, "oidc_request");
    assert_eq!(k.data, "oidc_data");
}

#[test]
fn logging_config_default() {
    let c = LoggingMiddlewareConfig::default();
    assert_eq!(c.pattern, LOG_PATTERN_ACTIX_NGINX_LIKE);
    assert_eq!(c.logging_target, "requests");
}

#[test]
fn error_messages() {
    let cases = vec![
        (FinishLoginError::MissingState, "State is missing from user session"),
        (FinishLoginError::InvalidState, "State in user session is invalid"),
        (
            FinishLoginError::FailedRequestToken("boom".to_string()),
            "Failed to request token: boom",
        ),
        (FinishLoginError::MissingIdToken, "Provider didn't respond with an ID token"),
        (
            FinishLoginError::InvalidIdToken("bad".to_string()),
            "The ID token didn't pass the verification: bad",
        ),
        (
            FinishLoginError::CreateAccessTokenHash("alg".to_string()),
            "Couldn't generate the access token's hash: alg",
        ),
        (FinishLoginError::InvalidAccessTokenHash, "The access token's hash doesn't match"),
        (
            FinishLoginError::SessionInsert("full".to_string()),
            "Failed to set token in user session: full",
        ),
    ];
    for (e, m) in cases {
        assert_eq!(e.message(), m);
    }
}
