//! Server side of the OpenID Connect authorization code flow with PKCE, csrf state and
//! nonce checks, written as a verified state machine that a web layer drives.
pub mod attempt;
pub mod config;
pub mod finish;
pub mod flow;
pub mod laws;
pub mod logger;
pub mod session;

pub use attempt::{
    login, new_auth_attempt, query_carries_attempt, AuthAttempt, AuthRequest, AuthState, LoginAction,
};
pub use config::{ClientSettings, SessionKeys};
pub use finish::{compute_access_token_hash, FinishLoginError, SigningAlg};
pub use flow::{finish_login, Action, Event, FinishLogin, Stage};
pub use logger::{LoggingMiddlewareConfig, LOG_PATTERN_ACTIX_NGINX_LIKE};
