use vstd::prelude::*;

use crate::attempt::{AuthRequest, AuthState};
use crate::config::ClientSettings;
use crate::finish::FinishLoginError;

verus! {

/// Where a callback stands: which answer of the web layer it waits for.
#[derive(Debug, Clone, PartialEq, Eq)]
pub enum Stage {
    /// Waits for the pending attempt, removed from the session.
    AwaitingState,
    /// Waits for the token response; `nonce` is the attempt's.
    AwaitingToken { nonce: String },
    /// Waits for the verification of the ID token.
    AwaitingClaims,
    /// Waits for the hash of the access token; `expected` is the ID token's `at_hash` claim.
    AwaitingAccessTokenHash { expected: String },
    /// Waits for the user data to be written to the session.
    AwaitingStore,
    /// The user is logged in.
    Finished,
    /// The callback was rejected; nothing more happens.
    Failed,
}

/// What the web layer reports back after carrying out an action.
#[derive(Debug, PartialEq, Eq)]
pub enum Event {
    /// The attempt removed from the session: `None` if there was none, `Err` if it could not
    /// be decoded.
    StateTaken(Option<Result<AuthState, String>>),
    /// The token response: `Ok(b)` where `b` says whether it holds an ID token.
    TokenReceived(Result<bool, String>),
    /// The verified ID token's `at_hash` claim, if any, or why verification failed.
    IdTokenChecked(Result<Option<String>, String>),
    /// The hash of the access token, or why it could not be computed.
    AccessTokenHashed(Result<String, String>),
    /// Whether the user data was written to the session.
    UserDataStored(Result<(), String>),
}

/// What the web layer is asked to do next.
#[derive(Debug, Clone, PartialEq, Eq)]
pub enum Action {
    /// Remove the pending attempt from the session under `key` and report it.
    TakeState { key: String },
    /// Exchange the authorization code for tokens, sending the PKCE verifier.
    ExchangeCode { code: String, pkce_code_verifier: String },
    /// Verify the ID token's signature and claims, expecting this nonce.
    VerifyIdToken { nonce: String },
    /// Hash the access token with the ID token's signing algorithm.
    HashAccessToken,
    /// Write the tokens and claims to the session under `key`.
    StoreUserData { key: String },
    /// Answer with a redirect (302) to `location`.
    Redirect { location: String },
    /// Answer with this error.
    Fail(FinishLoginError),
    /// Do nothing: the event came out of turn.
    Halt,
}

/// One callback of the provider, from the parameters it brought to its answer.
#[derive(Debug, Clone, PartialEq, Eq)]
pub struct FinishLogin {
    pub stage: Stage,
    /// Authorization code the provider handed back.
    pub code: String,
    /// `state` the provider handed back.
    pub state: String,
    /// Session key of the user data.
    pub data_key: String,
    /// Where the user agent goes once logged in.
    pub post_auth_url: String,
}

/// `m` moved to `stage`, with everything else kept.
pub open spec fn with_stage(m: FinishLogin, stage: Stage) -> FinishLogin {
    FinishLogin { stage, ..m }
}

/// `m` ends with the error `e`.
pub open spec fn fail(m: FinishLogin, e: FinishLoginError) -> (FinishLogin, Action) {
    (with_stage(m, Stage::Failed), Action::Fail(e))
}

/// The machine's transitions. Each check fails closed: a failure ends in `Failed`, which
/// only ever answers `Halt`.
pub open spec fn next(m: FinishLogin, e: Event) -> (FinishLogin, Action) {
    match (m.stage, e) {
        (Stage::AwaitingState, Event::StateTaken(taken)) => match taken {
            Some(Ok(a)) => if a.csrf_token@ == m.state@ {
                (
                    with_stage(m, Stage::AwaitingToken { nonce: a.nonce }),
                    Action::ExchangeCode { code: m.code, pkce_code_verifier: a.pkce_code_verifier },
                )
            } else {
                fail(m, FinishLoginError::InvalidState)
            },
            _ => fail(m, FinishLoginError::MissingState),
        },
        (Stage::AwaitingToken { nonce }, Event::TokenReceived(r)) => match r {
            Ok(has_id_token) => if has_id_token {
                (with_stage(m, Stage::AwaitingClaims), Action::VerifyIdToken { nonce })
            } else {
                fail(m, FinishLoginError::MissingIdToken)
            },
            Err(msg) => fail(m, FinishLoginError::FailedRequestToken(msg)),
        },
        (Stage::AwaitingClaims, Event::IdTokenChecked(r)) => match r {
            Ok(Some(expected)) => (
                with_stage(m, Stage::AwaitingAccessTokenHash { expected }),
                Action::HashAccessToken,
            ),
            Ok(None) => (with_stage(m, Stage::AwaitingStore), Action::StoreUserData { key: m.data_key }),
            Err(msg) => fail(m, FinishLoginError::InvalidIdToken(msg)),
        },
        (Stage::AwaitingAccessTokenHash { expected }, Event::AccessTokenHashed(r)) => match r {
            Ok(actual) => if actual@ == expected@ {
                (with_stage(m, Stage::AwaitingStore), Action::StoreUserData { key: m.data_key })
            } else {
                fail(m, FinishLoginError::InvalidAccessTokenHash)
            },
            Err(msg) => fail(m, FinishLoginError::CreateAccessTokenHash(msg)),
        },
        (Stage::AwaitingStore, Event::UserDataStored(r)) => match r {
            Ok(_) => (with_stage(m, Stage::Finished), Action::Redirect { location: m.post_auth_url }),
            Err(msg) => fail(m, FinishLoginError::SessionInsert(msg)),
        },
        _ => (with_stage(m, Stage::Failed), Action::Halt),
    }
}

/// Starts handling the provider's callback: the first action takes the pending attempt out
/// of the session, so that it is consumed whatever follows.
pub fn finish_login(settings: &ClientSettings, params: AuthRequest) -> (r: (FinishLogin, Action))
    ensures
        r.0 == (FinishLogin {
            stage: Stage::AwaitingState,
            code: params.code,
            state: params.state,
            data_key: settings.session_keys.data,
            post_auth_url: settings.post_auth_url,
        }),
        r.1 == (Action::TakeState { key: settings.session_keys.request }),
{
    let m = FinishLogin {
        stage: Stage::AwaitingState,
        code: params.code,
        state: params.state,
        data_key: settings.session_keys.data.clone(),
        post_auth_url: settings.post_auth_url.clone(),
    };
    (m, Action::TakeState { key: settings.session_keys.request.clone() })
}

impl FinishLogin {
    fn fail(&mut self, e: FinishLoginError) -> (r: Action)
        ensures
            (*final(self), r) == fail(*old(self), e),
    {
        self.stage = Stage::Failed;
        Action::Fail(e)
    }

    fn advance(&mut self, stage: Stage, action: Action) -> (r: Action)
        ensures
            *final(self) == with_stage(*old(self), stage),
            r == action,
    {
        self.stage = stage;
        action
    }

    /// Takes the web layer's report on the last action and says what to do next.
    pub fn step(&mut self, event: Event) -> (r: Action)
        ensures
            (*final(self), r) == next(*old(self), event),
    {
        match event {
            Event::StateTaken(taken) => {
                if !matches!(self.stage, Stage::AwaitingState) {
                    return self.advance(Stage::Failed, Action::Halt);
                }
                match taken {
                    Some(Ok(a)) => {
                        if a.csrf_token == self.state {
                            let code = self.code.clone();
                            self.advance(
                                Stage::AwaitingToken { nonce: a.nonce },
                                Action::ExchangeCode { code, pkce_code_verifier: a.pkce_code_verifier },
                            )
                        } else {
                            self.fail(FinishLoginError::InvalidState)
                        }
                    },
                    _ => self.fail(FinishLoginError::MissingState),
                }
            },
            Event::TokenReceived(r) => {
                let nonce = match &self.stage {
                    Stage::AwaitingToken { nonce } => nonce.clone(),
                    _ => {
                        return self.advance(Stage::Failed, Action::Halt);
                    },
                };
                match r {
                    Ok(has_id_token) => {
                        if has_id_token {
                            self.advance(Stage::AwaitingClaims, Action::VerifyIdToken { nonce })
                        } else {
                            self.fail(FinishLoginError::MissingIdToken)
                        }
                    },
                    Err(msg) => self.fail(FinishLoginError::FailedRequestToken(msg)),
                }
            },
            Event::IdTokenChecked(r) => {
                if !matches!(self.stage, Stage::AwaitingClaims) {
                    return self.advance(Stage::Failed, Action::Halt);
                }
                match r {
                    Ok(Some(expected)) => self.advance(
                        Stage::AwaitingAccessTokenHash { expected },
                        Action::HashAccessToken,
                    ),
                    Ok(None) => {
                        let key = self.data_key.clone();
                        self.advance(Stage::AwaitingStore, Action::StoreUserData { key })
                    },
                    Err(msg) => self.fail(FinishLoginError::InvalidIdToken(msg)),
                }
            },
            Event::AccessTokenHashed(r) => {
                let expected = match &self.stage {
                    Stage::AwaitingAccessTokenHash { expected } => expected.clone(),
                    _ => {
                        return self.advance(Stage::Failed, Action::Halt);
                    },
                };
                match r {
                    Ok(actual) => {
                        if actual == expected {
                            let key = self.data_key.clone();
                            self.advance(Stage::AwaitingStore, Action::StoreUserData { key })
                        } else {
                            self.fail(FinishLoginError::InvalidAccessTokenHash)
                        }
                    },
                    Err(msg) => self.fail(FinishLoginError::CreateAccessTokenHash(msg)),
                }
            },
            Event::UserDataStored(r) => {
                if !matches!(self.stage, Stage::AwaitingStore) {
                    return self.advance(Stage::Failed, Action::Halt);
                }
                match r {
                    Ok(_) => {
                        let location = self.post_auth_url.clone();
                        self.advance(Stage::Finished, Action::Redirect { location })
                    },
                    Err(msg) => self.fail(FinishLoginError::SessionInsert(msg)),
                }
            },
        }
    }
}

} // verus!
