use vstd::prelude::*;

use crate::attempt::{AuthRequest, AuthState};
use crate::config::ClientSettings;

verus! {

/// Why the provider's callback did not end in a login.
#[derive(Debug, Clone, PartialEq, Eq)]
pub enum FinishLoginError {
    /// No attempt is pending in the user's session, or it could not be read back.
    MissingState,
    /// The `state` handed back differs from the attempt's csrf token.
    InvalidState,
    /// The token request failed; the message says why.
    FailedRequestToken(String),
    /// The provider's token response holds no ID token.
    MissingIdToken,
    /// The ID token did not pass signature or claims verification; the message says why.
    InvalidIdToken(String),
    /// The access token's hash could not be computed; the message says why.
    CreateAccessTokenHash(String),
    /// The access token's hash differs from the one the ID token claims.
    InvalidAccessTokenHash,
    /// The user data could not be written to the session; the message says why.
    SessionInsert(String),
}

/// The sentence that describes an error.
pub open spec fn error_message(e: FinishLoginError) -> Seq<char> {
    match e {
        FinishLoginError::MissingState => "State is missing from user session"@,
        FinishLoginError::InvalidState => "State in user session is invalid"@,
        FinishLoginError::FailedRequestToken(m) => "Failed to request token: "@ + m@,
        FinishLoginError::MissingIdToken => "Provider didn't respond with an ID token"@,
        FinishLoginError::InvalidIdToken(m) => "The ID token didn't pass the verification: "@ + m@,
        FinishLoginError::CreateAccessTokenHash(m) => "Couldn't generate the access token's hash: "@
            + m@,
        FinishLoginError::InvalidAccessTokenHash => "The access token's hash doesn't match"@,
        FinishLoginError::SessionInsert(m) => "Failed to set token in user session: "@ + m@,
    }
}

/// `prefix` followed by `detail`.
fn prefixed(prefix: &str, detail: &String) -> (r: String)
    ensures
        r@ == prefix@ + detail@,
{
    let mut r = String::from_str(prefix);
    r.append(detail.as_str());
    r
}

impl FinishLoginError {
    /// A sentence for the log that says what went wrong.
    pub fn message(&self) -> (r: String)
        ensures
            r@ == error_message(*self),
    {
        match self {
            FinishLoginError::MissingState => String::from_str("State is missing from user session"),
            FinishLoginError::InvalidState => String::from_str("State in user session is invalid"),
            FinishLoginError::FailedRequestToken(m) => prefixed("Failed to request token: ", m),
            FinishLoginError::MissingIdToken => String::from_str(
                "Provider didn't respond with an ID token",
            ),
            FinishLoginError::InvalidIdToken(m) => prefixed(
                "The ID token didn't pass the verification: ",
                m,
            ),
            FinishLoginError::CreateAccessTokenHash(m) => prefixed(
                "Couldn't generate the access token's hash: ",
                m,
            ),
            FinishLoginError::InvalidAccessTokenHash => String::from_str(
                "The access token's hash doesn't match",
            ),
            FinishLoginError::SessionInsert(m) => prefixed(
                "Failed to set token in user session: ",
                m,
            ),
        }
    }
}

/// The algorithm that an ID token's header names as its signing algorithm (JWS `alg`).
#[derive(Debug, Clone, Copy, PartialEq, Eq, Structural)]
pub enum SigningAlg {
    HmacSha256,
    HmacSha384,
    HmacSha512,
    RsaSsaPkcs1V15Sha256,
    RsaSsaPkcs1V15Sha384,
    RsaSsaPkcs1V15Sha512,
    EcdsaP256Sha256,
    EcdsaP384Sha384,
    EcdsaP521Sha512,
    RsaSsaPssSha256,
    RsaSsaPssSha384,
    RsaSsaPssSha512,
    EdDsaEd25519,
    /// `none`: the token is not signed.
    Unsigned,
}

/// openidconnect's core JWS signing algorithms.
type A = openidconnect::core::CoreJwsSigningAlgorithm;

/// The `at_hash` of an access token for a signing algorithm: the left half of the token's
/// digest under the algorithm's hash, base64url-encoded without padding.
pub uninterp spec fn at_hash_of(access_token: Seq<char>, alg: SigningAlg) -> Seq<char>;

/// Relies on `openidconnect::AccessTokenHash::from_token` with openidconnect's core signing
/// algorithms: the hash depends on the token and the algorithm alone, and it fails only for
/// `none`, which has no hash.
#[verifier::external_body]
fn access_token_hash_of(access_token: &String, alg: SigningAlg) -> (r: Result<String, String>)
    ensures
        alg == SigningAlg::Unsigned <==> r is Err,
        r matches Ok(h) ==> h@ == at_hash_of(access_token@, alg),
{
    let alg = match alg {
        SigningAlg::HmacSha256 => A::HmacSha256, SigningAlg::HmacSha384 => A::HmacSha384,
        SigningAlg::HmacSha512 => A::HmacSha512, SigningAlg::EdDsaEd25519 => A::EdDsaEd25519,
        SigningAlg::RsaSsaPkcs1V15Sha256 => A::RsaSsaPkcs1V15Sha256, SigningAlg::Unsigned => A::None,
        SigningAlg::RsaSsaPkcs1V15Sha384 => A::RsaSsaPkcs1V15Sha384,
        SigningAlg::RsaSsaPkcs1V15Sha512 => A::RsaSsaPkcs1V15Sha512,
        SigningAlg::EcdsaP256Sha256 => A::EcdsaP256Sha256, SigningAlg::EcdsaP384Sha384 => A::EcdsaP384Sha384,
        SigningAlg::EcdsaP521Sha512 => A::EcdsaP521Sha512, SigningAlg::RsaSsaPssSha256 => A::RsaSsaPssSha256,
        SigningAlg::RsaSsaPssSha384 => A::RsaSsaPssSha384, SigningAlg::RsaSsaPssSha512 => A::RsaSsaPssSha512,
    };
    let token = openidconnect::AccessToken::new(access_token.clone());
    let r = openidconnect::AccessTokenHash::from_token(&token, &alg);
    r.map(|h| h.to_string()).map_err(|e| e.to_string())
}

/// Hashes the access token with the ID token's signing algorithm, as the `at_hash` claim
/// does. `alg` is the algorithm read from the ID token's header, or why it could not be read.
pub fn compute_access_token_hash(access_token: &String, alg: &Result<SigningAlg, String>) -> (r:
    Result<String, String>)
    ensures
        alg matches Err(e) ==> r == Err::<String, String>(*e),
        alg matches Ok(a) ==> (r is Ok <==> *a != SigningAlg::Unsigned),
        forall|a: SigningAlg, h: String|
            *alg == Ok::<SigningAlg, String>(a) && r == Ok::<String, String>(h) ==> h@ == at_hash_of(
                access_token@,
                a,
            ),
{
    match alg {
        Ok(a) => access_token_hash_of(access_token, *a),
        Err(e) => Err(e.clone()),
    }
}

} // verus!
