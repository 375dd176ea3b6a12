use vstd::prelude::*;

use crate::config::ClientSettings;

verus! {

/// The secrets of one login attempt, kept in the user's session between the redirect to the
/// provider and the provider's callback.
#[derive(Debug, Clone, PartialEq, Eq)]
pub struct AuthState {
    /// Value the provider must hand back as `state`.
    pub csrf_token: String,
    /// PKCE verifier sent along with the authorization code.
    pub pkce_code_verifier: String,
    /// Value the ID token's `nonce` claim must carry.
    pub nonce: String,
}

/// A fresh attempt: its secrets and the PKCE challenge derived from the verifier.
#[derive(Debug, Clone, PartialEq, Eq)]
pub struct AuthAttempt {
    /// The secrets that go to the session.
    pub state: AuthState,
    /// Challenge sent to the provider in the authorization URL (method S256).
    pub pkce_code_challenge: String,
}

/// Parameters of the provider's redirect back to the application.
#[derive(Debug, Clone, PartialEq, Eq)]
pub struct AuthRequest {
    /// Authorization code to exchange for tokens.
    pub code: String,
    /// Must equal the pending attempt's csrf token.
    pub state: String,
}

/// What the login handler does: store `state` in the session under `session_key`, then
/// redirect the user agent (temporarily) to `location`.
#[derive(Debug, Clone, PartialEq, Eq)]
pub struct LoginAction {
    pub session_key: String,
    pub state: AuthState,
    pub location: String,
}

/// A character of the base64url alphabet (RFC 4648, section 5); all of them are unreserved
/// in URLs and allowed in a PKCE verifier.
pub open spec fn is_base64url_char(c: char) -> bool {
    ||| 'A' <= c <= 'Z'
    ||| 'a' <= c <= 'z'
    ||| '0' <= c <= '9'
    ||| c == '-'
    ||| c == '_'
}

/// Every character of `s` is of the base64url alphabet.
pub open spec fn is_base64url(s: Seq<char>) -> bool {
    forall|i: int| 0 <= i < s.len() ==> is_base64url_char(#[trigger] s[i])
}

/// The S256 PKCE challenge of a verifier: base64url, unpadded, of the verifier's SHA-256.
pub uninterp spec fn pkce_challenge_s256(verifier: Seq<char>) -> Seq<char>;

/// Relies on `openidconnect::CsrfToken::new_random`: 16 bytes from the thread rng,
/// base64url-encoded without padding, hence 22 characters of that alphabet.
#[verifier::external_body]
fn random_csrf_token() -> (r: String)
    ensures
        r@.len() == 22,
        is_base64url(r@),
{
    openidconnect::CsrfToken::new_random().secret().clone()
}

/// Relies on `openidconnect::Nonce::new_random`: 16 bytes from the thread rng,
/// base64url-encoded without padding, hence 22 characters of that alphabet.
#[verifier::external_body]
fn random_nonce() -> (r: String)
    ensures
        r@.len() == 22,
        is_base64url(r@),
{
    openidconnect::Nonce::new_random().secret().clone()
}

/// Relies on `openidconnect::PkceCodeChallenge::new_random_sha256`: a verifier made of 32
/// bytes from the thread rng, base64url-encoded without padding (43 characters), and its S256
/// challenge. The result is (challenge, verifier).
#[verifier::external_body]
fn random_pkce_pair() -> (r: (String, String))
    ensures
        r.1@.len() == 43,
        is_base64url(r.1@),
        r.0@ == pkce_challenge_s256(r.1@),
{
    let (challenge, verifier) = openidconnect::PkceCodeChallenge::new_random_sha256();
    (challenge.as_str().to_string(), verifier.secret().clone())
}

/// Draws the secrets of a new login attempt.
pub fn new_auth_attempt() -> (r: AuthAttempt)
    ensures
        r.state.csrf_token@.len() == 22,
        r.state.nonce@.len() == 22,
        r.state.pkce_code_verifier@.len() == 43,
        is_base64url(r.state.csrf_token@),
        is_base64url(r.state.nonce@),
        is_base64url(r.state.pkce_code_verifier@),
        r.pkce_code_challenge@ == pkce_challenge_s256(r.state.pkce_code_verifier@),
{
    let csrf_token = random_csrf_token();
    let (pkce_code_challenge, pkce_code_verifier) = random_pkce_pair();
    let nonce = random_nonce();
    AuthAttempt { state: AuthState { csrf_token, pkce_code_verifier, nonce }, pkce_code_challenge }
}

/// The query of a URL as decoded (name, value) pairs in order, or `None` where the text does
/// not parse as a URL.
pub uninterp spec fn query_of(url: Seq<char>) -> Option<Seq<(Seq<char>, Seq<char>)>>;

/// The text of each (name, value) pair.
pub open spec fn pairs_view(v: Seq<(String, String)>) -> Seq<(Seq<char>, Seq<char>)> {
    v.map_values(|p: (String, String)| (p.0@, p.1@))
}

/// Relies on `url::Url::parse` (re-exported by openidconnect) and `Url::query_pairs`: the
/// URL's query as percent-decoded pairs, in their order, or `None` where parsing fails.
#[verifier::external_body]
fn url_query(url: &String) -> (r: Option<Vec<(String, String)>>)
    ensures
        match query_of(url@) {
            None => r is None,
            Some(q) => r matches Some(v) && pairs_view(v@) == q,
        },
{
    match openidconnect::url::Url::parse(url) {
        Ok(u) => Some(u.query_pairs().map(|(k, v)| (k.into_owned(), v.into_owned())).collect()),
        Err(_) => None,
    }
}

/// The query names `key` at least once, always with `value`.
pub open spec fn has_param(q: Seq<(Seq<char>, Seq<char>)>, key: Seq<char>, value: Seq<char>) -> bool {
    &&& exists|i: int| 0 <= i < q.len() && #[trigger] q[i].0 == key
    &&& forall|i: int| 0 <= i < q.len() && #[trigger] q[i].0 == key ==> q[i].1 == value
}

/// The query hands the provider this attempt's csrf token as `state`, its nonce, and its S256
/// PKCE challenge.
pub open spec fn carries_attempt(q: Seq<(Seq<char>, Seq<char>)>, a: AuthAttempt) -> bool {
    &&& has_param(q, "state"@, a.state.csrf_token@)
    &&& has_param(q, "nonce"@, a.state.nonce@)
    &&& has_param(q, "code_challenge"@, a.pkce_code_challenge@)
    &&& has_param(q, "code_challenge_method"@, "S256"@)
}

/// The URL parses and its query carries the attempt's secrets.
pub open spec fn url_carries_attempt(url: Seq<char>, a: AuthAttempt) -> bool {
    match query_of(url) {
        Some(q) => carries_attempt(q, a),
        None => false,
    }
}

fn query_has_param(q: &Vec<(String, String)>, key: &str, value: &String) -> (r: bool)
    ensures
        r == has_param(pairs_view(q@), key@, value@),
{
    let wanted = String::from_str(key);
    let ghost pv = pairs_view(q@);
    let mut found = false;
    let mut i: usize = 0;
    while i < q.len()
        invariant
            0 <= i <= q.len(),
            wanted@ == key@,
            pv == pairs_view(q@),
            pv.len() == q@.len(),
            found == exists|j: int| 0 <= j < i && #[trigger] pv[j].0 == key@,
            forall|j: int| 0 <= j < i && #[trigger] pv[j].0 == key@ ==> pv[j].1 == value@,
        decreases q.len() - i,
    {
        let ghost k = i as int;
        assert(pv[k] == (q@[k].0@, q@[k].1@));
        let named = q[i].0 == wanted;
        if named {
            if !(q[i].1 == *value) {
                assert(pv[k].0 == key@ && pv[k].1 != value@);
                return false;
            }
            found = true;
        }
        assert(forall|j: int| 0 <= j < k + 1 ==> (#[trigger] pv[j].0 == key@ <==> (j < k && pv[j].0 == key@) || (j == k && named)));
        assert(found ==> exists|j: int| 0 <= j < k + 1 && #[trigger] pv[j].0 == key@) by {
            if named {
                assert(pv[k].0 == key@);
            }
        }
        i += 1;
    }
    found
}

/// Whether a query carries the attempt's secrets, on the pairs read from the URL.
pub fn query_carries_attempt(q: &Vec<(String, String)>, attempt: &AuthAttempt) -> (r: bool)
    ensures
        r == carries_attempt(pairs_view(q@), *attempt),
{
    let s256 = String::from_str("S256");
    query_has_param(q, "state", &attempt.state.csrf_token) && query_has_param(
        q,
        "nonce",
        &attempt.state.nonce,
    ) && query_has_param(q, "code_challenge", &attempt.pkce_code_challenge) && query_has_param(
        q,
        "code_challenge_method",
        &s256,
    )
}

/// `r` is what `login` plans for the attempt `state` and the authorization URL `url`.
pub open spec fn is_login_action(
    r: LoginAction,
    settings: ClientSettings,
    state: AuthState,
    url: Seq<char>,
) -> bool {
    &&& r.session_key@ == settings.session_keys.request@
    &&& r.state == state
    &&& r.location@ == url
}

/// Starts a login: the attempt's secrets go to the session under the request key, replacing
/// any attempt still pending there, and the user agent goes to the provider's authorization URL.
/// A URL that does not hand the provider this attempt's csrf token, nonce and S256 challenge is
/// refused (`None`): the callback could never match it.
pub fn login(settings: &ClientSettings, attempt: AuthAttempt, auth_url: String) -> (r: Option<
    LoginAction,
>)
    ensures
        r is Some <==> url_carries_attempt(auth_url@, attempt),
        r matches Some(l) ==> is_login_action(l, *settings, attempt.state, auth_url@),
{
    match url_query(&auth_url) {
        Some(q) => {
            if query_carries_attempt(&q, &attempt) {
                Some(
                    LoginAction {
                        session_key: settings.session_keys.request.clone(),
                        state: attempt.state,
                        location: auth_url,
                    },
                )
            } else {
                None
            }
        },
        None => None,
    }
}

} // verus!
