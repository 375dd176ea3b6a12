use vstd::prelude::*;

use crate::attempt::{
    has_param, is_login_action, pkce_challenge_s256, query_of, url_carries_attempt, AuthAttempt,
    AuthState, LoginAction,
};
use crate::config::ClientSettings;
use crate::finish::FinishLoginError;
use crate::flow::{next, Action, Event, FinishLogin, Stage};
use crate::session::{after_login, after_take, take_event, PendingAttempts};

verus! {

/// The actions the machine answers to a run of events, and where it ends.
pub open spec fn run(m: FinishLogin, events: Seq<Event>) -> (FinishLogin, Seq<Action>)
    decreases events.len(),
{
    if events.len() == 0 {
        (m, Seq::empty())
    } else {
        let (m1, a) = next(m, events[0]);
        let (m2, rest) = run(m1, events.drop_first());
        (m2, seq![a] + rest)
    }
}

proof fn lemma_run_cons(m: FinishLogin, e: Event, later: Seq<Event>)
    ensures
        run(m, seq![e] + later).1 == seq![next(m, e).1] + run(next(m, e).0, later).1,
{
    let events = seq![e] + later;
    assert(events[0] == e);
    assert(events.drop_first() =~= later);
}

/// Once a callback has failed or finished, every further event is answered with `Halt`.
pub proof fn lemma_ended_only_halts(m: FinishLogin, events: Seq<Event>)
    requires
        m.stage == Stage::Failed || m.stage == Stage::Finished,
    ensures
        forall|i: int| 0 <= i < run(m, events).1.len() ==> run(m, events).1[i] == Action::Halt,
    decreases events.len(),
{
    if events.len() > 0 {
        let m1 = next(m, events[0]).0;
        lemma_ended_only_halts(m1, events.drop_first());
        let rest = run(m1, events.drop_first()).1;
        assert forall|i: int| 0 <= i < run(m, events).1.len() implies run(m, events).1[i]
            == Action::Halt by {
            if i > 0 {
                assert(run(m, events).1[i] == rest[i - 1]);
            }
        }
    }
}

/// A callback whose `state` differs from the pending attempt's csrf token is rejected with
/// `InvalidState`, and whatever is reported afterwards, the code is never exchanged.
pub proof fn lemma_forged_state_never_exchanges(m: FinishLogin, a: AuthState, later: Seq<Event>)
    requires
        m.stage == Stage::AwaitingState,
        a.csrf_token@ != m.state@,
    ensures
        run(m, seq![Event::StateTaken(Some(Ok(a)))] + later).1[0] == Action::Fail(
            FinishLoginError::InvalidState,
        ),
        forall|i: int|
            0 <= i < run(m, seq![Event::StateTaken(Some(Ok(a)))] + later).1.len() ==> !(run(
                m,
                seq![Event::StateTaken(Some(Ok(a)))] + later,
            ).1[i] is ExchangeCode),
{
    let e = Event::StateTaken(Some(Ok(a)));
    lemma_run_cons(m, e, later);
    lemma_ended_only_halts(next(m, e).0, later);
}

/// A callback for a session that holds no pending attempt is rejected with `MissingState`.
pub proof fn lemma_no_attempt_is_missing_state(
    s: PendingAttempts,
    settings: ClientSettings,
    m: FinishLogin,
)
    requires
        !s.contains_key(settings.session_keys.request@),
        m.stage == Stage::AwaitingState,
    ensures
        next(m, take_event(s, settings.session_keys.request@)).1 == Action::Fail(
            FinishLoginError::MissingState,
        ),
{
}

/// Taking the pending attempt consumes it: afterwards the session holds none under that key.
pub proof fn lemma_take_consumes(s: PendingAttempts, key: Seq<char>)
    ensures
        !after_take(s, key).contains_key(key),
        forall|k: Seq<char>| k != key ==> after_take(s, key).contains_key(k) == s.contains_key(k),
{
}

/// A second login before the callback replaces the first attempt: a callback that carries
/// the first attempt's csrf token is then rejected with `InvalidState`.
pub proof fn lemma_second_login_invalidates_first(
    s: PendingAttempts,
    settings: ClientSettings,
    a1: AuthState,
    url1: Seq<char>,
    l1: LoginAction,
    a2: AuthState,
    url2: Seq<char>,
    l2: LoginAction,
    m: FinishLogin,
)
    requires
        is_login_action(l1, settings, a1, url1),
        is_login_action(l2, settings, a2, url2),
        a1.csrf_token@ != a2.csrf_token@,
        m.stage == Stage::AwaitingState,
        m.state@ == a1.csrf_token@,
    ensures
        next(
            m,
            take_event(after_login(after_login(s, l1), l2), settings.session_keys.request@),
        ).1 == Action::Fail(FinishLoginError::InvalidState),
{
    let key = settings.session_keys.request@;
    assert(after_login(after_login(s, l1), l2)[key] == a2);
}

/// A failed step ends the callback: the action is `fail` and no later event leads to the
/// user data being stored.
proof fn lemma_failure_never_stores(m: FinishLogin, e: Event, later: Seq<Event>)
    requires
        next(m, e).0.stage == Stage::Failed,
    ensures
        run(m, seq![e] + later).1[0] == next(m, e).1,
        forall|i: int|
            0 <= i < run(m, seq![e] + later).1.len() ==> !(run(m, seq![e] + later).1[i] is StoreUserData),
{
    lemma_run_cons(m, e, later);
    lemma_ended_only_halts(next(m, e).0, later);
}

/// The ID token is verified against the nonce of the attempt that the callback consumed, and
/// a token that fails verification (a nonce that differs, a bad signature) ends the callback
/// with `InvalidIdToken`: no user data is ever stored for it.
pub proof fn lemma_id_token_checked_against_attempt_nonce(
    m: FinishLogin,
    a: AuthState,
    msg: String,
    later: Seq<Event>,
)
    requires
        m.stage == Stage::AwaitingState,
        a.csrf_token@ == m.state@,
    ensures
        ({
            let events = seq![
                Event::StateTaken(Some(Ok(a))),
                Event::TokenReceived(Ok(true)),
                Event::IdTokenChecked(Err(msg)),
            ] + later;
            let actions = run(m, events).1;
            &&& actions[0] == Action::ExchangeCode {
                code: m.code,
                pkce_code_verifier: a.pkce_code_verifier,
            }
            &&& actions[1] == Action::VerifyIdToken { nonce: a.nonce }
            &&& actions[2] == Action::Fail(FinishLoginError::InvalidIdToken(msg))
            &&& forall|i: int| 0 <= i < actions.len() ==> !(actions[i] is StoreUserData)
        }),
{
    let e0 = Event::StateTaken(Some(Ok(a)));
    let e1 = Event::TokenReceived(Ok(true));
    let e2 = Event::IdTokenChecked(Err(msg));
    let events = seq![e0, e1, e2] + later;
    let m1 = next(m, e0).0;
    let m2 = next(m1, e1).0;
    let tail2 = seq![e2] + later;
    let tail1 = seq![e1] + tail2;
    assert(events =~= seq![e0] + tail1);
    lemma_run_cons(m, e0, tail1);
    lemma_run_cons(m1, e1, tail2);
    lemma_failure_never_stores(m2, e2, later);
}

/// An access token whose hash differs from the ID token's `at_hash` claim ends the callback
/// with `InvalidAccessTokenHash`, and no user data is ever stored for it.
pub proof fn lemma_hash_mismatch_never_stores(
    m: FinishLogin,
    actual: String,
    later: Seq<Event>,
)
    requires
        m.stage matches Stage::AwaitingAccessTokenHash { expected } && actual@ != expected@,
    ensures
        run(m, seq![Event::AccessTokenHashed(Ok(actual))] + later).1[0] == Action::Fail(
            FinishLoginError::InvalidAccessTokenHash,
        ),
        forall|i: int|
            0 <= i < run(m, seq![Event::AccessTokenHashed(Ok(actual))] + later).1.len() ==> !(run(
                m,
                seq![Event::AccessTokenHashed(Ok(actual))] + later,
            ).1[i] is StoreUserData),
{
    lemma_failure_never_stores(m, Event::AccessTokenHashed(Ok(actual)), later);
}

proof fn lemma_run_len(m: FinishLogin, events: Seq<Event>)
    ensures
        run(m, events).1.len() == events.len(),
    decreases events.len(),
{
    if events.len() > 0 {
        lemma_run_len(next(m, events[0]).0, events.drop_first());
    }
}

proof fn lemma_run_index(m: FinishLogin, events: Seq<Event>, i: int)
    requires
        0 <= i < events.len(),
    ensures
        run(m, events).1[i] == (if i == 0 {
            next(m, events[0]).1
        } else {
            run(next(m, events[0]).0, events.drop_first()).1[i - 1]
        }),
{
    lemma_run_len(m, events);
    lemma_run_len(next(m, events[0]).0, events.drop_first());
}

/// No user data is stored once the data is being written or the callback has ended.
proof fn lemma_settled_never_stores(m: FinishLogin, events: Seq<Event>)
    requires
        m.stage == Stage::AwaitingStore || m.stage == Stage::Finished || m.stage == Stage::Failed,
    ensures
        forall|i: int| 0 <= i < run(m, events).1.len() ==> !(run(m, events).1[i] is StoreUserData),
    decreases events.len(),
{
    if events.len() > 0 {
        let m1 = next(m, events[0]).0;
        lemma_settled_never_stores(m1, events.drop_first());
        lemma_run_len(m, events);
        assert forall|i: int| 0 <= i < run(m, events).1.len() implies !(run(
            m,
            events,
        ).1[i] is StoreUserData) by {
            lemma_run_index(m, events, i);
        }
    }
}

/// The events before step `i` show every check of a callback with this `state` passing, in
/// order, with the user data stored right after the last one.
pub open spec fn checks_passed(state: Seq<char>, events: Seq<Event>, i: int) -> bool {
    &&& events[0] matches Event::StateTaken(Some(Ok(a))) && a.csrf_token@ == state
    &&& events[1] == Event::TokenReceived(Ok(true))
    &&& match events[2] {
        Event::IdTokenChecked(Ok(None)) => i == 2,
        Event::IdTokenChecked(Ok(Some(expected))) => i == 3 && match events[3] {
            Event::AccessTokenHashed(Ok(actual)) => actual@ == expected@,
            _ => false,
        },
        _ => false,
    }
}

/// The user data is stored only after every check has passed, in order, each in the step
/// right before: the csrf token matched, the code was exchanged for a response that holds an
/// ID token, the ID token passed verification and, where it claims an `at_hash`, the access
/// token's hash matched that claim.
pub proof fn lemma_store_only_after_all_checks(m: FinishLogin, events: Seq<Event>, i: int)
    requires
        m.stage == Stage::AwaitingState,
        0 <= i < run(m, events).1.len(),
        run(m, events).1[i] is StoreUserData,
    ensures
        checks_passed(m.state@, events, i),
{
    lemma_run_len(m, events);
    let e0 = events[0];
    let m1 = next(m, e0).0;
    let t1 = events.drop_first();
    lemma_run_index(m, events, i);
    if !(e0 matches Event::StateTaken(Some(Ok(a))) && a.csrf_token@ == m.state@) {
        lemma_settled_never_stores(m1, t1);
        lemma_run_len(m1, t1);
        assert(false);
    }
    lemma_run_len(m1, t1);
    lemma_run_index(m1, t1, i - 1);
    let e1 = t1[0];
    let m2 = next(m1, e1).0;
    let t2 = t1.drop_first();
    assert(e1 == events[1]);
    if e1 != Event::TokenReceived(Ok(true)) {
        lemma_settled_never_stores(m2, t2);
        lemma_run_len(m2, t2);
        assert(false);
    }
    lemma_run_len(m2, t2);
    lemma_run_index(m2, t2, i - 2);
    let e2 = t2[0];
    let m3 = next(m2, e2).0;
    let t3 = t2.drop_first();
    assert(e2 == events[2]);
    if !(e2 matches Event::IdTokenChecked(Ok(_))) {
        lemma_settled_never_stores(m3, t3);
        lemma_run_len(m3, t3);
        assert(false);
    }
    if e2 == Event::IdTokenChecked(Ok(None)) {
        if i > 2 {
            lemma_settled_never_stores(m3, t3);
            lemma_run_len(m3, t3);
            lemma_run_index(m3, t3, i - 3);
        }
    } else {
        lemma_run_len(m3, t3);
        lemma_run_index(m3, t3, i - 3);
        let e3 = t3[0];
        let m4 = next(m3, e3).0;
        let t4 = t3.drop_first();
        assert(e3 == events[3]);
        lemma_settled_never_stores(m4, t4);
        lemma_run_len(m4, t4);
        if i > 3 {
            lemma_run_index(m4, t4, i - 4);
        }
    }
}

/// A login that goes ahead stores exactly the secrets that its redirect hands the provider:
/// the URL's `state` is the stored csrf token, its `nonce` the stored nonce, and its
/// `code_challenge` the S256 challenge of the stored verifier, with method `S256`.
pub proof fn lemma_login_url_carries_stored_secrets(
    settings: ClientSettings,
    attempt: AuthAttempt,
    url: Seq<char>,
    l: LoginAction,
)
    requires
        attempt.pkce_code_challenge@ == pkce_challenge_s256(attempt.state.pkce_code_verifier@),
        url_carries_attempt(url, attempt),
        is_login_action(l, settings, attempt.state, url),
    ensures
        l.location@ == url,
        query_of(url) is Some,
        has_param(query_of(url)->Some_0, "state"@, l.state.csrf_token@),
        has_param(query_of(url)->Some_0, "nonce"@, l.state.nonce@),
        has_param(
            query_of(url)->Some_0,
            "code_challenge"@,
            pkce_challenge_s256(l.state.pkce_code_verifier@),
        ),
        has_param(query_of(url)->Some_0, "code_challenge_method"@, "S256"@),
{
}

} // verus!
