use vstd::prelude::*;

use crate::attempt::{AuthState, LoginAction};
use crate::flow::Event;

verus! {

/// The attempts that a user's session holds, by key. The session collaborator's `insert`
/// replaces what a key held; its `remove` hands the value back and deletes it.
pub type PendingAttempts = Map<Seq<char>, AuthState>;

/// The session after the login handler carried out `l`.
pub open spec fn after_login(s: PendingAttempts, l: LoginAction) -> PendingAttempts {
    s.insert(l.session_key@, l.state)
}

/// What removing `key` from the session reports to the callback.
pub open spec fn take_event(s: PendingAttempts, key: Seq<char>) -> Event {
    if s.contains_key(key) {
        Event::StateTaken(Some(Ok(s[key])))
    } else {
        Event::StateTaken(None)
    }
}

/// The session after `key` was removed from it.
pub open spec fn after_take(s: PendingAttempts, key: Seq<char>) -> PendingAttempts {
    s.remove(key)
}

} // verus!
