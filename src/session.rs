//! The session store: a single slot that holds the authenticated identity, if any.
use vstd::prelude::*;

verus! {

/// The identity of the signed-in user, as handed over by the front end once its
/// password has been checked.
#[derive(Debug, Clone, PartialEq, Eq)]
pub struct AuthSession {
    pub user_id: i64,
    pub username: String,
    pub logged_in: bool,
}

/// What an [`AuthSession`] holds, with the user name as a sequence of characters.
pub ghost struct AuthSessionView {
    pub user_id: i64,
    pub username: Seq<char>,
    pub logged_in: bool,
}

impl View for AuthSession {
    type V = AuthSessionView;

    open spec fn view(&self) -> AuthSessionView {
        AuthSessionView { user_id: self.user_id, username: self.username@, logged_in: self.logged_in }
    }
}

/// The contents of the store: `None` while anonymous, the session while authenticated.
pub type Slot = Option<AuthSessionView>;

pub open spec fn slot_of(current: Option<AuthSession>) -> Slot {
    match current {
        Some(s) => Some(s@),
        None => None,
    }
}

/// The slot after `set_session(s)`: the new session replaces whatever was there.
pub open spec fn slot_set(slot: Slot, s: AuthSessionView) -> Slot {
    Some(s)
}

/// The slot after `clear_session()`: anonymous, whatever was there.
pub open spec fn slot_clear(slot: Slot) -> Slot {
    None
}

/// What `get_current_user()` returns on the slot.
pub open spec fn slot_get(slot: Slot) -> Slot {
    slot
}

/// What `check_auth_status()` returns on the slot.
pub open spec fn slot_authenticated(slot: Slot) -> bool {
    slot is Some
}

/// The store itself. It is an owned value: a host that serves several callers
/// at once puts it behind a lock.
pub struct AuthState {
    pub current_user: Option<AuthSession>,
}

impl View for AuthState {
    type V = Slot;

    open spec fn view(&self) -> Slot {
        slot_of(self.current_user)
    }
}

impl AuthState {
    /// An empty store: nobody is signed in.
    pub fn new() -> (r: AuthState)
        ensures
            r@ is None,
    {
        AuthState { current_user: None }
    }
}

/// Records `session` as the current identity, replacing any earlier one.
pub fn set_session(state: &mut AuthState, session: AuthSession)
    ensures
        final(state)@ == slot_set(old(state)@, session@),
{
    state.current_user = Some(session);
}

/// Forgets the current identity; on an empty store this changes nothing.
pub fn clear_session(state: &mut AuthState)
    ensures
        final(state)@ == slot_clear(old(state)@),
{
    state.current_user = None;
}

/// A copy of the current identity, or `None` while nobody is signed in.
pub fn get_current_user(state: &AuthState) -> (r: Option<AuthSession>)
    ensures
        slot_of(r) == slot_get(state@),
{
    match &state.current_user {
        Some(s) => Some(
            AuthSession { user_id: s.user_id, username: s.username.clone(), logged_in: s.logged_in },
        ),
        None => None,
    }
}

/// Whether somebody is signed in.
pub fn check_auth_status(state: &AuthState) -> (r: bool)
    ensures
        r == slot_authenticated(state@),
{
    state.current_user.is_some()
}

/// Clearing leaves the store anonymous: nothing to get, not authenticated.
pub proof fn lemma_clear_empties(slot: Slot)
    ensures
        slot_get(slot_clear(slot)) is None,
        !slot_authenticated(slot_clear(slot)),
{
}

/// After setting a session, getting returns that session and the store is authenticated.
pub proof fn lemma_set_then_get(slot: Slot, s: AuthSessionView)
    ensures
        slot_get(slot_set(slot, s)) == Some(s),
        slot_authenticated(slot_set(slot, s)),
{
}

/// Of two sessions set one after the other, the later one is the one held.
pub proof fn lemma_last_write_wins(slot: Slot, s1: AuthSessionView, s2: AuthSessionView)
    ensures
        slot_get(slot_set(slot_set(slot, s1), s2)) == Some(s2),
{
}

/// Setting a session and then clearing resets the store completely.
pub proof fn lemma_set_then_clear(slot: Slot, s: AuthSessionView)
    ensures
        slot_get(slot_clear(slot_set(slot, s))) is None,
        !slot_authenticated(slot_clear(slot_set(slot, s))),
{
}

} // verus!
