//! The session of the app: the signed-in account and its token. The session
//! lives while the app is open; what outlives a restart is the token in a
//! `TokenStorage`, which the caller passes to each change.
use vstd::prelude::*;

use crate::models::{AuthToken, AuthenticatedUser, User};
use crate::storage::TokenStorage;

verus! {

/// The signed-in account, if known, and the session's token, if any.
#[derive(Debug, Clone, PartialEq)]
pub struct SessionState {
    user: Option<User>,
    token: Option<AuthToken>,
}

impl SessionState {
    /// The account data of the session.
    pub closed spec fn current_user(self) -> Option<User> {
        self.user
    }

    /// The token of the session.
    pub closed spec fn current_token(self) -> Option<AuthToken> {
        self.token
    }

    /// Whether `after` is `before` with its token restored from `stored`: the
    /// stored token if there is one, else no change. The account data stays.
    pub open spec fn hydrated_from(
        before: SessionState,
        stored: Option<AuthToken>,
        after: SessionState,
    ) -> bool {
        &&& after.current_user() == before.current_user()
        &&& after.current_token() == match stored {
            Some(token) => Some(token),
            None => before.current_token(),
        }
    }

    pub fn new() -> (r: Self)
        ensures
            r.current_user() is None,
            r.current_token() is None,
    {
        SessionState { user: None, token: None }
    }

    /// A session is signed in exactly when it holds a token.
    pub fn is_authenticated(&self) -> (r: bool)
        ensures
            r == self.current_token() is Some,
    {
        self.token.is_some()
    }

    pub fn user(&self) -> (r: Option<User>)
        ensures
            r == self.current_user(),
    {
        self.user.clone()
    }

    pub fn token(&self) -> (r: Option<AuthToken>)
        ensures
            r == self.current_token(),
    {
        self.token.clone()
    }

    /// Keeps the account and token of a login or registration, and saves the
    /// token in `storage` so that it outlives a restart.
    pub fn authenticate<S: TokenStorage>(&mut self, authenticated: AuthenticatedUser, storage: &mut S)
        ensures
            final(storage).stored() == old(storage).after_save(authenticated.token),
            final(self).current_user() == Some(authenticated.user),
            final(self).current_token() == Some(authenticated.token),
    {
        storage.save(&authenticated.token);
        self.user = Some(authenticated.user);
        self.token = Some(authenticated.token);
    }

    /// Ends the session, both in memory and in `storage`: for a logout that
    /// the user asked for, and for the one forced when a token can no longer
    /// be renewed.
    pub fn logout<S: TokenStorage>(&mut self, storage: &mut S)
        ensures
            final(storage).stored() == old(storage).after_clear(),
            final(self).current_user() is None,
            final(self).current_token() is None,
    {
        storage.clear();
        self.user = None;
        self.token = None;
    }

    /// Restores the saved token, if there is one, when the app starts. The
    /// account data is not restored: it takes a fetch of `GET /api/v1/me`.
    pub fn hydrate<S: TokenStorage>(&mut self, storage: &S)
        ensures
            Self::hydrated_from(*old(self), storage.stored(), *final(self)),
    {
        if let Some(token) = storage.load() {
            self.token = Some(token);
        }
    }

    /// Replaces the token (after a renewal, say) and saves it, leaving the
    /// account data as it was.
    pub fn update_token<S: TokenStorage>(&mut self, token: AuthToken, storage: &mut S)
        ensures
            final(storage).stored() == old(storage).after_save(token),
            final(self).current_token() == Some(token),
            final(self).current_user() == old(self).current_user(),
    {
        storage.save(&token);
        self.token = Some(token);
    }

    /// Keeps the account data of `GET /api/v1/me`, leaving the token as it was.
    pub fn set_user(&mut self, user: User)
        ensures
            final(self).current_user() == Some(user),
            final(self).current_token() == old(self).current_token(),
    {
        self.user = Some(user);
    }
}

impl Default for SessionState {
    fn default() -> (r: Self)
        ensures
            r.current_user() is None,
            r.current_token() is None,
    {
        Self::new()
    }
}

/// A session survives a restart: a fresh session hydrated from the storage
/// that a login wrote holds that login's token, and no account data until it
/// is fetched again.
pub proof fn restart_restores_the_login_token(
    login: AuthenticatedUser,
    signed_in: SessionState,
    stored: Option<AuthToken>,
    fresh: SessionState,
    restored: SessionState,
)
    requires
        signed_in.current_token() == Some(login.token),
        stored == Some(login.token),
        fresh.current_user() is None,
        fresh.current_token() is None,
        SessionState::hydrated_from(fresh, stored, restored),
    ensures
        restored.current_token() == signed_in.current_token(),
        restored.current_user() is None,
{
}

/// After a logout nothing comes back at the next start: the storage holds no
/// token, so hydrating a fresh session leaves it signed out.
pub proof fn logout_is_not_undone_by_a_restart(
    stored: Option<AuthToken>,
    fresh: SessionState,
    restored: SessionState,
)
    requires
        stored is None,
        fresh.current_token() is None,
        SessionState::hydrated_from(fresh, stored, restored),
    ensures
        restored.current_token() is None,
{
}

} // verus!
