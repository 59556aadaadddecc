//! Where the session's token is kept so that it outlives the app: each
//! platform supplies its own place (the browser's session storage on the web),
//! and `InMemoryTokenStorage` keeps it for the life of the process only.
use vstd::prelude::*;

use crate::models::AuthToken;

verus! {

/// Saves and gives back the session's token. Each platform decides where it
/// lives; `load` gives back the token held. What a save or a clear leaves is
/// each storage's own (`after_save`, `after_clear`): a storage in memory
/// holds the saved token and forgets it on a clear, while a browser's
/// storage may refuse a change and keep what it held.
pub trait TokenStorage {
    /// The token held, if any.
    spec fn stored(&self) -> Option<AuthToken>;

    /// The token held after saving `token`.
    spec fn after_save(&self, token: AuthToken) -> Option<AuthToken>;

    /// The token held after a clear.
    spec fn after_clear(&self) -> Option<AuthToken>;

    fn save(&mut self, token: &AuthToken)
        ensures
            final(self).stored() == old(self).after_save(*token),
    ;

    fn load(&self) -> (r: Option<AuthToken>)
        ensures
            r == self.stored(),
    ;

    fn clear(&mut self)
        ensures
            final(self).stored() == old(self).after_clear(),
    ;
}

/// A storage that lives in memory: it does not outlive the app. It serves
/// tests, and platforms that have no secure store yet.
#[derive(Debug, Default)]
pub struct InMemoryTokenStorage {
    token: Option<AuthToken>,
}

impl InMemoryTokenStorage {
    pub fn new() -> (r: Self)
        ensures
            r.stored() is None,
    {
        InMemoryTokenStorage { token: None }
    }
}

impl TokenStorage for InMemoryTokenStorage {
    closed spec fn stored(&self) -> Option<AuthToken> {
        self.token
    }

    /// Memory never refuses: the saved token is held.
    open spec fn after_save(&self, token: AuthToken) -> Option<AuthToken> {
        Some(token)
    }

    /// Memory never refuses: nothing is held after a clear.
    open spec fn after_clear(&self) -> Option<AuthToken> {
        None
    }

    fn save(&mut self, token: &AuthToken) {
        self.token = Some(token.clone());
    }

    fn load(&self) -> (r: Option<AuthToken>) {
        self.token.clone()
    }

    fn clear(&mut self) {
        self.token = None;
    }
}

} // verus!
