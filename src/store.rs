use vstd::prelude::*;
use crate::types::opt_text;

verus! {

/// Custody of the one current access token.
///
/// The store itself is exclusive (`&mut self` for every write); a host that
/// shares it between tasks puts it behind a lock.
pub struct OAuthState {
    access_token: Option<String>,
}

impl View for OAuthState {
    type V = Option<Seq<char>>;

    closed spec fn view(&self) -> Option<Seq<char>> {
        opt_text(self.access_token)
    }
}

impl OAuthState {
    /// An empty store.
    pub fn new() -> (r: Self)
        ensures
            r@ == None::<Seq<char>>,
    {
        OAuthState { access_token: None }
    }

    /// Replaces whatever token was held by `token`.
    pub fn set_token(&mut self, token: String)
        ensures
            final(self)@ == Some(token@),
    {
        self.access_token = Some(token);
    }

    /// A copy of the current token, if there is one.
    pub fn get_token(&self) -> (r: Option<String>)
        ensures
            opt_text(r) == self@,
    {
        match &self.access_token {
            Some(t) => Some(t.clone()),
            None => None,
        }
    }

    /// Forgets the current token.
    pub fn clear_token(&mut self)
        ensures
            final(self)@ == None::<Seq<char>>,
    {
        self.access_token = None;
    }
}

/// Reading right after storing a token gives back exactly that token.
pub proof fn lemma_get_after_set(stored: OAuthState, token: String, read: Option<String>)
    requires
        stored@ == Some(token@),
        opt_text(read) == stored@,
    ensures
        read is Some,
        read->0@ == token@,
{
}

/// Reading right after clearing gives nothing.
pub proof fn lemma_get_after_clear(cleared: OAuthState, read: Option<String>)
    requires
        cleared@ == None::<Seq<char>>,
        opt_text(read) == cleared@,
    ensures
        read is None,
{
}

} // verus!
