//! The credential store: login credentials and the single session slot.

use vstd::prelude::*;
use crate::codec::text_of;

verus! {

/// A username and password, used to obtain a session token.
#[derive(Debug)]
pub struct Credential {
    pub username: String,
    pub password: String,
}

/// Holds the credentials and the session token. The token slot is assigned at
/// most once: the first token installed stays for the store's lifetime.
#[derive(Debug)]
pub struct CredentialStore {
    credential: Credential,
    token: Option<String>,
}

impl CredentialStore {
    /// The cached session token, if one is set.
    pub closed spec fn session(&self) -> Option<Seq<char>> {
        text_of(self.token)
    }

    pub closed spec fn username(&self) -> Seq<char> {
        self.credential.username@
    }

    pub closed spec fn password(&self) -> Seq<char> {
        self.credential.password@
    }

    /// A store that will log in with `credential`; no token yet.
    pub fn new(credential: Credential) -> (r: CredentialStore)
        ensures
            r.session() is None,
            r.username() == credential.username@,
            r.password() == credential.password@,
    {
        CredentialStore { credential, token: None }
    }

    /// A store around a token obtained elsewhere; it holds empty credentials.
    pub fn with_token(token: String) -> (r: CredentialStore)
        ensures
            r.session() == Some(token@),
            r.username() == Seq::<char>::empty(),
            r.password() == Seq::<char>::empty(),
    {
        CredentialStore {
            credential: Credential { username: String::new(), password: String::new() },
            token: Some(token),
        }
    }

    /// The cached token.
    pub fn get_session(&self) -> (r: Option<String>)
        ensures
            text_of(r) == self.session(),
    {
        match &self.token {
            Some(token) => Some(token.clone()),
            None => None,
        }
    }

    /// The credentials.
    pub fn credential(&self) -> (r: &Credential)
        ensures
            r.username@ == self.username(),
            r.password@ == self.password(),
    {
        &self.credential
    }

    /// Installs `token` unless one is set already; a later token is dropped
    /// silently. Returns whether this token was the one installed.
    pub fn install(&mut self, token: String) -> (installed: bool)
        ensures
            installed == (old(self).session() is None),
            final(self).session() == (if old(self).session() is None {
                Some(token@)
            } else {
                old(self).session()
            }),
            final(self).username() == old(self).username(),
            final(self).password() == old(self).password(),
    {
        if self.token.is_none() {
            self.token = Some(token);
            true
        } else {
            false
        }
    }
}

} // verus!
