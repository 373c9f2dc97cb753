//! The session: at most one bearer token, whose presence means "logged in".
use vstd::prelude::*;
use vstd::string::*;

verus! {

/// The storage key under which the token is kept.
pub const TOKEN_KEY: &'static str = "auth_token";

/// What a read of the token from durable storage gave.
#[derive(Debug)]
pub enum StorageRead {
    /// The storage could not be opened.
    Unavailable,
    /// The storage refused the read.
    Failed,
    /// No token is stored.
    Absent,
    /// The stored token.
    Present(String),
}

/// The token a storage read yields: failures count as no token.
pub open spec fn read_token(read: StorageRead) -> Option<String> {
    match read {
        StorageRead::Present(t) => Some(t),
        _ => None,
    }
}

/// Whether a session counts as logged in: it holds a token.
pub open spec fn authenticated(s: Session) -> bool {
    s.token is Some
}

/// The current session token.
#[derive(Debug)]
pub struct Session {
    pub token: Option<String>,
}

impl Session {
    /// A session with no token.
    pub fn new() -> (r: Session)
        ensures
            r.token is None,
    {
        Session { token: None }
    }

    /// The session that a read of durable storage holds.
    pub fn from_storage(read: StorageRead) -> (r: Session)
        ensures
            r.token == read_token(read),
    {
        match read {
            StorageRead::Present(t) => Session { token: Some(t) },
            _ => Session { token: None },
        }
    }

    /// Stores `token`, replacing any earlier one.
    pub fn set_token(&mut self, token: String)
        ensures
            final(self).token == Some(token),
    {
        self.token = Some(token);
    }

    /// The current token, if any.
    pub fn get_token(&self) -> (r: Option<String>)
        ensures
            r == self.token,
    {
        match &self.token {
            Some(t) => Some(t.clone()),
            None => None,
        }
    }

    /// Removes the token.
    pub fn clear_token(&mut self)
        ensures
            final(self).token is None,
    {
        self.token = None;
    }

    /// Whether a token is present; it is not checked in any other way.
    pub fn is_authenticated(&self) -> (r: bool)
        ensures
            r == authenticated(*self),
    {
        self.token.is_some()
    }
}

} // verus!
