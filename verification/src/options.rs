//! Connection configuration: base URL and authentication. Shared by every
//! database and session handle derived from one client, and never mutated
//! after construction.

use vstd::prelude::*;

verus! {

/// Connection configuration.
#[derive(Debug)]
pub struct ArcadeDBOptions {
    pub url: String,
    pub auth: Auth,
}

impl Default for ArcadeDBOptions {
    /// The default points at a local server, without authentication.
    fn default() -> (r: Self)
        ensures
            r.url@ == "http://localhost:2480"@,
            r.auth == Auth::NoAuth,
    {
        Self { url: String::from_str("http://localhost:2480"), auth: Auth::NoAuth }
    }
}

impl ArcadeDBOptions {
    /// An identical copy, for handing to a derived handle.
    pub fn duplicate(&self) -> (r: Self)
        ensures
            r == *self,
    {
        Self { url: self.url.clone(), auth: self.auth.duplicate() }
    }
}

/// How requests authenticate: not at all, or HTTP basic credentials.
#[derive(Debug)]
pub enum Auth {
    NoAuth,
    Basic(Credentials),
}

impl Auth {
    /// Basic authentication from a user name and a password.
    pub fn basic(username: String, password: String) -> (r: Auth)
        ensures
            r == (Auth::Basic(Credentials { username, password })),
    {
        Auth::Basic(Credentials { username, password })
    }

    /// An identical copy.
    pub fn duplicate(&self) -> (r: Self)
        ensures
            r == *self,
    {
        match self {
            Auth::NoAuth => Auth::NoAuth,
            Auth::Basic(c) => Auth::Basic(
                Credentials { username: c.username.clone(), password: c.password.clone() },
            ),
        }
    }
}

/// A user name and a password.
#[derive(Debug)]
pub struct Credentials {
    pub username: String,
    pub password: String,
}

} // verus!
