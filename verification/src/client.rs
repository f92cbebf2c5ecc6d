//! Top-level client handle: connection configuration shared by every
//! derived database handle, built once and never mutated afterwards.

use vstd::prelude::*;
use crate::db::Database;
use crate::options::{ArcadeDBOptions, Auth};

verus! {

/// A client: the connection configuration every derived handle shares.
#[derive(Debug)]
pub struct ArcadeDB {
    pub opts: ArcadeDBOptions,
}

impl ArcadeDB {
    /// Start building a client from the default configuration.
    pub fn builder() -> (r: ArcadeDBBuilder)
        ensures
            r.opts.url@ == "http://localhost:2480"@,
            r.opts.auth == Auth::NoAuth,
    {
        ArcadeDBBuilder { opts: Default::default() }
    }

    /// A handle on the database `name`, sharing this client's
    /// configuration.
    pub fn db(&self, name: String) -> (r: Database)
        ensures
            r.client.opts == self.opts,
            r.name == name,
    {
        Database::new(self.duplicate(), name)
    }

    /// An identical copy, for handing to a derived handle.
    pub fn duplicate(&self) -> (r: Self)
        ensures
            r == *self,
    {
        ArcadeDB { opts: self.opts.duplicate() }
    }
}

/// Builder of a client: authentication, then the base URL.
#[derive(Debug)]
pub struct ArcadeDBBuilder {
    pub opts: ArcadeDBOptions,
}

impl ArcadeDBBuilder {
    /// Set how requests authenticate.
    pub fn auth(self, auth: Auth) -> (r: ArcadeDBBuilder)
        ensures
            r.opts.auth == auth,
            r.opts.url == self.opts.url,
    {
        let mut b = self;
        b.opts.auth = auth;
        b
    }

    /// Finish with the server's base URL.
    pub fn build(self, url: String) -> (r: ArcadeDB)
        ensures
            r.opts.url == url,
            r.opts.auth == self.opts.auth,
    {
        let mut b = self;
        b.opts.url = url;
        ArcadeDB { opts: b.opts }
    }
}

} // verus!
