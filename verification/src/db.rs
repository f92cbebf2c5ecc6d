//! A handle on one database: statement building and the administrative
//! operations that target the database by name.

use vstd::prelude::*;
use crate::client::ArcadeDB;
use crate::command::{Language, Statement, StatementKind};
use crate::protocol::{BeginRequest, DatabasesResponse, ServerCommand, ServerCommandRequest};

verus! {

/// A handle on one database, sharing its client's configuration.
#[derive(Debug)]
pub struct Database {
    pub client: ArcadeDB,
    pub name: String,
}

impl Database {
    pub(crate) fn new(client: ArcadeDB, name: String) -> (r: Self)
        ensures
            r.client == client,
            r.name == name,
    {
        Self { client, name }
    }

    /// This database's name.
    pub fn name(&self) -> (r: &str)
        ensures
            r@ == self.name@,
    {
        self.name.as_str()
    }

    /// An identical copy of this handle.
    pub fn duplicate(&self) -> (r: Self)
        ensures
            r == *self,
    {
        Self { client: self.client.duplicate(), name: self.name.clone() }
    }

    /// A read-oriented statement on this database, outside any session.
    pub fn query(&self, stmt: &str) -> (r: Statement)
        ensures
            r.wf(),
            r.db_name == self.name,
            r.session_id is None,
            r.kind == StatementKind::Query,
            r.command@ == stmt@,
            r.language == Language::SQL,
            r.params_map() == Map::<Seq<char>, serde_json::Value>::empty(),
    {
        Statement::new(self.name.clone(), None, String::from_str(stmt), StatementKind::Query)
    }

    /// A mutating statement on this database, outside any session.
    pub fn command(&self, stmt: &str) -> (r: Statement)
        ensures
            r.wf(),
            r.db_name == self.name,
            r.session_id is None,
            r.kind == StatementKind::Command,
            r.command@ == stmt@,
            r.language == Language::SQL,
            r.params_map() == Map::<Seq<char>, serde_json::Value>::empty(),
    {
        Statement::new(self.name.clone(), None, String::from_str(stmt), StatementKind::Command)
    }

    /// The operation that creates this database.
    pub fn create_request(&self) -> (r: ServerCommandRequest)
        ensures
            r.command.command == (ServerCommand::CreateDatabase(self.name)),
    {
        ServerCommandRequest::new(ServerCommand::create_db(self.name.clone()))
    }

    /// The operation that drops this database.
    pub fn drop_request(&self) -> (r: ServerCommandRequest)
        ensures
            r.command.command == (ServerCommand::DropDatabase(self.name)),
    {
        ServerCommandRequest::new(ServerCommand::drop_db(self.name.clone()))
    }

    /// The operation that opens a transaction on this database.
    pub fn begin_request(&self) -> (r: BeginRequest)
        ensures
            r.name == self.name,
    {
        BeginRequest::new(self.name.clone())
    }

    /// Whether this database's name is among the listed names. Existence is
    /// derived from the list-databases result; it is no dedicated server
    /// call.
    pub fn is_listed(&self, databases: &DatabasesResponse) -> (r: bool)
        ensures
            r == exists|i: int|
                0 <= i < databases.result@.len() && databases.result@[i]@ == self.name@,
    {
        let n = databases.result.len();
        let mut i: usize = 0;
        while i < n
            invariant
                i <= n,
                n == databases.result@.len(),
                forall|k: int| 0 <= k < i ==> databases.result@[k]@ != self.name@,
            decreases n - i,
        {
            if databases.result[i] == self.name {
                return true;
            }
            i += 1;
        }
        false
    }
}

} // verus!
