//! The transaction session state machine. A session is one open
//! server-side transaction: it owns the opaque token the server assigned on
//! begin, threads that token through every statement issued inside it, and
//! is consumed — never reusable — by commit or rollback.

use vstd::prelude::*;
use crate::command::{Language, Statement, StatementKind};
use crate::db::Database;
use crate::error::{ArcadeDBError, ErrorResponse};
use crate::protocol::{session_header, session_header_name, session_metadata, CommitRequest,
    RollbackRequest};

verus! {

/// An active session: one open server-side transaction, bound to the
/// database it was begun on.
#[derive(Debug)]
pub struct Transaction {
    pub session_id: String,
    pub db: Database,
}

impl Transaction {
    /// Conclude the begin call from the response headers: the session is
    /// active only if the session header is present, and its token is
    /// exactly the first value found under that name. An absent header is a
    /// generic (protocol) failure, never a server-reported one.
    pub fn from_begin_response(db: Database, metadata: &Vec<(String, String)>) -> (r: Result<
        Transaction,
        ArcadeDBError<ErrorResponse>,
    >)
        ensures
            match r {
                Ok(tx) => tx.db == db && exists|i: int|
                    {
                        &&& 0 <= i < metadata@.len()
                        &&& metadata@[i].0@ == session_header_name()
                        &&& metadata@[i].1@ == tx.session_id@
                        &&& forall|j: int| 0 <= j < i ==> metadata@[j].0@ != session_header_name()
                    },
                Err(e) => (forall|i: int|
                    0 <= i < metadata@.len() ==> metadata@[i].0@ != session_header_name()) && e
                    matches ArcadeDBError::Generic(_),
            },
    {
        let key = String::from_str(session_header());
        let n = metadata.len();
        let mut i: usize = 0;
        while i < n
            invariant
                key@ == session_header_name(),
                i <= n,
                n == metadata@.len(),
                forall|k: int| 0 <= k < i ==> metadata@[k].0@ != session_header_name(),
            decreases n - i,
        {
            if metadata[i].0 == key {
                return Ok(Transaction { session_id: metadata[i].1.clone(), db });
            }
            i += 1;
        }
        Err(ArcadeDBError::Generic(String::from_str("session id header missing on begin response")))
    }

    /// The name of the database this session runs on.
    pub fn name(&self) -> (r: &str)
        ensures
            r@ == self.db.name@,
    {
        self.db.name.as_str()
    }

    /// A read-oriented statement inside this session: it carries this
    /// session's token and observes the transaction's uncommitted writes.
    pub fn query(&self, stmt: &str) -> (r: Statement)
        ensures
            r.wf(),
            r.db_name == self.db.name,
            r.session_id == Some(self.session_id),
            r.kind == StatementKind::Query,
            r.command@ == stmt@,
            r.language == Language::SQL,
            r.params_map() == Map::<Seq<char>, serde_json::Value>::empty(),
    {
        Statement::new(
            self.db.name.clone(),
            Some(self.session_id.clone()),
            String::from_str(stmt),
            StatementKind::Query,
        )
    }

    /// A mutating statement inside this session.
    pub fn command(&self, stmt: &str) -> (r: Statement)
        ensures
            r.wf(),
            r.db_name == self.db.name,
            r.session_id == Some(self.session_id),
            r.kind == StatementKind::Command,
            r.command@ == stmt@,
            r.language == Language::SQL,
            r.params_map() == Map::<Seq<char>, serde_json::Value>::empty(),
    {
        Statement::new(
            self.db.name.clone(),
            Some(self.session_id.clone()),
            String::from_str(stmt),
            StatementKind::Command,
        )
    }

    /// The operation that commits this session. Taking the session by value
    /// consumes it: no statement can be issued through it afterwards.
    pub fn commit_request(self) -> (r: CommitRequest)
        ensures
            r.name == self.db.name,
            r.session_id == self.session_id,
    {
        CommitRequest::new(self.db.name, self.session_id)
    }

    /// The operation that rolls this session back, consuming it likewise.
    pub fn rollback_request(self) -> (r: RollbackRequest)
        ensures
            r.name == self.db.name,
            r.session_id == self.session_id,
    {
        RollbackRequest::new(self.db.name, self.session_id)
    }
}

/// Session affinity: every statement issued through one session carries the
/// session header with exactly the session's token — the token begin
/// returned — and the session's commit and rollback operations carry that
/// same header.
pub proof fn lemma_session_affinity(
    tx: Transaction,
    stmt: Statement,
    stmt_headers: Seq<(String, String)>,
    commit_headers: Seq<(String, String)>,
    rollback_headers: Seq<(String, String)>,
)
    requires
        stmt.session_id == Some(tx.session_id),
        session_metadata(stmt.session_id, stmt_headers),
        session_metadata(Some(tx.session_id), commit_headers),
        session_metadata(Some(tx.session_id), rollback_headers),
    ensures
        stmt_headers.len() == 1,
        stmt_headers[0].0@ == session_header_name(),
        stmt_headers[0].1@ == tx.session_id@,
        commit_headers.len() == 1 && commit_headers[0].0@ == session_header_name()
            && commit_headers[0].1@ == tx.session_id@,
        rollback_headers.len() == 1 && rollback_headers[0].0@ == session_header_name()
            && rollback_headers[0].1@ == tx.session_id@,
{
}

} // verus!
