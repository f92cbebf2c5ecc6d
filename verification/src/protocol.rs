//! Operation descriptors: one per server endpoint, each fixing its path,
//! HTTP method, payload shape and extra headers. Operations are stateless
//! values; they own no network resources.

use vstd::prelude::*;
use crate::command::{Statement, StatementKind};

verus! {

/// HTTP method of an operation.
#[derive(Debug, Clone, Copy, PartialEq, Eq, Structural)]
pub enum Method {
    Get,
    Post,
}

/// Name of the header that carries the session token, on the begin response
/// and on every request issued inside a session.
pub open spec fn session_header_name() -> Seq<char> {
    "arcadedb-session-id"@
}

/// Name of the header that carries the session token.
pub fn session_header() -> (r: &'static str)
    ensures
        r@ == session_header_name(),
{
    "arcadedb-session-id"
}

/// Extra headers of an operation bound to an optional session: exactly the
/// session header with the token when a session is given, none otherwise.
pub open spec fn session_metadata(
    session_id: Option<String>,
    headers: Seq<(String, String)>,
) -> bool {
    match session_id {
        Some(t) => headers.len() == 1 && headers[0].0@ == session_header_name() && headers[0].1@
            == t@,
        None => headers.len() == 0,
    }
}

fn prefixed(prefix: &'static str, name: &str) -> (r: String)
    ensures
        r@ == prefix@ + name@,
{
    String::from_str(prefix).concat(name)
}

/// A server-level command text: create or drop one database by name.
#[derive(Debug)]
pub enum ServerCommand {
    CreateDatabase(String),
    DropDatabase(String),
}

impl ServerCommand {
    /// Create the database `db`.
    pub fn create_db(db: String) -> (r: Self)
        ensures
            r == (ServerCommand::CreateDatabase(db)),
    {
        Self::CreateDatabase(db)
    }

    /// Drop the database `db`.
    pub fn drop_db(db: String) -> (r: Self)
        ensures
            r == (ServerCommand::DropDatabase(db)),
    {
        Self::DropDatabase(db)
    }

    /// The command text as the server expects it.
    pub open spec fn command_text_spec(self) -> Seq<char> {
        match self {
            ServerCommand::CreateDatabase(db) => "CREATE DATABASE "@ + db@,
            ServerCommand::DropDatabase(db) => "DROP DATABASE "@ + db@,
        }
    }

    /// The command text as the server expects it.
    pub fn command_text(&self) -> (r: String)
        ensures
            r@ == self.command_text_spec(),
    {
        match self {
            ServerCommand::CreateDatabase(db) => prefixed("CREATE DATABASE ", db.as_str()),
            ServerCommand::DropDatabase(db) => prefixed("DROP DATABASE ", db.as_str()),
        }
    }
}

/// The payload of a server-level command request.
#[derive(Debug)]
pub struct Command {
    pub command: ServerCommand,
}

/// Run one server-level command; its success body is the generic
/// acknowledgement shape.
#[derive(Debug)]
pub struct ServerCommandRequest {
    pub command: Command,
}

impl ServerCommandRequest {
    pub fn new(command: ServerCommand) -> (r: Self)
        ensures
            r.command.command == command,
    {
        ServerCommandRequest { command: Command { command } }
    }

    pub fn path(&self) -> (r: String)
        ensures
            r@ == "/api/v1/server"@,
    {
        String::from_str("/api/v1/server")
    }

    pub fn method(&self) -> (r: Method)
        ensures
            r == Method::Post,
    {
        Method::Post
    }
}

/// Acknowledgement body of administrative calls.
#[derive(Debug)]
pub struct GenericResponse {
    pub result: String,
}

/// List every database on the server.
#[derive(Debug)]
pub struct GetDatabasesRequest;

impl GetDatabasesRequest {
    pub fn path(&self) -> (r: String)
        ensures
            r@ == "/api/v1/databases"@,
    {
        String::from_str("/api/v1/databases")
    }

    pub fn method(&self) -> (r: Method)
        ensures
            r == Method::Get,
    {
        Method::Get
    }
}

/// Success body of the list-databases call.
#[derive(Debug)]
pub struct DatabasesResponse {
    pub result: Vec<String>,
    pub user: String,
    pub version: String,
}

/// Success body of a statement call: the ordered rows the server reported.
#[derive(Debug)]
pub struct ResultWrapper<T> {
    pub result: Vec<T>,
}

/// Run one statement. The statement's kind selects the sub-path — `query`
/// for read-oriented statements, `command` for mutating ones — and a bound
/// session token travels as the session header.
#[derive(Debug)]
pub struct QueryCommand {
    pub payload: Statement,
}

impl QueryCommand {
    pub fn new(payload: Statement) -> (r: Self)
        ensures
            r.payload == payload,
    {
        QueryCommand { payload }
    }

    /// As `new`, with the session token set to `session_id`.
    pub fn with_session_id(payload: Statement, session_id: String) -> (r: Self)
        ensures
            r.payload.session_id == Some(session_id),
            r.payload.db_name == payload.db_name,
            r.payload.kind == payload.kind,
            r.payload.command == payload.command,
            r.payload.language == payload.language,
            r.payload.params == payload.params,
    {
        let mut stmt = payload;
        stmt.session_id = Some(session_id);
        QueryCommand { payload: stmt }
    }

    /// The sub-path this statement targets, by its kind.
    pub open spec fn path_spec(self) -> Seq<char> {
        match self.payload.kind {
            StatementKind::Query => "/api/v1/query/"@ + self.payload.db_name@,
            StatementKind::Command => "/api/v1/command/"@ + self.payload.db_name@,
        }
    }

    pub fn path(&self) -> (r: String)
        ensures
            r@ == self.path_spec(),
    {
        match self.payload.kind {
            StatementKind::Query => prefixed("/api/v1/query/", self.payload.db_name.as_str()),
            StatementKind::Command => prefixed(
                "/api/v1/command/",
                self.payload.db_name.as_str(),
            ),
        }
    }

    pub fn method(&self) -> (r: Method)
        ensures
            r == Method::Post,
    {
        Method::Post
    }

    /// The extra headers: exactly the session header when the statement is
    /// bound to a session.
    pub fn metadata(&self) -> (r: Vec<(String, String)>)
        ensures
            session_metadata(self.payload.session_id, r@),
    {
        let mut headers: Vec<(String, String)> = Vec::new();
        match &self.payload.session_id {
            Some(t) => {
                headers.push((String::from_str(session_header()), t.clone()));
            },
            None => {},
        }
        headers
    }
}

/// Open a server-side transaction on one database. The session token comes
/// back in the response headers under the session header name.
#[derive(Debug)]
pub struct BeginRequest {
    pub name: String,
}

impl BeginRequest {
    pub fn new(name: String) -> (r: Self)
        ensures
            r.name == name,
    {
        Self { name }
    }

    pub fn path(&self) -> (r: String)
        ensures
            r@ == "/api/v1/begin/"@ + self.name@,
    {
        prefixed("/api/v1/begin/", self.name.as_str())
    }

    pub fn method(&self) -> (r: Method)
        ensures
            r == Method::Post,
    {
        Method::Post
    }
}

/// Commit an open transaction; the request must carry the session header.
#[derive(Debug)]
pub struct CommitRequest {
    pub name: String,
    pub session_id: String,
}

impl CommitRequest {
    pub fn new(name: String, session_id: String) -> (r: Self)
        ensures
            r.name == name,
            r.session_id == session_id,
    {
        Self { name, session_id }
    }

    pub fn path(&self) -> (r: String)
        ensures
            r@ == "/api/v1/commit/"@ + self.name@,
    {
        prefixed("/api/v1/commit/", self.name.as_str())
    }

    pub fn method(&self) -> (r: Method)
        ensures
            r == Method::Post,
    {
        Method::Post
    }

    /// The extra headers: exactly the session header with this request's
    /// token.
    pub fn metadata(&self) -> (r: Vec<(String, String)>)
        ensures
            session_metadata(Some(self.session_id), r@),
    {
        let mut headers: Vec<(String, String)> = Vec::new();
        headers.push((String::from_str(session_header()), self.session_id.clone()));
        headers
    }
}

/// Roll an open transaction back; the request must carry the session
/// header.
#[derive(Debug)]
pub struct RollbackRequest {
    pub name: String,
    pub session_id: String,
}

impl RollbackRequest {
    pub fn new(name: String, session_id: String) -> (r: Self)
        ensures
            r.name == name,
            r.session_id == session_id,
    {
        Self { name, session_id }
    }

    pub fn path(&self) -> (r: String)
        ensures
            r@ == "/api/v1/rollback/"@ + self.name@,
    {
        prefixed("/api/v1/rollback/", self.name.as_str())
    }

    pub fn method(&self) -> (r: Method)
        ensures
            r == Method::Post,
    {
        Method::Post
    }

    /// The extra headers: exactly the session header with this request's
    /// token.
    pub fn metadata(&self) -> (r: Vec<(String, String)>)
        ensures
            session_metadata(Some(self.session_id), r@),
    {
        let mut headers: Vec<(String, String)> = Vec::new();
        headers.push((String::from_str(session_header()), self.session_id.clone()));
        headers
    }
}

} // verus!
