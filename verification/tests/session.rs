use arcadedb_rs::command::StatementKind;
use arcadedb_rs::protocol::QueryCommand;
use arcadedb_rs::{ArcadeDB, ArcadeDBError, Auth, ErrorResponse, Transaction};

fn client() -> ArcadeDB {
    ArcadeDB::builder()
        .auth(Auth::basic("root".to_string(), "playwithdata".to_string()))
        .build("http://localhost:2480".to_string())
}

fn begun_session(token: &str) -> Transaction {
    let db = client().db("movies".to_string());
    let headers = vec![
        ("content-length".to_string(), "0".to_string()),
        ("arcadedb-session-id".to_string(), token.to_string()),
    ];
    Transaction::from_begin_response(db, &headers).unwrap()
}

#[test]
fn begin_adopts_the_token_from_the_response_header() {
    let tx = begun_session("AS-281");
    assert_eq!("AS-281", tx.session_id);
    assert_eq!("movies", tx.name());
}

#[test]
fn begin_without_the_session_header_is_a_generic_failure() {
    let db = client().db("movies".to_string());
    let headers = vec![("content-length".to_string(), "0".to_string())];
    let err = Transaction::from_begin_response(db, &headers).unwrap_err();
    assert!(matches!(err, ArcadeDBError::<ErrorResponse>::Generic(_)));
}

#[test]
fn every_statement_issued_through_a_session_carries_its_token() {
    let tx = begun_session("AS-281");

    let query_op = QueryCommand::new(tx.query("select * from Person"));
    assert_eq!(
        vec![("arcadedb-session-id".to_string(), "AS-281".to_string())],
        query_op.metadata()
    );
    assert_eq!("/api/v1/query/movies", query_op.path());

    let command_op = QueryCommand::new(tx.command("insert into Person set name = 'John'"));
    assert_eq!(
        vec![("arcadedb-session-id".to_string(), "AS-281".to_string())],
        command_op.metadata()
    );
    assert_eq!("/api/v1/command/movies", command_op.path());
    assert_eq!(StatementKind::Command, command_op.payload.kind);
}

#[test]
fn commit_and_rollback_consume_the_session_and_keep_its_token() {
    let commit = begun_session("AS-7").commit_request();
    assert_eq!("/api/v1/commit/movies", commit.path());
    assert_eq!(
        vec![("arcadedb-session-id".to_string(), "AS-7".to_string())],
        commit.metadata()
    );

    let rollback = begun_session("AS-7").rollback_request();
    assert_eq!("/api/v1/rollback/movies", rollback.path());
    assert_eq!(
        vec![("arcadedb-session-id".to_string(), "AS-7".to_string())],
        rollback.metadata()
    );
}
