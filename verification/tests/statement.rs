use arcadedb_rs::command::{Language, StatementKind};
use arcadedb_rs::{ArcadeDB, Auth};
use serde_json::Value;

fn client() -> ArcadeDB {
    ArcadeDB::builder()
        .auth(Auth::basic("root".to_string(), "playwithdata".to_string()))
        .build("http://localhost:2480".to_string())
}

#[test]
fn inserting_a_parameter_twice_retains_the_last_value() {
    let db = client().db("movies".to_string());
    let stmt = db
        .query("select * from Movie where released = :x")
        .param("x", Value::from(1984))
        .param("x", Value::from(1999));

    assert_eq!(Some(&Value::from(1999)), stmt.param_value("x"));
}

#[test]
fn parameters_under_distinct_names_are_all_retained() {
    let db = client().db("movies".to_string());
    let stmt = db
        .query("select * from Movie where title = :title and released = :year")
        .param("title", Value::from("The Matrix"))
        .param("year", Value::from(1999));

    assert_eq!(Some(&Value::from("The Matrix")), stmt.param_value("title"));
    assert_eq!(Some(&Value::from(1999)), stmt.param_value("year"));
    assert_eq!(None, stmt.param_value("tagline"));
}

#[test]
fn batch_binding_inserts_in_order_with_last_write_winning() {
    let db = client().db("movies".to_string());
    let stmt = db
        .query("select * from Movie")
        .param("x", Value::from(1))
        .params(vec![
            ("y".to_string(), Value::from(2)),
            ("x".to_string(), Value::from(3)),
        ]);

    assert_eq!(Some(&Value::from(3)), stmt.param_value("x"));
    assert_eq!(Some(&Value::from(2)), stmt.param_value("y"));
}

#[test]
fn language_defaults_to_sql_and_can_be_overridden() {
    let db = client().db("movies".to_string());
    let stmt = db.query("match (m:Movie) return m");
    assert_eq!(Language::SQL, stmt.language);

    let stmt = stmt.language(Language::Cypher);
    assert_eq!(Language::Cypher, stmt.language);
}

#[test]
fn languages_have_their_wire_names() {
    assert_eq!("sQL", Language::SQL.wire_name());
    assert_eq!("cypher", Language::Cypher.wire_name());
}

#[test]
fn query_and_command_fix_kind_text_and_target() {
    let db = client().db("movies".to_string());

    let q = db.query("select * from Movie");
    assert_eq!(StatementKind::Query, q.kind);
    assert_eq!("select * from Movie", q.command);
    assert_eq!("movies", q.db_name);
    assert_eq!(None, q.session_id);

    let c = db.command("create vertex type Person");
    assert_eq!(StatementKind::Command, c.kind);
    assert_eq!("create vertex type Person", c.command);
    assert_eq!("movies", c.db_name);
    assert_eq!(None, c.session_id);
}
