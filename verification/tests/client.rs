use arcadedb_rs::protocol::DatabasesResponse;
use arcadedb_rs::transport::{
    classify_error_body, classify_success_body, full_url, status_is_success, ArcadeResponse,
    Either,
};
use arcadedb_rs::{ArcadeDB, ArcadeDBError, Auth, ErrorResponse};

#[test]
fn the_builder_starts_from_the_default_configuration() {
    let builder = ArcadeDB::builder();
    assert_eq!("http://localhost:2480", builder.opts.url);
    assert!(matches!(builder.opts.auth, Auth::NoAuth));
}

#[test]
fn the_builder_sets_url_and_auth() {
    let arcade = ArcadeDB::builder()
        .auth(Auth::basic("root".to_string(), "playwithdata".to_string()))
        .build("http://localhost:2480".to_string());
    assert_eq!("http://localhost:2480", arcade.opts.url);
    assert!(matches!(arcade.opts.auth, Auth::Basic(ref c) if c.username == "root"));

    let db = arcade.db("movies".to_string());
    assert_eq!("movies", db.name());
}

#[test]
fn existence_is_membership_in_the_listed_names() {
    let arcade = ArcadeDB::builder().build("http://localhost:2480".to_string());
    let db = arcade.db("movies".to_string());

    let listed = DatabasesResponse {
        result: vec!["graph".to_string(), "movies".to_string()],
        user: "root".to_string(),
        version: "24.1.1".to_string(),
    };
    assert!(db.is_listed(&listed));

    let after_drop = DatabasesResponse {
        result: vec!["graph".to_string()],
        user: "root".to_string(),
        version: "24.1.1".to_string(),
    };
    assert!(!db.is_listed(&after_drop));
}

#[test]
fn only_the_2xx_class_reports_success() {
    assert!(status_is_success(200));
    assert!(status_is_success(204));
    assert!(status_is_success(299));
    assert!(!status_is_success(199));
    assert!(!status_is_success(300));
    assert!(!status_is_success(403));
    assert!(!status_is_success(500));
}

#[test]
fn a_well_formed_error_body_is_a_server_reported_failure() {
    let body = ErrorResponse {
        error: "Error on command execution".to_string(),
        detail: Some("Query 'create vertex type Person' is not idempotent".to_string()),
        exception: None,
    };
    let classified = classify_error_body(Some(body));
    assert!(matches!(
        classified,
        ArcadeDBError::Error(ErrorResponse { ref detail, .. })
            if detail.as_deref() == Some("Query 'create vertex type Person' is not idempotent")
    ));
}

#[test]
fn an_unparseable_error_body_is_a_generic_failure() {
    let classified = classify_error_body(None);
    assert!(matches!(classified, ArcadeDBError::Generic(_)));
}

#[test]
fn a_success_body_yields_the_envelope_with_its_headers() {
    let headers = vec![("content-type".to_string(), "application/json".to_string())];
    let response = classify_success_body(Some(1u64), headers.clone()).unwrap();
    assert_eq!(1u64, response.payload);
    assert_eq!(headers, response.metadata);

    let failure = classify_success_body::<u64>(None, headers).unwrap_err();
    assert!(matches!(failure, ArcadeDBError::Generic(_)));
}

#[test]
fn either_turns_into_the_matching_result() {
    let left: Either<u64, ErrorResponse> = Either::Left(3);
    assert!(matches!(left.into_result(), Ok(3)));

    let right: Either<u64, u64> = Either::Right(4);
    assert!(matches!(right.into_result(), Err(4)));
}

#[test]
fn the_full_url_is_base_then_path() {
    assert_eq!(
        "http://localhost:2480/api/v1/databases",
        full_url("http://localhost:2480", "/api/v1/databases")
    );
}

#[test]
fn the_response_envelope_keeps_payload_and_headers() {
    let headers = vec![("arcadedb-session-id".to_string(), "AS-1".to_string())];
    let response = ArcadeResponse::new((), headers.clone());
    assert_eq!(headers, response.metadata);
}
