use zeptodo::api::errors::ApiError;
use zeptodo::api::tasks::{self, CreateBody, ListQuery};
use zeptodo::api::auth::{extract_bearer, AuthorizationHeader};
use zeptodo::domain::task::{reorder, Status, StoredSlot};

#[test]
fn create_with_empty_title_is_bad_request() {
    let e = tasks::new_task(&CreateBody { title: "   ".into(), description: None }).unwrap_err();
    assert_eq!((e.status, e.code, e.message.as_str()), (400, "bad_request", "title must not be empty"));
}

#[test]
fn title_limit_counts_characters_and_description_limit_bytes() {
    assert_eq!(tasks::trim_required_title(&"é".repeat(100)).unwrap(), "é".repeat(100));
    assert!(tasks::trim_required_title(&format!("  {}  ", "é".repeat(128))).is_ok());
    let e = tasks::trim_required_title(&"é".repeat(129)).unwrap_err();
    assert_eq!(e.message, "title must be at most 128 characters");
    assert_eq!(tasks::sanitize_description(Some("  x  ")).unwrap().as_deref(), Some("x"));
    assert_eq!(tasks::sanitize_description(Some("   ")).unwrap(), None);
    assert_eq!(tasks::sanitize_description(None).unwrap(), None);
    let e = tasks::sanitize_description(Some(&"a".repeat(16 * 1024 + 1))).unwrap_err();
    assert_eq!(e.message, "description must be at most 16384 bytes");
}

#[test]
fn create_body_becomes_trimmed_task() {
    let t = tasks::new_task(&CreateBody { title: " hello ".into(), description: Some("world".into()) }).unwrap();
    assert_eq!(t.title, "hello");
    assert_eq!(t.description.as_deref(), Some("world"));
}

#[test]
fn include_terminal_param_toggles_filter() {
    assert_eq!(ListQuery::default().statuses(), vec![Status::Todo, Status::InProgress]);
    assert_eq!(ListQuery { include_terminal: true }.statuses().len(), 4);
}

#[test]
fn error_constructors_and_envelope() {
    let e = ApiError::not_found("task not found".into());
    assert_eq!((e.status, e.code), (404, "not_found"));
    let env = ApiError::internal().envelope();
    assert_eq!((env.error.code, env.error.message.as_str()), ("internal_error", "internal error"));
    assert_eq!(ApiError::too_many_requests("x".into()).status, 429);
    assert!(tasks::found(None).is_err());
    assert_eq!(tasks::reorder_result(2).rewritten, 2);
}

#[test]
fn create_with_empty_title_returns_400_envelope() {
    let err = tasks::new_task(&CreateBody { title: "   ".to_owned(), description: None }).unwrap_err();
    assert_eq!(err.status, 400);
    let envelope = err.envelope();
    assert_eq!(envelope.error.code, "bad_request");
    assert_eq!(envelope.error.message, "title must not be empty");
}

#[test]
fn get_unknown_id_returns_404_envelope() {
    let err = tasks::found(None).unwrap_err();
    assert_eq!(err.status, 404);
    assert_eq!(err.envelope().error.code, "not_found");
}

#[test]
fn reorder_returns_rewritten_count() {
    let rows = [
        Some(StoredSlot { position: 2, status: "todo".to_owned() }),
        Some(StoredSlot { position: 1, status: "todo".to_owned() }),
    ];
    let plan = reorder(&[2, 1], &rows).unwrap();
    assert_eq!(tasks::reorder_result(plan.rewritten()).rewritten, 2);
}

#[test]
fn list_without_bearer_returns_401() {
    let err = extract_bearer(&AuthorizationHeader::Missing).unwrap_err();
    assert_eq!(err.status, 401);
    assert_eq!(err.envelope().error.code, "unauthorized");
}

#[test]
fn list_with_non_bearer_scheme_returns_401() {
    let err = extract_bearer(&AuthorizationHeader::Text("Basic abc".to_owned())).unwrap_err();
    assert_eq!(err.status, 401);
}
