use asgard_rust::errmap::{map_store_fault, StoreFault};
use asgard_rust::ports::RepoError;
use asgard_rust::web_error::ApiError;

#[test]
fn no_rows_becomes_not_found() {
    let r = map_store_fault(StoreFault::NoRows, "23505");
    assert_eq!(r, RepoError::NotFound);
}

#[test]
fn unique_violation_code_becomes_conflict() {
    let r = map_store_fault(
        StoreFault::Database {
            code: Some("23505".to_string()),
            message: "duplicate key value violates unique constraint".to_string(),
        },
        "23505",
    );
    assert_eq!(r, RepoError::Conflict);
}

#[test]
fn other_database_code_becomes_unexpected_with_detail() {
    let r = map_store_fault(
        StoreFault::Database {
            code: Some("23503".to_string()),
            message: "violates foreign key constraint".to_string(),
        },
        "23505",
    );
    assert_eq!(
        r,
        RepoError::Unexpected("violates foreign key constraint".to_string())
    );
}

#[test]
fn database_error_without_code_becomes_unexpected() {
    let r = map_store_fault(
        StoreFault::Database { code: None, message: "connection reset".to_string() },
        "23505",
    );
    assert_eq!(r, RepoError::Unexpected("connection reset".to_string()));
}

#[test]
fn any_other_fault_becomes_unexpected_with_detail() {
    let r = map_store_fault(
        StoreFault::Other { message: "pool timed out".to_string() },
        "23505",
    );
    assert_eq!(r, RepoError::Unexpected("pool timed out".to_string()));
}

#[test]
fn api_error_translation_follows_the_boundary_table() {
    let nf = ApiError::of_repo_error(RepoError::NotFound);
    assert_eq!(nf.status, 404);
    assert_eq!(nf.message, "not found");

    let cf = ApiError::of_repo_error(RepoError::Conflict);
    assert_eq!(cf.status, 409);
    assert_eq!(cf.message, "conflict");

    let un = ApiError::of_repo_error(RepoError::Unexpected("boom".to_string()));
    assert_eq!(un.status, 500);
    assert_eq!(un.message, "boom");
}

#[test]
fn api_error_body_carries_the_message() {
    let e = ApiError::new(404, "not found".to_string());
    let body = e.body();
    assert_eq!(body.error, "not found");
}
