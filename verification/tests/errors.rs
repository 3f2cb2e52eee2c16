use qarax::errors::{error_from_db, to_singular_title, unique_violation_message, DbFailure, Error, FieldError};

#[test]
fn status_codes() {
    assert_eq!(Error::Sqlx("x".to_string()).status_code(), 500);
    assert_eq!(Error::InternalServerError.status_code(), 500);
    assert_eq!(Error::InvalidEntity(vec![]).status_code(), 422);
    assert_eq!(Error::UnprocessableEntity("x".to_string()).status_code(), 422);
    assert_eq!(Error::Conflict("x".to_string()).status_code(), 409);
    assert_eq!(Error::NotFound.status_code(), 404);
}

#[test]
fn error_messages() {
    assert_eq!(Error::Sqlx("secret detail".to_string()).to_string(), "an internal database error occurred");
    let fe = FieldError { field: "name".to_string(), code: "length".to_string() };
    assert_eq!(Error::InvalidEntity(vec![fe]).to_string(), "validation error in request body");
    assert_eq!(Error::Conflict("dup".to_string()).to_string(), "dup");
    assert_eq!(Error::InternalServerError.to_string(), "internal server error");
    assert_eq!(Error::NotFound.to_string(), "not found");
}

#[test]
fn singular_titles() {
    assert_eq!(to_singular_title("hosts"), "Host");
    assert_eq!(to_singular_title("storage"), "Storage");
    assert_eq!(to_singular_title(""), "");
    assert_eq!(to_singular_title("s"), "");
}

#[test]
fn unique_violation_messages() {
    assert_eq!(unique_violation_message(Some("hosts_name_key")), "Host with this name already exists");
    assert_eq!(
        unique_violation_message(Some("storage_pools_name_key")),
        "Storage with this pools_name already exists"
    );
    assert_eq!(unique_violation_message(Some("vms_name_idx")), "Vm with this name already exists");
    assert_eq!(unique_violation_message(Some("nounderscore")), "resource with this value already exists");
    assert_eq!(unique_violation_message(None), "resource with this value already exists");
}

#[test]
fn database_failures_map_to_errors() {
    assert!(matches!(error_from_db(DbFailure::RowNotFound), Error::NotFound));
    let dup = DbFailure::Database {
        code: Some("23505".to_string()),
        constraint: Some("networks_name_key".to_string()),
        message: "duplicate".to_string(),
    };
    assert!(matches!(error_from_db(dup), Error::Conflict(m) if m == "Network with this name already exists"));
    let other = DbFailure::Database { code: Some("23503".to_string()), constraint: None, message: "fk".to_string() };
    assert!(matches!(error_from_db(other), Error::Sqlx(m) if m == "fk"));
    assert!(matches!(error_from_db(DbFailure::Other { message: "io".to_string() }), Error::Sqlx(_)));
}
