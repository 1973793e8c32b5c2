use ataraxai::model::{check_api_url, validate_string, AppError, ErrorKind};

#[test]
fn kind_labels() {
    let e = |kind| AppError { message: String::new(), kind };
    assert_eq!(e(ErrorKind::Network).kind_str(), "Network Error");
    assert_eq!(e(ErrorKind::Database).kind_str(), "Database Error");
    assert_eq!(e(ErrorKind::Validation).kind_str(), "Validation Error");
    assert_eq!(e(ErrorKind::NotFound).kind_str(), "Not Found");
    assert_eq!(e(ErrorKind::Internal).kind_str(), "Internal Error");
}

#[test]
fn app_error_text() {
    let e = AppError { message: "Project not found".to_string(), kind: ErrorKind::NotFound };
    assert_eq!(e.to_string(), "Not Found: Project not found");
}

#[test]
fn validate_rejects_blank_input() {
    let e = validate_string(" \t\n ", "Project name", 1).unwrap_err();
    assert_eq!(e.kind, ErrorKind::Validation);
    assert_eq!(e.message, "Project name cannot be empty");
    assert!(validate_string("", "Title", 0).is_err());
}

#[test]
fn validate_rejects_short_input() {
    let e = validate_string("  abc  ", "API URL", 5).unwrap_err();
    assert_eq!(e.kind, ErrorKind::Validation);
    assert_eq!(e.message, "API URL must be at least 5 characters long");
}

#[test]
fn validate_counts_trimmed_bytes() {
    assert!(validate_string("\u{3000}ab\u{a0}", "Name", 2).is_ok());
    assert!(validate_string("\u{3000}ab\u{a0}", "Name", 3).is_err());
    assert!(validate_string("é", "Name", 2).is_ok());
    assert!(validate_string("hello", "Message", 1).is_ok());
}

#[test]
fn api_url_needs_http_scheme() {
    assert!(check_api_url("http://127.0.0.1:8000/v1").is_ok());
    assert!(check_api_url("https://example.org").is_ok());
    assert_eq!(
        check_api_url("ftp://example.org").unwrap_err(),
        "API URL must start with http:// or https://"
    );
    assert_eq!(check_api_url("   ").unwrap_err(), "Validation Error: API URL cannot be empty");
}
