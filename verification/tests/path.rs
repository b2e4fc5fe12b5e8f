//! The path of a connection.

use moq::session::path::MAX_CONNECTION_PATH_LEN;
use moq::session::Session;

#[test]
fn normalize_empty_and_root() {
    assert_eq!(Session::normalize_connection_path("").unwrap(), None);
    assert_eq!(Session::normalize_connection_path("/").unwrap(), None);
    assert_eq!(Session::normalize_connection_path("///").unwrap(), None);
}

#[test]
fn normalize_valid_paths() {
    assert_eq!(
        Session::normalize_connection_path("/app").unwrap(),
        Some("/app".to_string())
    );
    assert_eq!(
        Session::normalize_connection_path("/tenant/stream-1").unwrap(),
        Some("/tenant/stream-1".to_string())
    );
    // Trailing slash is trimmed
    assert_eq!(
        Session::normalize_connection_path("/app/").unwrap(),
        Some("/app".to_string())
    );
}

#[test]
fn normalize_rejects_missing_leading_slash() {
    assert!(Session::normalize_connection_path("app").is_err());
}

#[test]
fn normalize_rejects_empty_segments() {
    assert!(Session::normalize_connection_path("/app//stream").is_err());
}

#[test]
fn normalize_rejects_dot_segments() {
    assert!(Session::normalize_connection_path("/app/./stream").is_err());
    assert!(Session::normalize_connection_path("/app/../secret").is_err());
    assert!(Session::normalize_connection_path("/..").is_err());
}

#[test]
fn normalize_rejects_percent_encoded_characters() {
    // %2F = '/' — would create scope ambiguity
    assert!(Session::normalize_connection_path("/foo%2Fbar").is_err());
    // %2E%2E = '..' — would bypass dot-segment check
    assert!(Session::normalize_connection_path("/%2E%2E/secret").is_err());
    // %00 = null — general injection risk
    assert!(Session::normalize_connection_path("/app/%00").is_err());
    // Uppercase hex digits
    assert!(Session::normalize_connection_path("/app/%2e%2e").is_err());
}

#[test]
fn normalize_rejects_too_long_path() {
    let long_path = format!("/{}", "a".repeat(MAX_CONNECTION_PATH_LEN));
    assert!(Session::normalize_connection_path(&long_path).is_err());
}

#[test]
fn normalize_accepts_max_length_path() {
    // Exactly at the limit (1024 total including leading slash)
    let path = format!("/{}", "a".repeat(MAX_CONNECTION_PATH_LEN - 1));
    assert!(Session::normalize_connection_path(&path).is_ok());
}
