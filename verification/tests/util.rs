//! Tests for the scheme decision, id formatting, and the small response
//! helpers.

use pastebin::error::AppError;
use pastebin::ext::unwrap_or_not_found;
use pastebin::id::uuid_string;
use pastebin::status::Status;
use pastebin::util::{contains_str, scheme};

#[test]
fn scheme_loopback_hosts_are_insecure() {
    assert_eq!(scheme("localhost:3000"), "http");
    assert_eq!(scheme("127.0.0.1:7878"), "http");
    assert_eq!(scheme("sub.localhost"), "http");
}

#[test]
fn scheme_other_hosts_are_secure() {
    assert_eq!(scheme("example.com"), "https");
    assert_eq!(scheme("paste.example.org:8443"), "https");
    assert_eq!(scheme(""), "https");
}

#[test]
fn contains_str_finds_substrings() {
    assert!(contains_str("hello world", "lo wo"));
    assert!(contains_str("hello", "hello"));
    assert!(contains_str("hello", ""));
    assert!(!contains_str("hello", "world"));
    assert!(!contains_str("", "a"));
}

#[test]
fn uuid_string_matches_canonical_form() {
    let id: u128 = 0x0123456789abcdef0123456789abcdef;
    assert_eq!(uuid_string(id), "01234567-89ab-cdef-0123-456789abcdef");
    assert_eq!(uuid_string(0), "00000000-0000-0000-0000-000000000000");
    assert_eq!(uuid_string(u128::MAX), "ffffffff-ffff-ffff-ffff-ffffffffffff");
}

#[test]
fn uuid_string_agrees_with_uuid_crate() {
    for _ in 0..8 {
        let u = uuid::Uuid::new_v4();
        assert_eq!(uuid_string(u.as_u128()), u.to_string());
    }
}

#[test]
fn unwrap_or_not_found_maps_presence() {
    let (status, body) = unwrap_or_not_found(Some("content".to_string()));
    assert_eq!(status, Status::Okay);
    assert_eq!(body, "content");
    let (status, body) = unwrap_or_not_found(None);
    assert_eq!(status, Status::NotFound);
    assert_eq!(body, "");
}

#[test]
fn app_error_turns_into_internal_error_response() {
    let err = AppError::new("connection refused".to_string());
    let (status, body) = err.into_response();
    assert_eq!(status, Status::InternalServerError);
    assert_eq!(status.code(), 500);
    assert_eq!(body, "Something went wrong: connection refused");
}

#[test]
fn status_codes() {
    assert_eq!(Status::Okay.code(), 200);
    assert_eq!(Status::Created.code(), 201);
    assert_eq!(Status::NotFound.code(), 404);
    assert_eq!(Status::InternalServerError.code(), 500);
}
