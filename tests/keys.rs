use storage::error::ApiError;
use storage::keys::{authz_resource, object_key, parse_action, s3_object, str_eq, Action};

#[test]
fn parse_action_maps_methods() {
    assert_eq!(parse_action("HEAD").unwrap(), Action::Read);
    assert_eq!(parse_action("GET").unwrap(), Action::Read);
    assert_eq!(parse_action("PUT").unwrap(), Action::Update);
    assert_eq!(parse_action("DELETE").unwrap(), Action::Delete);
    assert_eq!(Action::Read.as_str(), "read");
    assert_eq!(Action::Update.as_str(), "update");
    assert_eq!(Action::Delete.as_str(), "delete");
}

#[test]
fn parse_action_rejects_other_methods() {
    for m in ["PATCH", "POST", "get", "", "GET "] {
        match parse_action(m) {
            Err(ApiError::InvalidMethod(given)) => assert_eq!(given, m),
            other => panic!("unexpected {:?}", other),
        }
    }
    assert_eq!(parse_action("PATCH").unwrap_err().status(), 403);
}

#[test]
fn composite_key_is_set_dot_object() {
    assert_eq!(s3_object("12345", "o1"), "12345.o1");
    assert_eq!(s3_object("1", "a.b"), "1.a.b");
    assert_eq!(object_key(Some("12345"), "o1"), "12345.o1");
    assert_eq!(object_key(None, "o1"), "o1");
}

#[test]
fn resource_paths() {
    assert_eq!(authz_resource("b1", None, "o1"), vec!["buckets", "b1", "objects", "o1"]);
    assert_eq!(authz_resource("b1", Some("7"), "o1"), vec!["buckets", "b1", "sets", "7"]);
}

#[test]
fn string_equality() {
    assert!(str_eq("abc", "abc"));
    assert!(!str_eq("abc", "abd"));
    assert!(!str_eq("abc", "ab"));
    assert!(str_eq("", ""));
}

#[test]
fn error_kinds_and_statuses() {
    let s = || "x".to_string();
    let cases: Vec<(ApiError, &str, u16)> = vec![
        (ApiError::BackendNotFound(s()), "BackendNotFound", 404),
        (ApiError::InvalidSetId, "InvalidSetId", 403),
        (ApiError::MissingSubject, "MissingSubject", 403),
        (ApiError::AudienceNotFound(s()), "AudienceNotFound", 404),
        (ApiError::AudienceForbidden(s()), "AudienceNotFound", 403),
        (ApiError::TenantSettingsNotFound(s()), "TenantSettingsNotFound", 404),
        (ApiError::RefererRejected, "RefererRejected", 403),
        (ApiError::InvalidMethod(s()), "InvalidMethod", 403),
        (ApiError::PolicyDenied(s()), "PolicyDenied", 403),
        (ApiError::PolicyTransportError(s()), "PolicyTransportError", 403),
        (ApiError::SigningFailed(s()), "SigningFailed", 422),
    ];
    for (e, kind, status) in cases {
        assert_eq!(e.kind(), kind);
        assert_eq!(e.status(), status);
    }
}
