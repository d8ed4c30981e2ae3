use storage::error::ApiError;
use storage::gateway::{
    authorization_result, redirect, sign_reply, signed_uri, AuthzQuery, Gateway, PolicyOutcome,
    Reply, SignPayload, DEFAULT_BACKEND,
};
use storage::keys::Action;
use storage::table::Table;
use storage::tenant::{AudienceEstimator, AudienceSettings};

fn gateway(bypass: bool, referers: Option<Vec<&str>>) -> Gateway<String> {
    let mut backends = Table::new();
    backends.insert("default".to_string(), "https://s3.default".to_string());
    backends.insert("archive".to_string(), "https://s3.archive".to_string());
    let mut estimator = AudienceEstimator::new();
    estimator.add_bucket("b1".to_string(), "aud1".to_string());
    estimator.add_rule("example.org".to_string(), "aud2".to_string());
    let mut settings = Table::new();
    if let Some(list) = referers {
        let list: Vec<String> = list.into_iter().map(String::from).collect();
        settings.insert("aud1".to_string(), AudienceSettings::new(list));
    }
    Gateway::new(backends, estimator, settings, bypass)
}

fn presign(client: &str, method: &str, bucket: &str, key: &str) -> String {
    format!("{}/{}/{}?method={}&signature=abc", client, bucket, key, method)
}

fn query_is(q: &AuthzQuery, audience: &str, subject: &str, resource: &[&str], action: Action) -> bool {
    q.audience == audience && q.subject == subject && q.resource == resource && q.action == action
}

#[test]
fn default_backend_is_registered() {
    let g = gateway(false, None);
    assert_eq!(g.resolve_backend(DEFAULT_BACKEND).unwrap(), "https://s3.default");
    assert_eq!(g.resolve_backend("archive").unwrap(), "https://s3.archive");
}

#[test]
fn object_read_scenario() {
    let g = gateway(false, None);
    let (client, plan) = g.plan_object_read(DEFAULT_BACKEND, "b1", "o1", Some("u1")).unwrap();
    let q = plan.authz.as_ref().unwrap();
    assert!(query_is(q, "aud1", "u1", &["buckets", "b1", "objects", "o1"], Action::Read));
    authorization_result(PolicyOutcome::Allow).unwrap();
    let uri = presign(client, "GET", &plan.bucket, &plan.key);
    let reply = redirect(Ok(uri.clone())).unwrap();
    assert_eq!(reply.status(), 303);
    assert_eq!(reply.uri(), &uri);
    assert_eq!(uri, "https://s3.default/b1/o1?method=GET&signature=abc");
}

#[test]
fn object_read_through_named_backend_and_domain_rule() {
    let g = gateway(false, None);
    let (client, plan) = g.plan_object_read("archive", "origin.example.org", "o1", Some("u1")).unwrap();
    assert_eq!(client, "https://s3.archive");
    let q = plan.authz.unwrap();
    assert!(query_is(&q, "aud2", "u1", &["buckets", "origin.example.org", "objects", "o1"], Action::Read));
}

#[test]
fn unknown_backend_is_not_found_first() {
    let g = gateway(false, None);
    match g.plan_object_read("nope", "zz", "o1", None) {
        Err(ApiError::BackendNotFound(b)) => assert_eq!(b, "nope"),
        other => panic!("unexpected {:?}", other),
    }
    match g.plan_set_read("nope", "zz", "not-a-number", "o1", None, None) {
        Err(e) => assert_eq!(e.status(), 404),
        other => panic!("unexpected {:?}", other),
    }
    let payload = sign_payload(Some("bad"), "PATCH");
    match g.plan_sign("nope", payload, "u1", None) {
        Err(ApiError::BackendNotFound(b)) => assert_eq!(b, "nope"),
        other => panic!("unexpected {:?}", other),
    }
}

#[test]
fn bypass_read_without_subject_skips_policy() {
    let g = gateway(true, Some(vec![]));
    let (_, plan) = g.plan_object_read(DEFAULT_BACKEND, "unknown-bucket", "o1", None).unwrap();
    assert!(plan.authz.is_none());
    let (_, plan) = g.plan_set_read(DEFAULT_BACKEND, "b1", "12345", "o1", None, None).unwrap();
    assert!(plan.authz.is_none());
    assert_eq!(plan.key, "12345.o1");
}

#[test]
fn read_without_subject_is_forbidden() {
    let g = gateway(false, Some(vec![]));
    let e = g.plan_object_read(DEFAULT_BACKEND, "b1", "o1", None).unwrap_err();
    assert!(matches!(e, ApiError::MissingSubject));
    assert_eq!(e.status(), 403);
    let e = g.plan_set_read(DEFAULT_BACKEND, "b1", "12345", "o1", None, None).unwrap_err();
    assert!(matches!(e, ApiError::MissingSubject));
}

#[test]
fn object_read_unknown_audience_is_forbidden() {
    let g = gateway(false, None);
    match g.plan_object_read(DEFAULT_BACKEND, "b2", "o1", Some("u1")) {
        Err(ApiError::AudienceForbidden(b)) => assert_eq!(b, "b2"),
        other => panic!("unexpected {:?}", other),
    }
    assert_eq!(ApiError::AudienceForbidden("b2".to_string()).status(), 403);
}

#[test]
fn referer_allow_list_is_enforced() {
    let settings = AudienceSettings::new(vec!["https://a.example".to_string()]);
    assert!(!settings.valid_referer(Some("https://b.example")));
    assert!(settings.valid_referer(Some("https://a.example")));
    assert!(!settings.valid_referer(None));
    let open = AudienceSettings::new(vec![]);
    assert!(open.valid_referer(None));
    assert!(open.valid_referer(Some("https://b.example")));

    let g = gateway(false, Some(vec!["https://a.example"]));
    let e = g.plan_set_read(DEFAULT_BACKEND, "b1", "12345", "o1", Some("u1"), Some("https://b.example")).unwrap_err();
    assert!(matches!(e, ApiError::RefererRejected));
    assert_eq!(e.status(), 403);
    let (_, plan) = g.plan_set_read(DEFAULT_BACKEND, "b1", "12345", "o1", Some("u1"), Some("https://a.example")).unwrap();
    let q = plan.authz.unwrap();
    assert!(query_is(&q, "aud1", "u1", &["buckets", "b1", "sets", "12345"], Action::Read));
    assert_eq!(plan.key, "12345.o1");
}

#[test]
fn set_read_with_invalid_set_id() {
    let g = gateway(false, Some(vec![]));
    let e = g.plan_set_read(DEFAULT_BACKEND, "b1", "08286a1c-3984", "o1", Some("u1"), None).unwrap_err();
    assert!(matches!(e, ApiError::InvalidSetId));
    assert_eq!(e.status(), 403);
}

#[test]
fn set_read_without_tenant_settings() {
    let g = gateway(false, None);
    match g.plan_set_read(DEFAULT_BACKEND, "b1", "12345", "o1", Some("u1"), None) {
        Err(ApiError::TenantSettingsNotFound(b)) => assert_eq!(b, "b1"),
        other => panic!("unexpected {:?}", other),
    }
    assert_eq!(ApiError::TenantSettingsNotFound("b1".to_string()).status(), 404);
}

#[test]
fn set_read_without_audience() {
    let g = gateway(false, Some(vec![]));
    let e = g.plan_set_read(DEFAULT_BACKEND, "nodomain", "12345", "o1", Some("u1"), None).unwrap_err();
    match &e {
        ApiError::AudienceNotFound(b) => assert_eq!(b, "nodomain"),
        other => panic!("unexpected {:?}", other),
    }
    assert_eq!(e.status(), 404);
}

fn sign_payload(set: Option<&str>, method: &str) -> SignPayload {
    SignPayload {
        bucket: "b1".to_string(),
        set: set.map(String::from),
        object: "o1".to_string(),
        method: method.to_string(),
        headers: vec![("Content-Type".to_string(), "text/plain".to_string())],
    }
}

#[test]
fn sign_scenario() {
    let g = gateway(false, Some(vec![]));
    let (client, plan) = g.plan_sign(DEFAULT_BACKEND, sign_payload(None, "PUT"), "u1", None).unwrap();
    assert_eq!(plan.request.method, "PUT");
    assert_eq!(plan.request.bucket, "b1");
    assert_eq!(plan.request.key, "o1");
    assert_eq!(plan.request.headers, vec![("Content-Type".to_string(), "text/plain".to_string())]);
    assert!(query_is(&plan.authz, "aud1", "u1", &["buckets", "b1", "objects", "o1"], Action::Update));
    let uri = signed_uri(Ok(presign(client, "PUT", "b1", "o1"))).unwrap();
    let reply = sign_reply(uri, PolicyOutcome::Allow).unwrap();
    assert_eq!(reply.status(), 200);
    assert!(matches!(&reply, Reply::Signed(u) if u == "https://s3.default/b1/o1?method=PUT&signature=abc"));
}

#[test]
fn sign_in_set_uses_composite_key() {
    let g = gateway(false, Some(vec![]));
    let (_, plan) = g.plan_sign(DEFAULT_BACKEND, sign_payload(Some("12345"), "DELETE"), "u1", None).unwrap();
    assert_eq!(plan.request.key, "12345.o1");
    assert!(query_is(&plan.authz, "aud1", "u1", &["buckets", "b1", "sets", "12345"], Action::Delete));
}

#[test]
fn sign_with_invalid_set_id() {
    let g = gateway(false, Some(vec![]));
    let e = g.plan_sign(DEFAULT_BACKEND, sign_payload(Some("not-a-number"), "PUT"), "u1", None).unwrap_err();
    assert!(matches!(e, ApiError::InvalidSetId));
    assert_eq!(e.status(), 403);
}

#[test]
fn sign_with_invalid_method() {
    let g = gateway(false, Some(vec![]));
    match g.plan_sign(DEFAULT_BACKEND, sign_payload(None, "PATCH"), "u1", None) {
        Err(ApiError::InvalidMethod(m)) => assert_eq!(m, "PATCH"),
        other => panic!("unexpected {:?}", other),
    }
}

#[test]
fn sign_denied_never_returns_the_uri() {
    let uri = "https://s3.default/b1/o1?signature=secret".to_string();
    match sign_reply(uri.clone(), PolicyOutcome::Deny("no".to_string())) {
        Err(ApiError::PolicyDenied(reason)) => {
            assert_eq!(reason, "no");
            assert!(!reason.contains("secret"));
        }
        other => panic!("unexpected {:?}", other),
    }
    let e = sign_reply(uri, PolicyOutcome::TransportError("timeout".to_string())).unwrap_err();
    assert!(matches!(&e, ApiError::PolicyTransportError(m) if m == "timeout"));
    assert_eq!(e.status(), 403);
}

#[test]
fn signer_failure_is_unprocessable() {
    let e = signed_uri(Err("bad header".to_string())).unwrap_err();
    assert!(matches!(&e, ApiError::SigningFailed(m) if m == "bad header"));
    assert_eq!(e.status(), 422);
    let e = redirect(Err("no such key".to_string())).unwrap_err();
    assert_eq!(e.status(), 422);
}

#[test]
fn policy_outcomes() {
    assert!(authorization_result(PolicyOutcome::Allow).is_ok());
    let e = authorization_result(PolicyOutcome::Deny("denied".to_string())).unwrap_err();
    assert!(matches!(&e, ApiError::PolicyDenied(m) if m == "denied"));
    assert_eq!(e.status(), 403);
}

#[test]
fn estimator_rules() {
    let mut est = AudienceEstimator::new();
    est.add_rule("example.org".to_string(), "aud2".to_string());
    est.add_bucket("special.example.org".to_string(), "aud3".to_string());
    assert_eq!(est.estimate("origin.example.org").unwrap(), "aud2");
    assert_eq!(est.estimate("special.example.org").unwrap(), "aud3");
    assert!(est.estimate("example.org").is_none());
    assert!(est.estimate("origin").is_none());
    assert_eq!(est.estimate("a.b.example.org"), None);
    est.add_rule("example.org".to_string(), "aud4".to_string());
    assert_eq!(est.estimate("origin.example.org").unwrap(), "aud4");
}

#[test]
fn table_replaces_values() {
    let mut t: Table<u32> = Table::new();
    t.insert("a".to_string(), 1);
    t.insert("b".to_string(), 2);
    t.insert("a".to_string(), 3);
    assert_eq!(t.get("a"), Some(&3));
    assert_eq!(t.get("b"), Some(&2));
    assert_eq!(t.get("c"), None);
    assert_eq!(t.index_of("b"), Some(1));
}
