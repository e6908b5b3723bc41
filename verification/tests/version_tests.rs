use event_backend::identity::{capture_identity, command_fact, BuildIdentity, CaptureError};
use event_backend::snapshot::VersionReporter;
use event_backend::status::{routes, version};

fn full_identity() -> BuildIdentity {
    BuildIdentity {
        build_profile: "release".to_string(),
        rust_version: "rustc 1.70.0".to_string(),
        rust_target: "x86_64-unknown-linux-gnu".to_string(),
        git_branch: Some("main".to_string()),
        git_describe: Some("v1.0-3-gabc".to_string()),
        git_dirty: false,
        git_revision: Some("abc123".to_string()),
        git_tag: Some("v1.0".to_string()),
    }
}

#[test]
fn test_version_handler() {
    let mut reporter = VersionReporter::new(full_identity());
    let reply = version(&mut reporter);
    assert_eq!(reply.status_code, 200);
    assert_eq!(reply.content_type, "application/json");
}

#[test]
fn status_routes_describe_the_version_query() {
    let r = routes();
    assert_eq!(r.len(), 1);
    assert_eq!(r[0].method, "GET");
    assert_eq!(r[0].uri, "/version");
    assert!(r[0].rank.is_none());
}

#[test]
fn snapshot_serializes_every_fact_in_order() {
    let mut reporter = VersionReporter::new(full_identity());
    let reply = version(&mut reporter);
    assert_eq!(
        reply.body,
        "{\"build_profile\":\"release\",\"rust_version\":\"rustc 1.70.0\",\
         \"rust_target\":\"x86_64-unknown-linux-gnu\",\"git_describe\":\"v1.0-3-gabc\",\
         \"git_dirty\":false,\"git_revision\":\"abc123\",\"git_branch\":\"main\",\
         \"git_tag\":\"v1.0\"}"
    );
}

#[test]
fn snapshot_is_valid_json_with_boolean_dirty_flag() {
    let mut reporter = VersionReporter::new(full_identity());
    let reply = version(&mut reporter);
    let value: serde_json::Value = serde_json::from_str(&reply.body).expect("valid JSON");
    assert_eq!(value["build_profile"], serde_json::Value::String("release".to_string()));
    assert!(value["git_dirty"].is_boolean());
    assert_eq!(value["git_dirty"], serde_json::Value::Bool(false));
}

#[test]
fn snapshot_quotes_and_escapes_string_values() {
    let mut identity = full_identity();
    identity.build_profile = "de\"bug\\".to_string();
    let mut reporter = VersionReporter::new(identity);
    let reply = version(&mut reporter);
    let quoted = serde_json::to_string("de\"bug\\").unwrap();
    assert!(reply.body.contains(&format!("\"build_profile\":{}", quoted)));
    assert!(!reply.body.contains("\"build_profile\":de"));
}

#[test]
fn repeated_queries_return_byte_identical_payloads() {
    let mut reporter = VersionReporter::new(full_identity());
    let first = version(&mut reporter).body;
    for _ in 0..5 {
        assert_eq!(version(&mut reporter).body, first);
    }
}

#[test]
fn first_query_publishes_the_cache_and_later_queries_reuse_it() {
    let mut reporter = VersionReporter::new(full_identity());
    assert!(reporter.cached.is_none());
    let first = version(&mut reporter).body;
    let published = reporter.cached.clone();
    assert_eq!(published.as_deref(), Some(first.as_str()));
    let second = version(&mut reporter).body;
    assert_eq!(second, first);
    assert_eq!(reporter.cached, published);
}

#[test]
fn capture_without_version_control_omits_git_facts_and_fails_safe_dirty() {
    let identity = capture_identity(
        Some("release".to_string()),
        Some("rustc 1.70.0".to_string()),
        Some("x86_64-unknown-linux-gnu".to_string()),
        None,
        None,
        false,
        None,
        None,
    )
    .expect("capture succeeds without git");
    assert!(identity.git_branch.is_none());
    assert!(identity.git_describe.is_none());
    assert!(identity.git_revision.is_none());
    assert!(identity.git_tag.is_none());
    assert!(identity.git_dirty);

    let mut reporter = VersionReporter::new(identity);
    let reply = version(&mut reporter);
    assert!(!reply.body.contains("git_branch"));
    assert!(!reply.body.contains("git_describe"));
    assert!(!reply.body.contains("git_revision"));
    assert!(!reply.body.contains("git_tag"));
    assert!(reply.body.contains("\"git_dirty\":true"));
}

#[test]
fn capture_fails_only_without_compiler_identity() {
    let failed = capture_identity(
        Some("debug".to_string()),
        None,
        Some("x86_64-unknown-linux-gnu".to_string()),
        None,
        None,
        true,
        None,
        None,
    );
    assert!(matches!(failed, Err(CaptureError::CompilerUnavailable)));
}

#[test]
fn any_failed_command_yields_no_fact() {
    assert_eq!(command_fact(true, "v1.0".to_string()), Some("v1.0".to_string()));
    assert_eq!(command_fact(false, "v1.0".to_string()), None);
}

#[test]
fn capture_carries_every_git_fact_through() {
    let identity = capture_identity(
        Some("release".to_string()),
        Some("rustc 1.70.0".to_string()),
        Some("x86_64".to_string()),
        Some("main".to_string()),
        Some("v1.0-3-gabc".to_string()),
        true,
        Some("abc123".to_string()),
        Some("v1.0".to_string()),
    )
    .expect("capture succeeds");
    assert_eq!(identity.git_branch.as_deref(), Some("main"));
    assert_eq!(identity.git_describe.as_deref(), Some("v1.0-3-gabc"));
    assert!(!identity.git_dirty);
    assert_eq!(identity.git_revision.as_deref(), Some("abc123"));
    assert_eq!(identity.git_tag.as_deref(), Some("v1.0"));
}

#[test]
fn capture_defaults_profile_and_target_to_unknown() {
    let identity =
        capture_identity(None, Some("rustc 1.70.0".to_string()), None, None, None, true, None, None)
            .expect("compiler identity present");
    assert_eq!(identity.build_profile, "unknown");
    assert_eq!(identity.rust_target, "unknown");
    assert!(!identity.git_dirty);
}
