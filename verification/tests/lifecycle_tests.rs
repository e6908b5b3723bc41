use event_backend::headers::{Environment, Response, SecurityHeaders};
use event_backend::identity::{diagnostic_dump, version_dump, BuildIdentity};
use event_backend::logging::{
    format_log_line, route_launch_line, LaunchConfig, RequestInfo, RequestLogger, RouteDescriptor,
};
use event_backend::pipeline::Pipeline;
use event_backend::snapshot::VersionReporter;
use event_backend::status::version;
use event_backend::text::u64_to_dec;

fn route(method: &str, uri: &str, rank: Option<u32>) -> RouteDescriptor {
    RouteDescriptor { method: method.to_string(), uri: uri.to_string(), rank }
}

#[test]
fn decimal_rendering() {
    assert_eq!(u64_to_dec(0), "0");
    assert_eq!(u64_to_dec(7), "7");
    assert_eq!(u64_to_dec(404), "404");
    assert_eq!(u64_to_dec(65535), "65535");
    assert_eq!(u64_to_dec(u64::MAX), "18446744073709551615");
}

#[test]
fn launch_dump_lists_address_environment_and_routes() {
    let config = LaunchConfig {
        address: "0.0.0.0".to_string(),
        port: 8000,
        environment: Environment::Production,
    };
    let routes = vec![route("GET", "/", None), route("GET", "/version", Some(2))];
    let lines = RequestLogger.on_launch(&config, &routes);
    assert_eq!(
        lines,
        vec![
            "Service is running on: http://[0.0.0.0]:8000".to_string(),
            "Currently running environment: production".to_string(),
            "Service has the following routes configured:".to_string(),
            "\tGET /".to_string(),
            "\tGET /version [2]".to_string(),
        ]
    );
}

#[test]
fn route_line_appends_only_non_default_ranks() {
    assert_eq!(route_launch_line(&route("POST", "/auth", None)), "\tPOST /auth");
    assert_eq!(route_launch_line(&route("POST", "/auth", Some(3))), "\tPOST /auth [3]");
}

#[test]
fn matched_request_line_names_the_handler() {
    let request = RequestInfo {
        method: "GET".to_string(),
        uri: "/version".to_string(),
        route: Some(route("GET", "/version", None)),
    };
    let response = Response::new(200, "OK".to_string(), String::new());
    let line = RequestLogger.on_response(&request, &response);
    assert_eq!(line, "GET /version (handler: GET /version) => 200 OK");
}

#[test]
fn unmatched_request_line_omits_the_handler_field() {
    let request =
        RequestInfo { method: "GET".to_string(), uri: "/missing".to_string(), route: None };
    let response = Response::new(404, "Not Found".to_string(), String::new());
    let line = RequestLogger.on_response(&request, &response);
    assert_eq!(line, "GET /missing => 404 Not Found");
    assert!(!line.contains("handler"));
    assert!(line.contains("GET"));
    assert!(line.contains("/missing"));
    assert!(line.contains("404"));
    assert!(line.contains("Not Found"));
}

#[test]
fn sink_line_format() {
    assert_eq!(format_log_line("[2021-06-01]", "INFO", "started"), "[2021-06-01][INFO] started");
}

#[test]
fn version_dump_lists_facts_and_omits_absent_ones() {
    let identity = BuildIdentity {
        build_profile: "release".to_string(),
        rust_version: "rustc 1.70.0".to_string(),
        rust_target: "x86_64".to_string(),
        git_branch: None,
        git_describe: Some("v1.0".to_string()),
        git_dirty: true,
        git_revision: Some("abc123".to_string()),
        git_tag: None,
    };
    let lines = version_dump(&identity);
    assert_eq!(
        lines,
        vec![
            "BUILD_PROFILE: release".to_string(),
            "RUSTC_VERSION: rustc 1.70.0".to_string(),
            "RUST_TARGET: x86_64".to_string(),
            "GIT_DESCRIBE: v1.0".to_string(),
            "GIT_DIRTY: true".to_string(),
            "GIT_REVISION: abc123".to_string(),
        ]
    );
}

#[test]
fn version_dump_lists_the_branch_between_target_and_describe() {
    let identity = BuildIdentity {
        build_profile: "debug".to_string(),
        rust_version: "rustc 1.70.0".to_string(),
        rust_target: "x86_64".to_string(),
        git_branch: Some("main".to_string()),
        git_describe: Some("v1.0".to_string()),
        git_dirty: false,
        git_revision: Some("abc123".to_string()),
        git_tag: Some("v1.0".to_string()),
    };
    let lines = version_dump(&identity);
    assert_eq!(
        lines,
        vec![
            "BUILD_PROFILE: debug".to_string(),
            "RUSTC_VERSION: rustc 1.70.0".to_string(),
            "RUST_TARGET: x86_64".to_string(),
            "GIT_BRANCH: main".to_string(),
            "GIT_DESCRIBE: v1.0".to_string(),
            "GIT_DIRTY: false".to_string(),
            "GIT_REVISION: abc123".to_string(),
            "GIT_TAG: v1.0".to_string(),
        ]
    );
}

#[test]
fn diagnostic_dump_is_opt_in() {
    assert!(diagnostic_dump("git describe --tags", "out", "err", false).is_empty());
    let lines = diagnostic_dump("git describe --tags", "out", "err", true);
    assert_eq!(
        lines,
        vec![
            "--------------------------------------------------".to_string(),
            "Dumping failed output for command: git describe --tags".to_string(),
            "--------------------------------------------------".to_string(),
            "STDOUT:".to_string(),
            "out".to_string(),
            "--------------------------------------------------".to_string(),
            "STDERR:".to_string(),
            "err".to_string(),
        ]
    );
}

#[test]
fn hooks_describe_themselves() {
    let logger_info = RequestLogger.info();
    assert_eq!(logger_info.name, "Request Logger");
    assert!(logger_info.kind.launch);
    assert!(logger_info.kind.response);
    let policy_info = SecurityHeaders::new(Environment::Development).info();
    assert_eq!(policy_info.name, "Security Headers");
    assert!(!policy_info.kind.launch);
    assert!(policy_info.kind.response);
}

#[test]
fn pipeline_launch_runs_the_logger_once() {
    let pipeline = Pipeline::standard(Environment::Staging);
    let config = LaunchConfig {
        address: "127.0.0.1".to_string(),
        port: 80,
        environment: Environment::Staging,
    };
    let routes = vec![route("GET", "/version", None)];
    let lines = pipeline.on_launch(&config, &routes);
    assert_eq!(
        lines,
        vec![
            "Service is running on: http://[127.0.0.1]:80".to_string(),
            "Currently running environment: staging".to_string(),
            "Service has the following routes configured:".to_string(),
            "\tGET /version".to_string(),
        ]
    );
}

#[test]
fn pipeline_finalizes_headers_before_logging_the_outcome() {
    let pipeline = Pipeline::standard(Environment::Production);
    let request = RequestInfo {
        method: "GET".to_string(),
        uri: "/version".to_string(),
        route: Some(route("GET", "/version", None)),
    };
    let mut response = Response::new(200, "OK".to_string(), "{}".to_string());
    response.headers.set_raw_header("Server", "Rocket");
    let lines = pipeline.on_response(&request, &mut response);
    assert_eq!(lines, vec!["GET /version (handler: GET /version) => 200 OK".to_string()]);
    assert!(response.headers.get("Server").is_none());
    assert_eq!(
        response.headers.get("Strict-Transport-Security").as_deref(),
        Some("max-age=31536000; includeSubDomains;")
    );
    assert_eq!(response.body, "{}");
    assert_eq!(response.status_code, 200);
}

fn production_identity() -> BuildIdentity {
    BuildIdentity {
        build_profile: "release".to_string(),
        rust_version: "rustc 1.70.0".to_string(),
        rust_target: "x86_64".to_string(),
        git_branch: Some("main".to_string()),
        git_describe: Some("v1.0".to_string()),
        git_dirty: false,
        git_revision: Some("abc123".to_string()),
        git_tag: None,
    }
}

#[test]
fn version_query_in_production_carries_transport_headers() {
    let mut reporter = VersionReporter::new(production_identity());
    let reply = version(&mut reporter);
    let mut response = Response::new(reply.status_code, reply.status_reason, reply.body);
    let pipeline = Pipeline::standard(Environment::Production);
    let request = RequestInfo {
        method: "GET".to_string(),
        uri: "/version".to_string(),
        route: Some(route("GET", "/version", None)),
    };
    pipeline.on_response(&request, &mut response);
    assert_eq!(response.status_code, 200);
    assert!(response.body.contains("\"build_profile\""));
    let value: serde_json::Value = serde_json::from_str(&response.body).expect("valid JSON");
    assert!(value["git_dirty"].is_boolean());
    assert!(!response.body.contains("git_tag"));
    assert_eq!(
        response.headers.get("Strict-Transport-Security").as_deref(),
        Some("max-age=31536000; includeSubDomains;")
    );
}

#[test]
fn version_query_in_development_same_body_without_transport_headers() {
    let mut production_reporter = VersionReporter::new(production_identity());
    let production_body = version(&mut production_reporter).body;

    let mut reporter = VersionReporter::new(production_identity());
    let reply = version(&mut reporter);
    let mut response = Response::new(reply.status_code, reply.status_reason, reply.body);
    let pipeline = Pipeline::standard(Environment::Development);
    let request = RequestInfo {
        method: "GET".to_string(),
        uri: "/version".to_string(),
        route: Some(route("GET", "/version", None)),
    };
    pipeline.on_response(&request, &mut response);
    assert_eq!(response.status_code, 200);
    assert_eq!(response.body, production_body);
    assert!(response.headers.get("Strict-Transport-Security").is_none());
    assert!(response.headers.get("Expect-CT").is_none());
}
