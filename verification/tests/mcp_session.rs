use mcp_pool::json::Json;
use mcp_pool::mcp_session::{
    build_error_response, build_success_response, cacheable_method, is_empty_id_error,
    is_session_not_found_error, parse_client_capabilities, should_swallow_initialized,
    CacheableMethod, ClientCapabilities, HandshakeCache, PendingRequestInfo, PendingWaiter,
    RecoveryReason,
};
use mcp_pool::names::NameMap;

fn object(entries: Vec<(&str, Json)>) -> Json {
    let mut map = NameMap::new();
    for (name, value) in entries {
        map.insert(name.to_string(), value);
    }
    Json::Object(map)
}

fn error(code: i64, message: &str) -> Json {
    object(vec![("code", Json::integer(code)), ("message", Json::string(message))])
}

#[test]
fn cacheable_method_recognizes_handshake_methods_only() {
    assert_eq!(cacheable_method("initialize"), Some(CacheableMethod::Initialize));
    assert_eq!(cacheable_method("tools/list"), Some(CacheableMethod::ToolsList));
    assert_eq!(cacheable_method("tools/call"), None);
    assert_eq!(cacheable_method("notifications/initialized"), None);
}

#[test]
fn parse_client_capabilities_reads_sampling_and_roots() {
    let request = object(vec![
        ("jsonrpc", Json::string("2.0")),
        ("id", Json::Unsigned(1)),
        ("method", Json::string("initialize")),
        (
            "params",
            object(vec![(
                "capabilities",
                object(vec![
                    ("sampling", object(vec![])),
                    ("roots", object(vec![("listChanged", Json::Bool(true))])),
                ]),
            )]),
        ),
    ]);

    let capabilities = parse_client_capabilities(&request);

    assert!(capabilities.sampling);
    assert!(capabilities.roots);
}

#[test]
fn capabilities_have_to_be_objects() {
    let request = Json::parse(
        "{\"params\":{\"capabilities\":{\"sampling\":true,\"roots\":null}}}",
    )
    .unwrap();
    assert_eq!(parse_client_capabilities(&request), ClientCapabilities::default());
    assert_eq!(parse_client_capabilities(&object(vec![])), ClientCapabilities::default());
    assert_eq!(parse_client_capabilities(&Json::Null), ClientCapabilities::default());
}

#[test]
fn session_not_found_requires_code_and_message() {
    let lost = object(vec![
        ("jsonrpc", Json::string("2.0")),
        ("id", Json::string("")),
        ("error", error(-32001, "Session not found")),
    ]);
    let wrong_code = object(vec![
        ("jsonrpc", Json::string("2.0")),
        ("id", Json::string("")),
        ("error", error(-32002, "Session not found")),
    ]);
    let wrong_message = object(vec![
        ("jsonrpc", Json::string("2.0")),
        ("id", Json::string("")),
        ("error", error(-32001, "Other failure")),
    ]);

    assert!(is_session_not_found_error(&lost));
    assert!(!is_session_not_found_error(&wrong_code));
    assert!(!is_session_not_found_error(&wrong_message));
}

#[test]
fn session_not_found_is_looked_for_inside_the_message() {
    let inside = object(vec![("error", error(-32001, "x: Session not found (404)"))]);
    assert!(is_session_not_found_error(&inside));
    assert!(!is_session_not_found_error(&object(vec![("result", Json::Null)])));
    let float = Json::parse(
        "{\"error\":{\"code\":-32001.0,\"message\":\"Session not found\"}}",
    )
    .unwrap();
    assert!(!is_session_not_found_error(&float));
}

#[test]
fn empty_id_error_requires_error_and_empty_string_id() {
    assert!(is_empty_id_error(&object(vec![
        ("jsonrpc", Json::string("2.0")),
        ("id", Json::string("")),
        ("error", error(-32001, "Session not found")),
    ])));
    assert!(!is_empty_id_error(&object(vec![
        ("jsonrpc", Json::string("2.0")),
        ("id", Json::string("")),
        ("result", object(vec![])),
    ])));
    assert!(!is_empty_id_error(&object(vec![
        ("jsonrpc", Json::string("2.0")),
        ("error", error(-32001, "Session not found")),
    ])));
}

#[test]
fn requests_are_no_empty_id_errors() {
    assert!(!is_empty_id_error(&object(vec![
        ("id", Json::string("")),
        ("method", Json::string("ping")),
        ("error", Json::Null),
    ])));
    assert!(!is_empty_id_error(&object(vec![("id", Json::Unsigned(0)), ("error", Json::Null)])));
}

#[test]
fn cached_initialize_lifecycle_swallows_initialized_notification() {
    let initialized = object(vec![
        ("jsonrpc", Json::string("2.0")),
        ("method", Json::string("notifications/initialized")),
    ]);
    let progress = object(vec![
        ("jsonrpc", Json::string("2.0")),
        ("method", Json::string("notifications/progress")),
    ]);
    assert!(should_swallow_initialized(true, &initialized));
    assert!(!should_swallow_initialized(false, &initialized));
    assert!(!should_swallow_initialized(true, &progress));
}

#[test]
fn initialized_with_an_id_is_forwarded() {
    let name = "notifications/initialized";
    let null_id = object(vec![("method", Json::string(name)), ("id", Json::Null)]);
    assert!(should_swallow_initialized(true, &null_id));
    let with_id = object(vec![("method", Json::string(name)), ("id", Json::Unsigned(1))]);
    assert!(!should_swallow_initialized(true, &with_id));
}

#[test]
fn responses_are_written_as_lines() {
    assert_eq!(
        build_success_response(Json::Unsigned(3), Json::Bool(true)),
        "{\"id\":3,\"jsonrpc\":\"2.0\",\"result\":true}"
    );
    assert_eq!(
        build_error_response(Json::string("a"), -32001, "no \"x\""),
        "{\"error\":{\"code\":-32001,\"message\":\"no \\\"x\\\"\"},\"id\":\"a\",\"jsonrpc\":\"2.0\"}"
    );
}

#[test]
fn stored_results_are_found_again() {
    let mut cache = HandshakeCache::default();
    assert_eq!(cache.get("initialize"), None);
    cache.store("initialize", Json::Unsigned(1));
    cache.store("tools/list", Json::Unsigned(2));
    cache.store("tools/call", Json::Unsigned(3));
    assert_eq!(cache.get("initialize"), Some(Json::Unsigned(1)));
    assert_eq!(cache.get("tools/list"), Some(Json::Unsigned(2)));
    assert_eq!(cache.get("tools/call"), None);
    assert_eq!(cache.tools_list.last_good_result, Some(Json::Unsigned(2)));
}

#[test]
fn last_good_tools_are_kept() {
    let mut cache = HandshakeCache::default();
    cache.store("initialize", Json::Unsigned(1));
    cache.store("tools/list", Json::Unsigned(2));
    cache.tools_list.in_flight = true;
    cache.tools_list.waiters.push(PendingWaiter {
        client_id: "c".to_string(),
        original_id: Json::Unsigned(1),
        inserted_at: std::time::Instant::now(),
    });
    cache.invalidate_tools_list();
    assert_eq!(cache.get("tools/list"), None);
    assert_eq!(cache.get("initialize"), Some(Json::Unsigned(1)));
    assert_eq!(cache.tools_list.last_good_result, Some(Json::Unsigned(2)));
    assert_eq!(cache.tools_list.waiters.len(), 1);
    assert!(cache.tools_list.in_flight);
    cache.clear_all();
    assert_eq!(cache.get("initialize"), None);
    assert_eq!(cache.tools_list.last_good_result, Some(Json::Unsigned(2)));
    assert_eq!(cache.tools_list.waiters.len(), 0);
    assert!(!cache.tools_list.in_flight);
}

#[test]
fn pending_requests_are_copied_whole() {
    let info = PendingRequestInfo {
        client_id: "c".to_string(),
        original_id: Json::string("x"),
        method: Some("ping".to_string()),
        inserted_at: std::time::Instant::now(),
    };
    let copy = info.clone();
    assert_eq!(copy.client_id, "c");
    assert_eq!(copy.original_id, Json::string("x"));
    assert_eq!(copy.method.as_deref(), Some("ping"));
    assert_eq!(copy.inserted_at, info.inserted_at);
    assert_eq!(RecoveryReason::SessionNotFound, RecoveryReason::SessionNotFound);
}
