use std::time::Instant;

use mcp_pool::config::ServerDef;
use mcp_pool::pool::{upstream_spec_from_def, Pool};
use mcp_pool::socket_proxy::SocketProxy;
use mcp_pool::types::{PoolStatusResponse, ServerStatus};
use mcp_pool::upstream::UpstreamSpec;

fn remote(sse: bool) -> UpstreamSpec {
    UpstreamSpec::Http { url: "http://x".to_string(), sse }
}

#[test]
fn servers_that_were_never_started_are_stopped() {
    let proxy = SocketProxy::new("a".to_string(), "/s".to_string(), remote(false), true);
    assert_eq!(proxy.status(), ServerStatus::Stopped);
    assert_eq!(proxy.socket_path(), "");
    assert!(!proxy.is_owned());
    assert_eq!(proxy.uptime_seconds(10), None);
    assert_eq!(proxy.connection_count(), 0);
}

#[test]
fn started_servers_run_until_they_are_stopped() {
    let mut proxy = SocketProxy::new("a".to_string(), "/s".to_string(), remote(false), true);
    assert!(!proxy.connect("c"));
    assert!(proxy.start(100));
    assert!(!proxy.start(200));
    assert_eq!(proxy.status(), ServerStatus::Running);
    assert_eq!(proxy.socket_path(), "/s");
    assert!(proxy.is_owned());
    assert_eq!(proxy.uptime_seconds(107), Some(7));
    assert_eq!(proxy.uptime_seconds(99), Some(0));
    assert!(proxy.connect("c"));
    assert!(proxy.connect("d"));
    assert_eq!(proxy.connection_count(), 2);
    assert!(proxy.forward("c", "{\"id\":1,\"method\":\"m\"}", Instant::now()).is_some());
    proxy.disconnect("d");
    assert_eq!(proxy.connection_count(), 1);
    assert!(proxy.stop());
    assert!(!proxy.stop());
    assert_eq!(proxy.status(), ServerStatus::Stopped);
    assert_eq!(proxy.connection_count(), 0);
}

#[test]
fn restarted_servers_start_afresh() {
    let mut proxy = SocketProxy::new("a".to_string(), "/s".to_string(), remote(false), true);
    proxy.start(100);
    proxy.connect("c");
    proxy.forward("c", "{\"id\":1,\"method\":\"m\"}", Instant::now());
    proxy.restart(150);
    assert_eq!(proxy.status(), ServerStatus::Running);
    assert_eq!(proxy.uptime_seconds(151), Some(1));
    assert_eq!(proxy.connection_count(), 0);
    assert!(proxy.route("{\"id\":1,\"result\":0}").is_none());
}

#[test]
fn an_empty_pool_reports_nothing() {
    let pool = Pool::new();
    assert!(!pool.is_running("a"));
    assert_eq!(pool.socket_path("a"), None);
    let status = pool.get_status(0);
    assert_eq!((status.server_count, status.servers.len()), (0, 0));
    let nothing = PoolStatusResponse::default();
    assert_eq!((nothing.server_count, nothing.servers.len()), (0, 0));
}

#[test]
fn servers_are_started_once_and_reported_in_order() {
    let mut pool = Pool::new();
    assert!(pool.start("b", "/b", remote(true), 10));
    let stdio = UpstreamSpec::Stdio {
        command: "npx".to_string(),
        args: vec![],
        env: mcp_pool::names::NameMap::new(),
    };
    assert!(pool.start("a", "/a", stdio, 20));
    assert!(!pool.start("b", "/other", remote(false), 30));
    assert!(pool.is_running("a"));
    assert_eq!(pool.socket_path("b").as_deref(), Some("/b"));
    let status = pool.get_status(40);
    assert_eq!(status.server_count, 2);
    let first = status.servers[0].clone();
    assert_eq!(first.name, "a");
    assert_eq!(first.status, ServerStatus::Running);
    assert_eq!(first.socket_path, "/a");
    assert_eq!(first.uptime_seconds, Some(20));
    assert_eq!(first.connection_count, 0);
    assert!(first.owned);
    assert_eq!(first.transport, "stdio");
    assert_eq!(status.servers[1].name, "b");
    assert_eq!(status.servers[1].uptime_seconds, Some(30));
    assert_eq!(status.servers[1].transport, "sse");
}

#[test]
fn live_sockets_are_adopted() {
    let mut pool = Pool::new();
    pool.start("a", "/a", remote(false), 1);
    assert!(!pool.adopt("a", "/other", remote(false), true, 2));
    assert!(!pool.adopt("b", "/b", remote(false), false, 2));
    assert!(!pool.is_running("b"));
    assert!(pool.adopt("b", "/b", remote(false), true, 2));
    assert!(pool.is_running("b"));
    let status = pool.get_status(5);
    assert_eq!(status.servers[0].socket_path, "/a");
    assert!(status.servers[0].owned);
    assert_eq!(status.servers[1].socket_path, "/b");
    assert!(!status.servers[1].owned);
    assert_eq!(status.servers[1].uptime_seconds, Some(3));
}

#[test]
fn servers_leave_the_pool() {
    let mut pool = Pool::new();
    pool.start("a", "/a", remote(false), 1);
    pool.start("b", "/b", remote(false), 1);
    assert!(pool.restart("a", 5));
    assert!(!pool.restart("x", 5));
    assert_eq!(pool.get_status(6).servers[0].uptime_seconds, Some(1));
    assert!(pool.stop_server("a"));
    assert!(!pool.stop_server("a"));
    assert!(!pool.is_running("a"));
    pool.shutdown();
    assert_eq!(pool.get_status(7).server_count, 0);
}

#[test]
fn upstreams_follow_the_configuration() {
    let mut def = ServerDef {
        command: "npx".to_string(),
        args: vec!["-y".to_string()],
        ..Default::default()
    };
    def.env.insert("K".to_string(), "v".to_string());
    match upstream_spec_from_def(&def) {
        UpstreamSpec::Stdio { command, args, env } => {
            assert_eq!(command, "npx");
            assert_eq!(args, vec!["-y".to_string()]);
            assert_eq!(env.get("K").map(|value| value.as_str()), Some("v"));
        }
        other => panic!("{other:?}"),
    }
    assert!(matches!(
        upstream_spec_from_def(&def).clone(),
        UpstreamSpec::Stdio { command, args, env }
            if command == "npx" && args.len() == 1 && env.contains_key("K")
    ));
    def.url = "http://x".to_string();
    def.transport = "SSE".to_string();
    assert!(matches!(
        upstream_spec_from_def(&def),
        UpstreamSpec::Http { url, sse: true } if url == "http://x"
    ));
    assert!(matches!(
        upstream_spec_from_def(&def).clone(),
        UpstreamSpec::Http { url, sse: true } if url == "http://x"
    ));
    def.transport = "http".to_string();
    assert!(matches!(upstream_spec_from_def(&def), UpstreamSpec::Http { sse: false, .. }));
}
