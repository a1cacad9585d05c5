use mcp_pool::cli::print_status_table;
use mcp_pool::json::Json;
use mcp_pool::pool::Pool;
use mcp_pool::types::{McpServerStatus, PoolStatusResponse, ServerStatus};
use mcp_pool::upstream::UpstreamSpec;

#[test]
fn status_serializes_lowercase() {
    assert_eq!(Json::string(ServerStatus::Running.word()).to_line(), "\"running\"");
    assert_eq!(Json::string(ServerStatus::Starting.word()).to_line(), "\"starting\"");
    assert_eq!(Json::string(ServerStatus::Stopped.word()).to_line(), "\"stopped\"");
}

fn report() -> PoolStatusResponse {
    PoolStatusResponse {
        server_count: 1,
        servers: vec![McpServerStatus {
            name: "a".to_string(),
            status: ServerStatus::Starting,
            socket_path: "/a".to_string(),
            uptime_seconds: None,
            connection_count: 3,
            owned: true,
            transport: "sse".to_string(),
        }],
    }
}

#[test]
fn reports_have_all_members() {
    assert_eq!(
        report().to_json().to_line(),
        "{\"server_count\":1,\"servers\":[{\"connection_count\":3,\"name\":\"a\",\"owned\":true,\
         \"socket_path\":\"/a\",\"status\":\"starting\",\"transport\":\"sse\",\
         \"uptime_seconds\":null}]}"
    );
    let mut timed = report();
    timed.servers[0].uptime_seconds = Some(7);
    assert!(timed.to_json().to_line().contains("\"uptime_seconds\":7"));
    assert_eq!(
        PoolStatusResponse::default().to_json().to_line(),
        "{\"server_count\":0,\"servers\":[]}"
    );
}

#[test]
fn reports_are_read_from_their_line() {
    let value = report().to_json();
    assert_eq!(Json::parse(&value.to_line()), Some(value));
}

#[test]
fn reports_are_copied_whole() {
    let copy = report().clone();
    assert_eq!(copy.server_count, 1);
    assert_eq!(copy.to_json(), report().to_json());
}

#[test]
fn what_the_pool_reports_is_shown() {
    let mut pool = Pool::new();
    pool.start("a", "/a", UpstreamSpec::Http { url: "u".to_string(), sse: true }, 1);
    let report = pool.get_status(2).to_json();
    assert_eq!(print_status_table(Some(&report), None, true, false), "a\trunning\tsse\t/a\n");
}
