use std::time::Instant;

use mcp_pool::multiplexer::{Multiplexer, Routed};

fn with_clients(clients: &[&str]) -> Multiplexer {
    let mut multiplexer = Multiplexer::new();
    for client in clients {
        multiplexer.connect(client);
    }
    multiplexer
}

fn routed(multiplexer: &mut Multiplexer, line: &str) -> Option<(Vec<String>, String)> {
    multiplexer.route(line).map(|routed| match routed {
        Routed::Clients { clients, line } => (clients, line),
        Routed::Upstream { line } => (vec!["<upstream>".to_string()], line),
    })
}

/// Has `client` announce the capability `name`.
fn announce(multiplexer: &mut Multiplexer, client: &str, name: &str) {
    let line = format!(
        "{{\"id\":0,\"method\":\"initialize\",\"params\":{{\"capabilities\":{{\"{name}\":{{}}}}}}}}"
    );
    assert!(multiplexer.forward(client, &line, Instant::now()).is_some());
}

fn to(clients: &[&str], line: &str) -> Option<(Vec<String>, String)> {
    Some((clients.iter().map(|client| client.to_string()).collect(), line.to_string()))
}

#[test]
fn responses_go_back_under_the_id_of_the_client() {
    let mut multiplexer = with_clients(&["a", "b"]);
    let now = Instant::now();
    assert_eq!(
        multiplexer.forward("a", "{\"id\":1,\"method\":\"x\"}", now).as_deref(),
        Some("{\"id\":1,\"method\":\"x\"}")
    );
    assert_eq!(
        multiplexer.forward("b", "{\"id\":1,\"method\":\"y\"}", now).as_deref(),
        Some("{\"id\":2,\"method\":\"y\"}")
    );
    assert_eq!(
        multiplexer.forward("a", "{\"id\":\"s\",\"method\":\"z\"}", now).as_deref(),
        Some("{\"id\":3,\"method\":\"z\"}")
    );
    assert_eq!(
        routed(&mut multiplexer, "{\"id\":3,\"result\":0}"),
        to(&["a"], "{\"id\":\"s\",\"result\":0}")
    );
    assert_eq!(
        routed(&mut multiplexer, "{\"id\":2,\"result\":0}"),
        to(&["b"], "{\"id\":1,\"result\":0}")
    );
    assert_eq!(
        routed(&mut multiplexer, "{\"id\":1,\"error\":{}}"),
        to(&["a"], "{\"error\":{},\"id\":1}")
    );
}

#[test]
fn answers_are_given_once() {
    let mut multiplexer = with_clients(&["a"]);
    multiplexer.forward("a", "{\"id\":7,\"method\":\"x\"}", Instant::now());
    assert!(routed(&mut multiplexer, "{\"id\":1,\"result\":0}").is_some());
    assert!(routed(&mut multiplexer, "{\"id\":1,\"result\":0}").is_none());
    assert!(routed(&mut multiplexer, "{\"id\":\"1\",\"result\":0}").is_none());
    assert!(routed(&mut multiplexer, "{\"id\":\"\",\"error\":0}").is_none());
}

#[test]
fn errors_without_id_go_to_the_oldest_request() {
    let mut multiplexer = with_clients(&["a", "b"]);
    let now = Instant::now();
    for i in 0..12 {
        let client = if i % 2 == 0 { "b" } else { "a" };
        multiplexer.forward(client, &format!("{{\"id\":\"r{i}\",\"method\":\"m\"}}"), now);
    }
    assert!(routed(&mut multiplexer, "{\"id\":1,\"result\":0}").is_some());
    let error = "{\"jsonrpc\":\"2.0\",\"id\":\"\",\"error\":{\"code\":-32001,\"message\":\"Session not found\"}}";
    let restored = |id: &str| {
        format!(
            "{{\"error\":{{\"code\":-32001,\"message\":\"Session not found\"}},\"id\":\"{id}\",\"jsonrpc\":\"2.0\"}}"
        )
    };
    for i in 1..12 {
        let client = if i % 2 == 0 { "b" } else { "a" };
        assert_eq!(
            routed(&mut multiplexer, error),
            to(&[client], &restored(&format!("r{i}")))
        );
    }
    assert!(routed(&mut multiplexer, error).is_none());
}

#[test]
fn successes_without_id_go_to_nobody() {
    let mut multiplexer = with_clients(&["a"]);
    multiplexer.forward("a", "{\"id\":7,\"method\":\"x\"}", Instant::now());
    assert!(routed(&mut multiplexer, "{\"id\":\"\",\"result\":0}").is_none());
    assert!(routed(&mut multiplexer, "{\"id\":1,\"result\":0}").is_some());
}

#[test]
fn requests_of_the_upstream_go_to_capable_clients() {
    let mut multiplexer = with_clients(&["a", "b", "c"]);
    announce(&mut multiplexer, "b", "sampling");
    announce(&mut multiplexer, "c", "roots");
    multiplexer.forward("a", "{\"method\":\"n\"}", Instant::now());
    let sampling = "{\"id\":9,\"method\":\"sampling/createMessage\"}";
    assert_eq!(routed(&mut multiplexer, sampling), to(&["b"], sampling));
    let roots = "{ \"id\":\"q\", \"method\":\"roots/list\" }";
    assert_eq!(routed(&mut multiplexer, roots), to(&["c"], roots));
    let other = "{\"id\":9,\"method\":\"elicitation/create\"}";
    assert_eq!(routed(&mut multiplexer, other), to(&["a"], other));
    multiplexer.disconnect("a");
    assert_eq!(routed(&mut multiplexer, other), to(&["b"], other));
    assert!(routed(&mut multiplexer, "{\"id\":9,\"method\":7}").is_none());
}

#[test]
fn the_last_active_of_the_capable_clients_is_asked() {
    let mut multiplexer = with_clients(&["a", "b"]);
    announce(&mut multiplexer, "a", "sampling");
    announce(&mut multiplexer, "b", "sampling");
    let sampling = "{\"id\":9,\"method\":\"sampling/createMessage\"}";
    assert_eq!(routed(&mut multiplexer, sampling), to(&["b"], sampling));
    multiplexer.forward("a", "{\"method\":\"n\"}", Instant::now());
    assert_eq!(routed(&mut multiplexer, sampling), to(&["a"], sampling));
}

#[test]
fn requests_that_no_client_can_carry_out_are_refused() {
    let mut multiplexer = with_clients(&["a"]);
    announce(&mut multiplexer, "a", "roots");
    assert_eq!(
        routed(&mut multiplexer, "{\"id\":\"q\",\"method\":\"sampling/createMessage\"}"),
        to(
            &["<upstream>"],
            "{\"error\":{\"code\":-32001,\"message\":\"no capable downstream client connected \
             for sampling/createMessage\"},\"id\":\"q\",\"jsonrpc\":\"2.0\"}"
        )
    );
    multiplexer.disconnect("a");
    let other = routed(&mut multiplexer, "{\"id\":3,\"method\":\"x\"}").unwrap();
    assert_eq!(other.0, vec!["<upstream>".to_string()]);
    assert!(other.1.contains("connected for x"));
}

#[test]
fn messages_without_id_reach_everybody() {
    let mut multiplexer = with_clients(&["b", "a"]);
    let line = "{ \"method\" : \"n\" }";
    assert_eq!(routed(&mut multiplexer, line), to(&["a", "b"], line));
    let null = "{\"id\":null,\"method\":\"n\"}";
    assert_eq!(routed(&mut multiplexer, null), to(&["a", "b"], null));
    assert!(routed(&mut multiplexer, "[]").is_none());
    assert!(routed(&mut multiplexer, "nonsense").is_none());
}

#[test]
fn notifications_and_responses_are_forwarded_as_they_are() {
    let mut multiplexer = with_clients(&["a"]);
    let now = Instant::now();
    let notification = "{ \"method\": \"n\" }";
    assert_eq!(multiplexer.forward("a", notification, now).as_deref(), Some(notification));
    let response = "{ \"id\": 4, \"result\": 1 }";
    assert_eq!(multiplexer.forward("a", response, now).as_deref(), Some(response));
    assert!(multiplexer.forward("a", "3", now).is_none());
    assert!(multiplexer.forward("a", "{", now).is_none());
    assert!(multiplexer.forward("x", notification, now).is_none());
}

#[test]
fn clients_that_left_are_owed_nothing() {
    let mut multiplexer = with_clients(&["a", "b"]);
    let now = Instant::now();
    multiplexer.forward("a", "{\"id\":1,\"method\":\"x\"}", now);
    multiplexer.forward("b", "{\"id\":1,\"method\":\"x\"}", now);
    multiplexer.disconnect("a");
    assert_eq!(multiplexer.client_count(), 1);
    assert!(routed(&mut multiplexer, "{\"id\":1,\"result\":0}").is_none());
    assert!(routed(&mut multiplexer, "{\"id\":2,\"result\":0}").is_some());
    multiplexer.connect("a");
    assert_eq!(
        multiplexer.forward("a", "{\"id\":1,\"method\":\"x\"}", now).as_deref(),
        Some("{\"id\":3,\"method\":\"x\"}")
    );
}
