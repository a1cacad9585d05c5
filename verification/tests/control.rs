use mcp_pool::control::{ControlRequest, ControlResponse};
use mcp_pool::json::Json;
use mcp_pool::names::NameMap;

#[test]
fn response_helpers() {
    assert!(ControlResponse::ok().ok);
    assert!(!ControlResponse::err("boom").ok);
    assert_eq!(ControlResponse::err("boom").error.as_deref(), Some("boom"));
    let mut fields = NameMap::new();
    fields.insert("x".to_string(), Json::Unsigned(1));
    assert!(ControlResponse::data(Json::Object(fields)).data.is_some());
}

#[test]
fn failures_have_a_message() {
    assert_eq!(ControlResponse::ok().failure_message(), None);
    assert_eq!(ControlResponse::err("boom").failure_message().as_deref(), Some("boom"));
    let silent = ControlResponse { ok: false, error: None, data: None };
    assert_eq!(silent.failure_message().as_deref(), Some("unknown error"));
    let contradictory = ControlResponse { ok: true, error: Some("x".to_string()), data: None };
    assert_eq!(contradictory.failure_message(), None);
}

#[test]
fn requests_and_replies_are_copied_whole() {
    let name = || "a".to_string();
    let copy = |request: ControlRequest| request.clone();
    assert!(matches!(
        copy(ControlRequest::Start { name: name() }),
        ControlRequest::Start { name } if name == "a"
    ));
    assert!(matches!(
        copy(ControlRequest::Stop { name: name() }),
        ControlRequest::Stop { name } if name == "a"
    ));
    assert!(matches!(
        copy(ControlRequest::Restart { name: name() }),
        ControlRequest::Restart { name } if name == "a"
    ));
    assert!(matches!(
        copy(ControlRequest::Status { name: Some(name()) }),
        ControlRequest::Status { name: Some(name) } if name == "a"
    ));
    assert!(matches!(
        copy(ControlRequest::Status { name: None }),
        ControlRequest::Status { name: None }
    ));
    assert!(matches!(copy(ControlRequest::StartAll), ControlRequest::StartAll));
    assert!(matches!(copy(ControlRequest::Shutdown), ControlRequest::Shutdown));
    let reply = ControlResponse {
        ok: false,
        error: Some("boom".to_string()),
        data: Some(Json::Unsigned(1)),
    };
    let copied = reply.clone();
    assert!(!copied.ok);
    assert_eq!(copied.error.as_deref(), Some("boom"));
    assert_eq!(copied.data, Some(Json::Unsigned(1)));
}
