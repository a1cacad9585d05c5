use mcp_pool::json::Json;
use mcp_pool::jsonrpc::{id_key, with_id, IdAllocator};
use mcp_pool::names::NameMap;

fn fields(entries: Vec<(&str, Json)>) -> NameMap<Json> {
    let mut map = NameMap::new();
    for (name, value) in entries {
        map.insert(name.to_string(), value);
    }
    map
}

#[test]
fn allocator_is_monotonic_and_unique() {
    let mut allocator = IdAllocator::new();
    let first = allocator.allocate();
    let second = allocator.allocate();
    let third = allocator.allocate();
    assert_eq!(first, 1);
    assert_eq!(second, 2);
    assert_eq!(third, 3);
    assert_eq!(IdAllocator::default().allocate(), 1);
}

#[test]
fn id_key_separates_number_and_string() {
    assert_eq!(id_key(&Json::Unsigned(1)), "1");
    assert_eq!(id_key(&Json::string("1")), "\"1\"");
    assert_ne!(id_key(&Json::Unsigned(1)), id_key(&Json::string("1")));
}

#[test]
fn id_keys_of_other_values() {
    assert_eq!(id_key(&Json::integer(-7)), "-7");
    assert_eq!(id_key(&Json::Unsigned(u64::MAX)), "18446744073709551615");
    assert_eq!(id_key(&Json::Null), "null");
    assert_eq!(id_key(&Json::Bool(true)), "true");
    assert_eq!(id_key(&Json::string("a\"\n")), "\"a\\\"\\n\"");
    assert_eq!(id_key(&Json::parse("1.5").unwrap()), "1.5");
}

#[test]
fn with_id_replaces_and_round_trips() {
    let object = fields(vec![
        ("jsonrpc", Json::string("2.0")),
        ("id", Json::Unsigned(5)),
        ("method", Json::string("tools/list")),
    ]);
    let line = with_id(object, Json::Unsigned(42));
    let parsed: serde_json::Value = serde_json::from_str(&line).expect("valid json");
    assert_eq!(parsed.get("id"), Some(&serde_json::Value::from(42)));
    assert_eq!(parsed.get("method"), Some(&serde_json::Value::from("tools/list")));
}

#[test]
fn with_id_adds_a_missing_id() {
    let line = with_id(fields(vec![("method", Json::string("ping"))]), Json::string("x"));
    assert_eq!(line, "{\"id\":\"x\",\"method\":\"ping\"}");
}

#[test]
fn replaced_ids_can_be_restored() {
    let original = "{\"id\":\"a\",\"params\":{\"n\":[1,-2,2.5,null,true]}}";
    let object = match Json::parse(original) {
        Some(Json::Object(object)) => object,
        _ => panic!("an object"),
    };
    let sent = with_id(object, Json::Unsigned(9));
    assert_ne!(sent, original);
    let read = match Json::parse(&sent) {
        Some(Json::Object(object)) => object,
        _ => panic!("an object"),
    };
    assert_eq!(with_id(read, Json::string("a")), original);
}

#[test]
fn lines_have_no_line_breaks() {
    let line = with_id(fields(vec![("m\n", Json::string("a\r\nb\u{0}"))]), Json::Null);
    assert!(line.chars().all(|ch| ch >= ' '));
}
