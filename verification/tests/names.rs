use mcp_pool::names::NameMap;

#[test]
fn names_stand_once_and_in_order() {
    let mut map: NameMap<u32> = NameMap::new();
    assert_eq!(map.len(), 0);
    assert!(map.get("a").is_none());
    map.insert("b".to_string(), 1);
    map.insert("a".to_string(), 2);
    map.insert("c".to_string(), 3);
    map.insert("b".to_string(), 4);
    assert_eq!(map.len(), 3);
    assert_eq!((map.name_at(0), *map.value_at(0)), ("a", 2));
    assert_eq!((map.name_at(1), *map.value_at(1)), ("b", 4));
    assert_eq!((map.name_at(2), *map.value_at(2)), ("c", 3));
    assert!(map.contains_key("b"));
    assert_eq!(map.remove("b"), Some(4));
    assert_eq!(map.remove("b"), None);
    assert!(!map.contains_key("b"));
    assert_eq!(map.len(), 2);
}

#[test]
fn order_of_insertion_leaves_no_trace() {
    let mut forth: NameMap<u32> = NameMap::new();
    let mut back: NameMap<u32> = NameMap::new();
    for i in 0..10u32 {
        forth.insert(format!("n{i}"), i);
        back.insert(format!("n{}", 9 - i), 9 - i);
    }
    assert_eq!(forth, back);
}
