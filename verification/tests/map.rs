use linked_hash_map::LinkedHashMap;
use sentry_types::json::Value;
use sentry_types::map::value_map_from_entries;

fn s(x: &str) -> String {
    x.to_string()
}

#[test]
fn map_keeps_insertion_order() {
    let m = value_map_from_entries(vec![
        (s("z"), Value::Null),
        (s("a"), Value::Bool(false)),
        (s("m"), Value::Bool(true)),
    ]);
    let keys: Vec<&String> = m.keys().collect();
    assert_eq!(keys, vec!["z", "a", "m"]);
    assert_eq!(m.get("a"), Some(&Value::Bool(false)));
    assert_eq!(m.get("q"), None);
}

#[test]
fn map_reinsert_moves_key_to_the_end() {
    let empty: LinkedHashMap<String, Value> = value_map_from_entries(vec![]);
    assert!(empty.is_empty());
    let m = value_map_from_entries(vec![
        (s("a"), Value::Null),
        (s("b"), Value::Null),
        (s("a"), Value::Bool(true)),
    ]);
    let keys: Vec<&String> = m.keys().collect();
    assert_eq!(keys, vec!["b", "a"]);
    assert_eq!(m.get("a"), Some(&Value::Bool(true)));
}

#[test]
fn map_from_entries_with_repeated_key() {
    let m = value_map_from_entries(vec![
        (s("a"), Value::Null),
        (s("b"), Value::Null),
        (s("a"), Value::Bool(true)),
    ]);
    let keys: Vec<&String> = m.keys().collect();
    assert_eq!(keys, vec!["b", "a"]);
    assert_eq!(m.len(), 2);
}
