use sentry_types::json::{entries_get, entries_insert, entries_remove, find_key, JsonObject, Number, Value};

fn s(x: &str) -> String {
    x.to_string()
}

fn sample() -> Vec<(String, Value)> {
    vec![
        (s("a"), Value::Number(Number::PosInt(1))),
        (s("type"), Value::String(s("os"))),
        (s("b"), Value::Bool(true)),
    ]
}

#[test]
fn object_lookup() {
    let o = sample();
    assert_eq!(find_key(&o, "type"), Some(1));
    assert_eq!(find_key(&o, "zzz"), None);
    assert_eq!(entries_get(&o, "b"), Some(&Value::Bool(true)));
    assert_eq!(entries_get(&o, "c"), None);
}

#[test]
fn object_remove_takes_the_member_out() {
    let mut o = sample();
    assert_eq!(entries_remove(&mut o, "type"), Some(Value::String(s("os"))));
    assert_eq!(o.len(), 2);
    assert_eq!(o[0].0, "a");
    assert_eq!(o[1].0, "b");
    assert_eq!(entries_remove(&mut o, "type"), None);
    assert_eq!(o.len(), 2);
}

#[test]
fn object_insert_replaces_in_place_or_appends() {
    let mut o = sample();
    assert_eq!(entries_insert(&mut o, s("a"), Value::Null), Some(Value::Number(Number::PosInt(1))));
    assert_eq!(o[0], (s("a"), Value::Null));
    assert_eq!(o.len(), 3);
    assert_eq!(entries_insert(&mut o, s("c"), Value::Null), None);
    assert_eq!(o.len(), 4);
    assert_eq!(o[3].0, "c");
}

#[test]
fn value_copies_are_equal() {
    let v = Value::Object(JsonObject::from_members(vec![
        (s("list"), Value::Array(vec![Value::Null, Value::Number(Number::NegInt(-3))])),
        (s("inner"), Value::Object(JsonObject::from_members(vec![(s("x"), Value::String(s("y")))]))),
    ]));
    assert_eq!(v.deep_copy(), v);
    assert_eq!(v.clone(), v);
}

#[test]
fn object_keeps_each_key_once() {
    let o = JsonObject::from_members(vec![
        (s("a"), Value::Null),
        (s("b"), Value::Bool(false)),
        (s("a"), Value::Bool(true)),
    ]);
    assert_eq!(o.members(), &vec![(s("a"), Value::Bool(true)), (s("b"), Value::Bool(false))]);
    assert_eq!(o.get("a"), Some(&Value::Bool(true)));
    let mut o = o;
    assert_eq!(o.insert(s("c"), Value::Null), None);
    assert_eq!(o.remove("a"), Some(Value::Bool(true)));
    assert_eq!(o.remove("a"), None);
    assert_eq!(o.into_members(), vec![(s("b"), Value::Bool(false)), (s("c"), Value::Null)]);
    assert_eq!(JsonObject::new().members().len(), 0);
}

#[test]
fn repeated_type_key_leaves_no_type_in_the_body() {
    let o = JsonObject::from_members(vec![
        (s("type"), Value::String(s("os"))),
        (s("type"), Value::String(s("app"))),
        (s("x"), Value::Null),
    ]);
    let c = sentry_types::context::classify_context("k", Value::Object(o)).unwrap();
    assert_eq!(c.kind, sentry_types::context::ContextKind::App);
    assert_eq!(c.body.members(), &vec![(s("x"), Value::Null)]);
}
