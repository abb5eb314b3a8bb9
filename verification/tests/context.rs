use sentry_types::context::{
    classify_context, classify_contexts, context_json_object, AppContext, Context, ContextData, ContextKind,
    DeviceContext, OsContext, RuntimeContext,
};
use sentry_types::json::{JsonObject, Number, Value};
use sentry_types::map::value_map_from_entries;

fn s(x: &str) -> String {
    x.to_string()
}

fn object(members: Vec<(String, Value)>) -> Value {
    Value::Object(JsonObject::from_members(members))
}

#[test]
fn context_type_names() {
    assert_eq!(ContextData::Default.type_str(), "default");
    assert_eq!(ContextData::Device(DeviceContext::default()).type_str(), "device");
    assert_eq!(ContextData::Os(OsContext::default()).type_str(), "os");
    assert_eq!(ContextData::Runtime(RuntimeContext::default()).type_str(), "runtime");
    assert_eq!(ContextData::App(AppContext::default()).type_str(), "app");
}

#[test]
fn context_conversions() {
    let os = OsContext { name: Some(s("Linux")), ..OsContext::default() };
    let c: Context = os.clone().into();
    assert_eq!(c.data, ContextData::Os(os.clone()));
    assert!(c.extra.is_empty());
    let d: ContextData = os.clone().into();
    assert_eq!(d, ContextData::Os(os));
    let c: Context = ContextData::Default.into();
    assert_eq!(c.data, ContextData::Default);
    let m = value_map_from_entries(vec![(s("k"), Value::Bool(true))]);
    let c: Context = m.clone().into();
    assert_eq!(c.data, ContextData::Default);
    assert_eq!(c.extra, m);
    let c = Context::default();
    assert_eq!(c.data, ContextData::Default);
    assert!(c.extra.is_empty());
    assert_eq!(ContextData::default(), ContextData::Default);
    let c: Context = AppContext::default().into();
    assert_eq!(c.data.type_str(), "app");
    let c: Context = DeviceContext::default().into();
    assert_eq!(c.data.type_str(), "device");
    let c: Context = RuntimeContext::default().into();
    assert_eq!(c.data.type_str(), "runtime");
}

#[test]
fn context_kind_from_key_when_no_type() {
    let raw = object(vec![(s("name"), Value::String(s("Linux")))]);
    let c = classify_context("os", raw).unwrap();
    assert_eq!(c.kind, ContextKind::Os);
    assert_eq!(c.body.members(), &vec![(s("name"), Value::String(s("Linux")))]);
}

#[test]
fn context_kind_from_string_type() {
    let raw = object(vec![
        (s("type"), Value::String(s("device"))),
        (s("model"), Value::String(s("x1"))),
    ]);
    let c = classify_context("my_phone", raw).unwrap();
    assert_eq!(c.kind, ContextKind::Device);
    assert_eq!(c.body.members(), &vec![(s("model"), Value::String(s("x1")))]);
}

#[test]
fn context_non_string_type_is_kept_and_key_decides() {
    let raw = object(vec![(s("type"), Value::Number(Number::PosInt(3)))]);
    let c = classify_context("runtime", raw).unwrap();
    assert_eq!(c.kind, ContextKind::Runtime);
    assert_eq!(c.body.members(), &vec![(s("type"), Value::Number(Number::PosInt(3)))]);
}

#[test]
fn context_unknown_type_is_default() {
    let raw = object(vec![(s("type"), Value::String(s("gpu")))]);
    let c = classify_context("app", raw).unwrap();
    assert_eq!(c.kind, ContextKind::Default);
    assert!(c.body.members().is_empty());
    let c = classify_context("anything", object(vec![])).unwrap();
    assert_eq!(c.kind, ContextKind::Default);
}

#[test]
fn context_non_object_is_skipped() {
    assert!(classify_context("os", Value::Null).is_none());
    assert!(classify_context("os", Value::String(s("os"))).is_none());
    assert!(classify_context("os", Value::Array(vec![])).is_none());
}

#[test]
fn context_json_object_layout() {
    let obj = context_json_object(
        &ContextData::Os(OsContext::default()),
        vec![(s("name"), Value::String(s("Linux")))],
        vec![(s("extra_key"), Value::Bool(true)), (s("name"), Value::Null)],
    );
    assert_eq!(
        obj,
        vec![
            (s("name"), Value::Null),
            (s("type"), Value::String(s("os"))),
            (s("extra_key"), Value::Bool(true)),
        ]
    );
}

#[test]
fn context_json_round_trip_keeps_kind() {
    for (data, kind) in [
        (ContextData::Default, ContextKind::Default),
        (ContextData::Device(DeviceContext::default()), ContextKind::Device),
        (ContextData::Os(OsContext::default()), ContextKind::Os),
        (ContextData::Runtime(RuntimeContext::default()), ContextKind::Runtime),
        (ContextData::App(AppContext::default()), ContextKind::App),
    ] {
        let obj = context_json_object(&data, vec![], vec![(s("k"), Value::Null)]);
        let c = classify_context("some_key", object(obj)).unwrap();
        assert_eq!(c.kind, kind);
        assert_eq!(c.body.members(), &vec![(s("k"), Value::Null)]);
    }
}

#[test]
fn context_json_round_trip_keeps_body() {
    let data_members = vec![(s("name"), Value::String(s("Linux")))];
    let extra = vec![(s("build"), Value::String(s("x"))), (s("name"), Value::Null)];
    let obj = context_json_object(&ContextData::Os(OsContext::default()), data_members, extra);
    let c = classify_context("os", object(obj)).unwrap();
    assert_eq!(c.kind, ContextKind::Os);
    assert_eq!(c.body.members(), &vec![(s("name"), Value::Null), (s("build"), Value::String(s("x")))]);
}

#[test]
fn contexts_are_split_in_order_skipping_non_objects() {
    let raw = JsonObject::from_members(vec![
        (s("os"), object(vec![(s("name"), Value::String(s("Linux")))])),
        (s("junk"), Value::Number(Number::PosInt(1))),
        (s("phone"), object(vec![(s("type"), Value::String(s("device")))])),
    ]);
    let split = classify_contexts(raw);
    assert_eq!(split.len(), 2);
    assert_eq!(split[0].0, "os");
    assert_eq!(split[0].1.kind, ContextKind::Os);
    assert_eq!(split[1].0, "phone");
    assert_eq!(split[1].1.kind, ContextKind::Device);
    assert!(split[1].1.body.members().is_empty());
}
