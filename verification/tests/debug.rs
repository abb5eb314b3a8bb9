use sentry_types::addr::Addr;
use sentry_types::debug::{
    classify_debug_image, AppleDebugImage, DebugImage, DebugMeta, ProguardDebugImage,
    RawDebugImage, SymbolicDebugImage, SystemSdkInfo,
};
use sentry_types::json::{JsonObject, Number, Value};
use linked_hash_map::LinkedHashMap;
use sentry_types::map::value_map_from_entries;

fn s(x: &str) -> String {
    x.to_string()
}

fn apple() -> AppleDebugImage {
    AppleDebugImage {
        name: s("app"),
        arch: Some(s("arm64")),
        cpu_type: None,
        cpu_subtype: None,
        image_addr: Addr(0x1000),
        image_size: 4096,
        image_vmaddr: Addr(0),
        uuid: uuid::Uuid::nil(),
    }
}

fn object(members: Vec<(String, Value)>) -> Value {
    Value::Object(JsonObject::from_members(members))
}

#[test]
fn debug_image_type_names() {
    assert_eq!(DebugImage::Apple(apple()).type_str(), "apple");
    let sym = SymbolicDebugImage {
        name: s("lib.so"),
        arch: None,
        image_addr: Addr(1),
        image_size: 2,
        image_vmaddr: Addr(0),
        id: debugid::DebugId::nil(),
    };
    assert_eq!(DebugImage::from(sym).type_str(), "symbolic");
    let pg = ProguardDebugImage { uuid: uuid::Uuid::nil() };
    assert_eq!(DebugImage::from(pg).type_str(), "proguard");
    let m = value_map_from_entries(vec![(s("type"), Value::String(s("elf")))]);
    assert_eq!(DebugImage::Unknown(m).type_str(), "elf");
    let m = value_map_from_entries(vec![(s("type"), Value::Number(Number::PosInt(1)))]);
    assert_eq!(DebugImage::Unknown(m).type_str(), "unknown");
    assert_eq!(DebugImage::Unknown(LinkedHashMap::new()).type_str(), "unknown");
    assert_eq!(DebugImage::from(apple()), DebugImage::Apple(apple()));
}

#[test]
fn debug_image_json_object_sets_type() {
    let img = DebugImage::Apple(apple());
    let obj = img.json_object(vec![(s("name"), Value::String(s("app")))]);
    assert_eq!(
        obj,
        vec![(s("name"), Value::String(s("app"))), (s("type"), Value::String(s("apple")))]
    );
    let obj = img.json_object(vec![(s("type"), Value::Null), (s("x"), Value::Null)]);
    assert_eq!(obj, vec![(s("type"), Value::String(s("apple"))), (s("x"), Value::Null)]);
}

#[test]
fn debug_image_classified_by_type() {
    let body = vec![(s("name"), Value::String(s("n")))];
    let mut obj = body.clone();
    obj.push((s("type"), Value::String(s("apple"))));
    match classify_debug_image(object(obj)).unwrap() {
        RawDebugImage::Apple(b) => assert_eq!(b.members(), &body),
        _ => panic!("expected an apple image"),
    }
    let obj = vec![(s("type"), Value::String(s("symbolic")))];
    assert!(matches!(classify_debug_image(object(obj)).unwrap(), RawDebugImage::Symbolic(b) if b.members().is_empty()));
    let obj = vec![(s("type"), Value::String(s("proguard"))), (s("uuid"), Value::Null)];
    assert!(matches!(classify_debug_image(object(obj)).unwrap(), RawDebugImage::Proguard(b) if b.members().len() == 1));
}

#[test]
fn debug_image_of_other_type_is_kept_whole() {
    let obj = vec![(s("type"), Value::String(s("elf"))), (s("code_id"), Value::String(s("abc")))];
    match classify_debug_image(object(obj)).unwrap() {
        RawDebugImage::Unknown(m) => {
            let keys: Vec<&String> = m.keys().collect();
            assert_eq!(keys, vec!["code_id", "type"]);
            assert_eq!(m.get("type"), Some(&Value::String(s("elf"))));
            assert_eq!(DebugImage::Unknown(m).type_str(), "elf");
        }
        _ => panic!("expected an unknown image"),
    }
}

#[test]
fn debug_image_without_string_type_is_empty_unknown() {
    let obj = vec![(s("code_id"), Value::String(s("abc")))];
    match classify_debug_image(object(obj)).unwrap() {
        RawDebugImage::Unknown(m) => assert!(m.is_empty()),
        _ => panic!("expected an unknown image"),
    }
    let obj = vec![(s("type"), Value::Bool(true)), (s("code_id"), Value::Null)];
    match classify_debug_image(object(obj)).unwrap() {
        RawDebugImage::Unknown(m) => assert!(m.is_empty()),
        _ => panic!("expected an unknown image"),
    }
}

#[test]
fn debug_image_must_be_an_object() {
    assert!(classify_debug_image(Value::Null).is_err());
    assert!(classify_debug_image(Value::Array(vec![])).is_err());
    assert!(classify_debug_image(Value::String(s("apple"))).is_err());
}

#[test]
fn debug_image_type_round_trip() {
    let m = value_map_from_entries(vec![(s("type"), Value::String(s("elf")))]);
    for img in [
        DebugImage::Apple(apple()),
        DebugImage::Proguard(ProguardDebugImage { uuid: uuid::Uuid::nil() }),
        DebugImage::Unknown(m),
        DebugImage::Unknown(LinkedHashMap::new()),
    ] {
        let obj = img.json_object(vec![]);
        let raw = classify_debug_image(object(obj)).unwrap();
        let name = match &raw {
            RawDebugImage::Apple(_) => "apple".to_string(),
            RawDebugImage::Symbolic(_) => "symbolic".to_string(),
            RawDebugImage::Proguard(_) => "proguard".to_string(),
            RawDebugImage::Unknown(m) => DebugImage::Unknown(m.clone()).type_str().to_string(),
        };
        assert_eq!(name, img.type_str());
    }
}

#[test]
fn debug_meta_emptiness() {
    let mut meta = DebugMeta::default();
    assert!(meta.is_empty());
    meta.images.push(DebugImage::Unknown(LinkedHashMap::new()));
    assert!(!meta.is_empty());
    let meta = DebugMeta {
        sdk_info: Some(SystemSdkInfo {
            sdk_name: s("iOS"),
            version_major: 10,
            version_minor: 3,
            version_patchlevel: 0,
        }),
        images: vec![],
    };
    assert!(!meta.is_empty());
}

#[test]
fn debug_image_body_round_trip() {
    let members = vec![
        (s("name"), Value::String(s("app"))),
        (s("image_size"), Value::Number(Number::PosInt(4096))),
    ];
    let obj = DebugImage::Apple(apple()).json_object(members.clone());
    match classify_debug_image(object(obj)).unwrap() {
        RawDebugImage::Apple(b) => assert_eq!(b.members(), &members),
        _ => panic!("expected an apple image"),
    }
}

#[test]
fn unknown_debug_image_round_trip() {
    let m = value_map_from_entries(vec![
        (s("code_id"), Value::String(s("abc"))),
        (s("type"), Value::String(s("elf"))),
        (s("arch"), Value::String(s("x86"))),
    ]);
    let img = DebugImage::Unknown(m.clone());
    let members: Vec<(String, Value)> = m.iter().map(|(k, v)| (k.clone(), v.clone())).collect();
    let obj = img.json_object(members);
    match classify_debug_image(object(obj)).unwrap() {
        RawDebugImage::Unknown(m2) => {
            assert_eq!(m2.get("code_id"), Some(&Value::String(s("abc"))));
            assert_eq!(m2.get("arch"), Some(&Value::String(s("x86"))));
            assert_eq!(DebugImage::Unknown(m2.clone()).type_str(), "elf");
            assert_eq!(m2.len(), 3);
        }
        _ => panic!("expected an unknown image"),
    }
}
