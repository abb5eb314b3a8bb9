use sentry_types::addr::{Addr, AddrJsonError};
use sentry_types::json::{Number, Value};

#[test]
fn addr_text_is_prefixed_lower_hex() {
    assert_eq!(Addr(0).to_string(), "0x0");
    assert_eq!(Addr(255).to_string(), "0xff");
    assert_eq!(Addr(0xdead_beef).to_string(), "0xdeadbeef");
    assert_eq!(Addr(u64::MAX).to_string(), "0xffffffffffffffff");
}

#[test]
fn addr_parses_hex_with_either_prefix() {
    assert_eq!(Addr::parse_str("0x1F").unwrap(), Addr(31));
    assert_eq!(Addr::parse_str("0X1f").unwrap(), Addr(31));
    assert_eq!(Addr::parse_str("0xffffffffffffffff").unwrap(), Addr(u64::MAX));
    assert_eq!(Addr::parse_str("0x+ff").unwrap(), Addr(255));
}

#[test]
fn addr_parses_decimal_without_prefix() {
    assert_eq!(Addr::parse_str("42").unwrap(), Addr(42));
    assert_eq!(Addr::parse_str("+42").unwrap(), Addr(42));
    assert_eq!(Addr::parse_str("0").unwrap(), Addr(0));
    assert_eq!(Addr::parse_str("18446744073709551615").unwrap(), Addr(u64::MAX));
    // a bare prefix is read as decimal digits, and fails
    assert!(Addr::parse_str("0x").is_err());
}

#[test]
fn addr_rejects_bad_text() {
    assert!(Addr::parse_str("").is_err());
    assert!(Addr::parse_str("+").is_err());
    assert!(Addr::parse_str("-1").is_err());
    assert!(Addr::parse_str(" 1").is_err());
    assert!(Addr::parse_str("1_000").is_err());
    assert!(Addr::parse_str("abc").is_err());
    assert!(Addr::parse_str("0xg").is_err());
    assert!(Addr::parse_str("18446744073709551616").is_err());
    assert!(Addr::parse_str("0x10000000000000000").is_err());
}

#[test]
fn addr_errors_are_those_of_from_str_radix() {
    assert_eq!(Addr::parse_str("").unwrap_err(), u64::from_str_radix("", 10).unwrap_err());
    assert_eq!(Addr::parse_str("0xzz").unwrap_err(), u64::from_str_radix("zz", 16).unwrap_err());
}

#[test]
fn addr_from_str_refuses_text_split_inside_a_character() {
    let r: Result<Addr, _> = "aé".parse();
    assert!(r.is_err());
    let r: Result<Addr, _> = "0x10".parse();
    assert_eq!(r.unwrap(), Addr(16));
}

#[test]
fn addr_text_reads_back() {
    for v in [0u64, 1, 9, 10, 15, 16, 255, 4096, 0x7fff_ffff, u64::MAX - 1, u64::MAX] {
        let a = Addr(v);
        assert_eq!(Addr::parse_str(&a.to_string()).unwrap(), a);
    }
}

#[test]
fn addr_json_round_trip() {
    for v in [0u64, 17, 0x1234_5678_9abc, u64::MAX] {
        let a = Addr(v);
        let j = a.to_json();
        match &j {
            Value::String(s) => assert_eq!(s, &a.to_string()),
            _ => panic!("address must be written as a string"),
        }
        assert_eq!(Addr::from_json(&j).unwrap(), a);
    }
}

#[test]
fn addr_from_json_forms() {
    assert_eq!(Addr::from_json(&Value::String("0x10".to_string())).unwrap(), Addr(16));
    assert_eq!(Addr::from_json(&Value::String("10".to_string())).unwrap(), Addr(10));
    assert_eq!(Addr::from_json(&Value::Number(Number::PosInt(7))).unwrap(), Addr(7));
    assert!(matches!(
        Addr::from_json(&Value::Number(Number::NegInt(-7))),
        Err(AddrJsonError::NotAnAddress)
    ));
    assert!(matches!(
        Addr::from_json(&Value::Number(Number::Float(1.5f64.to_bits()))),
        Err(AddrJsonError::NotAnAddress)
    ));
    assert!(matches!(Addr::from_json(&Value::Null), Err(AddrJsonError::NotAnAddress)));
    assert!(matches!(
        Addr::from_json(&Value::String("zz".to_string())),
        Err(AddrJsonError::Parse(_))
    ));
}

#[test]
fn addr_null_and_conversions() {
    assert!(Addr(0).is_null());
    assert!(!Addr(1).is_null());
    assert_eq!(Addr::default(), Addr(0));
    assert_eq!(Addr::from(5u64), Addr(5));
    assert_eq!(Addr::from(5u32), Addr(5));
    assert_eq!(Addr::from(5usize), Addr(5));
    assert_eq!(Addr::from(-1i32), Addr(u64::MAX));
    assert_eq!(Addr::from(7i32), Addr(7));
    assert_eq!(u64::from(Addr(9)), 9);
    let v: u64 = Addr(11).into();
    assert_eq!(v, 11);
}
