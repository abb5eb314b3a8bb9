use sentry_types::thread::{is_false, Exception, Thread, ThreadId};

#[test]
fn thread_id_text() {
    assert_eq!(ThreadId::Int(0).to_string(), "0");
    assert_eq!(ThreadId::Int(42).to_string(), "42");
    assert_eq!(ThreadId::Int(u64::MAX).to_string(), "18446744073709551615");
    assert_eq!(ThreadId::String("main".to_string()).to_string(), "main");
}

#[test]
fn thread_id_conversions() {
    assert_eq!(ThreadId::default(), ThreadId::Int(0));
    assert_eq!(ThreadId::from("worker"), ThreadId::String("worker".to_string()));
    assert_eq!(ThreadId::from("x".to_string()), ThreadId::String("x".to_string()));
    assert_eq!(ThreadId::from(3i64), ThreadId::Int(3));
    assert_eq!(ThreadId::from(-1i64), ThreadId::Int(u64::MAX));
    assert_eq!(ThreadId::from(-2i32), ThreadId::Int(u64::MAX - 1));
    assert_eq!(ThreadId::from(4u32), ThreadId::Int(4));
    assert_eq!(ThreadId::from(5u16), ThreadId::Int(5));
}

#[test]
fn flags_and_defaults() {
    assert!(is_false(&false));
    assert!(!is_false(&true));
    let t = Thread::default();
    assert!(t.id.is_none() && t.name.is_none() && !t.crashed && !t.current);
    assert!(t.stacktrace.is_none() && t.raw_stacktrace.is_none());
    let e = Exception::default();
    assert_eq!(e.ty, "");
    assert!(e.value.is_none() && e.module.is_none() && e.stacktrace.is_none());
}
