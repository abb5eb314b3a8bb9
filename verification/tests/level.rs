use sentry_types::level::Level;

#[test]
fn level_checks_hold_of_their_level_only() {
    let all = [Level::Debug, Level::Info, Level::Warning, Level::Error, Level::Critical];
    for l in all {
        let checks = [l.is_debug(), l.is_info(), l.is_warning(), l.is_error(), l.is_critical()];
        assert_eq!(checks.iter().filter(|c| **c).count(), 1);
    }
    assert!(Level::Debug.is_debug());
    assert!(Level::Info.is_info());
    assert!(Level::Warning.is_warning());
    assert!(Level::Error.is_error());
    assert!(Level::Critical.is_critical());
    assert!(!Level::Error.is_critical());
}

#[test]
fn level_defaults_to_info_and_orders_by_severity() {
    assert_eq!(Level::default(), Level::Info);
    assert!(Level::Debug < Level::Info);
    assert!(Level::Info < Level::Warning);
    assert!(Level::Warning < Level::Error);
    assert!(Level::Error < Level::Critical);
}
