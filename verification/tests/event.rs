use sentry_types::event::{
    event_id_text, is_default_fingerprint, EventId, is_other, Breadcrumb, Event, Request, User,
};
use sentry_types::external::Timestamp;
use sentry_types::level::Level;

fn s(x: &str) -> String {
    x.to_string()
}

#[test]
fn default_event_is_blank() {
    let e = Event::default();
    assert!(e.id.is_none());
    assert_eq!(e.level, Level::Error);
    assert_eq!(e.fingerprint, vec![s("{{ default }}")]);
    assert_eq!(e.platform, "other");
    assert!(e.timestamp.is_none());
    assert!(e.culprit.is_none() && e.message.is_none() && e.logentry.is_none());
    assert!(e.logger.is_none() && e.server_name.is_none() && e.release.is_none());
    assert!(e.dist.is_none() && e.environment.is_none() && e.user.is_none());
    assert!(e.request.is_none() && e.stacktrace.is_none() && e.template_info.is_none());
    assert!(e.sdk_info.is_none());
    assert!(e.modules.is_empty() && e.repos.is_empty() && e.contexts.is_empty());
    assert!(e.tags.is_empty() && e.extra.is_empty() && e.other.is_empty());
    assert!(e.breadcrumbs.is_empty() && e.exceptions.is_empty() && e.threads.is_empty());
    assert!(e.debug_meta.is_empty());
}

#[test]
fn default_event_writes_none_of_the_skipped_fields() {
    let e = Event::default();
    assert!(e.level.is_error());
    assert!(is_default_fingerprint(&e.fingerprint));
    assert!(is_other(&e.platform));
    assert!(e.debug_meta.is_empty());
}

#[test]
fn new_event_has_id_and_time() {
    let id = EventId(0x0123_4567_89ab_4def_8123_4567_89ab_cdef);
    let now = Timestamp { secs: 1_600_000_000, nanos: 5 };
    let e = Event::new(id, now);
    assert_eq!(e.id, Some(id));
    assert_eq!(e.timestamp, Some(now));
    assert_eq!(e.level, Level::Error);
    assert!(is_default_fingerprint(&e.fingerprint));
    assert!(e.contexts.is_empty());
}

#[test]
fn event_id_is_written_as_simple_hex() {
    let u = uuid::Uuid::parse_str("395835f4-03e0-4436-80d3-136f0749a893").unwrap();
    let text = event_id_text(&Some(EventId(u.as_u128())));
    assert_eq!(text, Some(s("395835f403e0443680d3136f0749a893")));
    assert_eq!(text, Some(u.simple().to_string()));
    assert_eq!(event_id_text(&Some(EventId(1))), Some(s("00000000000000000000000000000001")));
    assert_eq!(event_id_text(&None), None);
}

#[test]
fn fingerprint_checks() {
    assert!(is_default_fingerprint(&vec![s("{{ default }}")]));
    assert!(is_default_fingerprint(&vec![s("{{default}}")]));
    assert!(!is_default_fingerprint(&vec![]));
    assert!(!is_default_fingerprint(&vec![s("{{ default }}"), s("x")]));
    assert!(!is_default_fingerprint(&vec![s("{{ Default }}")]));
    assert!(!is_default_fingerprint(&vec![s("my-group")]));
}

#[test]
fn platform_checks() {
    assert!(is_other("other"));
    assert!(!is_other("Other"));
    assert!(!is_other("python"));
    assert!(!is_other(""));
}

#[test]
fn default_breadcrumb() {
    let now = Timestamp { secs: 1_700_000_000, nanos: 250_000_000 };
    let b = Breadcrumb::default_at(now);
    assert_eq!(b.timestamp, now);
    assert_eq!(b.ty, "default");
    assert_eq!(b.level, Level::Info);
    assert!(b.category.is_none() && b.message.is_none() && b.data.is_empty());
}

#[test]
fn default_user_and_request() {
    let u = User::default();
    assert!(u.id.is_none() && u.email.is_none() && u.ip_address.is_none());
    assert!(u.username.is_none() && u.data.is_empty());
    let r = Request::default();
    assert!(r.url.is_none() && r.method.is_none() && r.data.is_none());
    assert!(r.query_string.is_none() && r.cookies.is_none());
    assert!(r.headers.is_empty() && r.env.is_empty() && r.other.is_empty());
}
