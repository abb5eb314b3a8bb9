use sentry_types::context::ContextData;
use sentry_types::event::EventId;
use sentry_types::feedback::Feedback;
use sentry_types::external::Timestamp;
use sentry_types::level::Level;

fn s(x: &str) -> String {
    x.to_string()
}

#[test]
fn feedback_context_members() {
    let f = Feedback {
        contact_email: Some(s("a@b.c")),
        name: Some(s("Ann")),
        message: s("it broke"),
    };
    let c = f.to_context();
    assert_eq!(c.data, ContextData::Feedback(Box::new(f.clone())));
    assert_eq!(c.data.type_str(), "feedback");
    assert!(c.extra.is_empty());
}

#[test]
fn feedback_context_without_optional_members() {
    let f = Feedback { message: s("hi"), ..Feedback::default() };
    let c = f.to_context();
    assert_eq!(c.data, ContextData::Feedback(Box::new(f)));
}

#[test]
fn feedback_event() {
    let f = Feedback { contact_email: None, name: None, message: s("thanks") };
    let id = EventId(7);
    let now = Timestamp { secs: 1_650_000_000, nanos: 0 };
    let e = f.to_new_event(id, now);
    assert_eq!(e.id, Some(id));
    assert_eq!(e.timestamp, Some(now));
    assert_eq!(e.level, Level::Info);
    assert_eq!(e.contexts.len(), 1);
    let ctx = e.contexts.get("feedback").expect("feedback context");
    assert_eq!(ctx, &f.to_context());
    assert_eq!(e.platform, "other");
    assert!(e.breadcrumbs.is_empty());
}

#[test]
fn default_feedback() {
    let f = Feedback::default();
    assert!(f.contact_email.is_none() && f.name.is_none());
    assert_eq!(f.message, "");
}
