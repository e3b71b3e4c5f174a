//! Structured event routing: registration, thresholds, dispatch.

use std::sync::{Arc, Mutex};

use event_router::event::{Attr, AttrValue, Event};
use event_router::fields::FieldValue;
use event_router::router::{AppServicesLogger, EventSink, Record, Router};
use event_router::Level;

struct Sink {
    events: Mutex<Vec<Event>>,
}

impl Sink {
    fn new() -> Self {
        Self { events: Mutex::new(Vec::new()) }
    }

    fn count(&self) -> usize {
        self.events.lock().unwrap().len()
    }
}

impl EventSink for Sink {
    fn on_event(&self, event: Event) {
        self.events.lock().unwrap().push(event);
    }
}

struct NoLogger;

impl AppServicesLogger for NoLogger {
    fn log(&self, _record: Record) {}
}

#[test]
fn test_app() {
    let mut router: Router<Sink, NoLogger> = Router::new();
    let sink = Arc::new(Sink::new());

    router.register_event_sink("first_target", Level::Info, sink.clone());
    router.register_event_sink("second_target", Level::Info, sink.clone());

    let attrs = vec![
        Attr { name: "extra".to_string(), value: AttrValue::Int(-1) },
        Attr {
            name: "message".to_string(),
            value: AttrValue::Str("event message".to_string()),
        },
    ];
    router.on_event("first_target", Level::Info, "event", &attrs);

    assert_eq!(sink.count(), 1);
    let events = sink.events.lock().unwrap();
    let event = &events[0];
    assert_eq!(event.target, "first_target");
    assert_eq!(event.level, Level::Info);
    assert_eq!(event.message, "event message");
    assert_eq!(event.fields.get("extra"), Some(&FieldValue::Int(-1)));
}

#[test]
fn test_net_threshold_scenario() {
    let mut router: Router<Sink, NoLogger> = Router::new();
    let sink = Arc::new(Sink::new());

    router.register_event_sink("net", Level::Warn, sink.clone());

    let attrs = vec![Attr {
        name: "message".to_string(),
        value: AttrValue::Str("hello".to_string()),
    }];
    let dispatched = router.on_event("net", Level::Info, "event", &attrs);
    assert!(!dispatched);
    assert_eq!(sink.count(), 0);

    let dispatched = router.on_event("net", Level::Error, "event", &attrs);
    assert!(dispatched);
    assert_eq!(sink.count(), 1);
    let events = sink.events.lock().unwrap();
    let event = &events[0];
    assert_eq!(event.target, "net");
    assert_eq!(event.level, Level::Error);
    assert_eq!(event.name, "event");
    assert_eq!(event.message, "hello");
    assert_eq!(event.fields.len(), 0);
}

#[test]
fn test_unregistered_target_noop() {
    let mut router: Router<Sink, NoLogger> = Router::new();
    let sink = Arc::new(Sink::new());
    router.register_event_sink("known", Level::Trace, sink.clone());

    let attrs: Vec<Attr> = Vec::new();
    let dispatched = router.on_event("unknown", Level::Error, "event", &attrs);
    assert!(!dispatched);
    assert_eq!(sink.count(), 0);
}

#[test]
fn test_reregister_replaces() {
    let mut router: Router<Sink, NoLogger> = Router::new();
    let first = Arc::new(Sink::new());
    let second = Arc::new(Sink::new());

    router.register_event_sink("app", Level::Error, first.clone());
    router.register_event_sink("app", Level::Info, second.clone());

    let attrs: Vec<Attr> = Vec::new();
    // The second registration's threshold is in force...
    assert!(router.on_event("app", Level::Info, "event", &attrs));
    // ...and only the second sink receives the event, exactly once.
    assert_eq!(first.count(), 0);
    assert_eq!(second.count(), 1);
}

#[test]
fn test_unregister_stops_delivery() {
    let mut router: Router<Sink, NoLogger> = Router::new();
    let sink = Arc::new(Sink::new());
    router.register_event_sink("net", Level::Trace, sink.clone());

    let attrs: Vec<Attr> = Vec::new();
    assert!(router.on_event("net", Level::Error, "event", &attrs));
    assert_eq!(sink.count(), 1);

    router.unregister_event_sink("net");
    assert!(!router.on_event("net", Level::Error, "event", &attrs));
    assert_eq!(sink.count(), 1);

    // Unregistering an absent target is a no-op, not an error.
    router.unregister_event_sink("net");
}

#[test]
fn test_lookup_reflects_registration() {
    let mut router: Router<Sink, NoLogger> = Router::new();
    let sink = Arc::new(Sink::new());

    assert!(router.lookup("net").is_none());
    router.register_event_sink("net", Level::Warn, sink.clone());
    let entry = router.lookup("net").expect("entry should be registered");
    assert_eq!(entry.threshold, Level::Warn);
    router.unregister_event_sink("net");
    assert!(router.lookup("net").is_none());
}
