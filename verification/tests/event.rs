use std::cell::Cell;
use std::rc::Rc;
use std::sync::atomic::{AtomicUsize, Ordering};
use std::sync::Arc;
use zenterm::event::bus::{EmitReport, EventBus, EventBusBuilder, HandlerResult};
use zenterm::event::metrics::{MetricsSink, NoopMetricsSink};
use zenterm::event::payload::{EmptyPayload, TextPayload};
use zenterm::event::subscription::{matches_parts, pattern_matches, split_at_dots, Subscription};
use zenterm::text::{decimal, parse_u64, same_text};

#[test]
fn test_text_payload() {
    let payload = TextPayload::new("test message");
    assert_eq!(payload.content, "test message");

    let payload: TextPayload = "another test".into();
    assert_eq!(payload.content, "another test");
}

#[test]
fn test_text_payload_from_string() {
    let payload: TextPayload = String::from("owned").into();
    assert_eq!(payload.content, "owned");
    assert_eq!(payload.clone().content, "owned");
}

#[test]
fn test_empty_payload() {
    let payload = EmptyPayload;
    assert_eq!(payload, EmptyPayload::default());
}

#[test]
fn test_subscription_creation() {
    let sub = Subscription::new("test.pattern", 0);
    assert_eq!(sub.pattern(), "test.pattern");
    assert!(!sub.id().is_empty());
    assert!(sub.id().starts_with("sub_"));
}

#[test]
fn test_subscription_ids_are_unique() {
    let sub1 = Subscription::new("pattern1", 0);
    let sub2 = Subscription::new("pattern2", 1);
    assert_ne!(sub1.id(), sub2.id());
}

#[test]
fn test_subscription_id_is_prefix_and_number() {
    assert_eq!(Subscription::new("a", 0).id(), "sub_0");
    assert_eq!(Subscription::new("a", 7).id(), "sub_7");
    assert_eq!(Subscription::new("a", 10).id(), "sub_10");
    assert_eq!(Subscription::new("a", 4096).id(), "sub_4096");
    let copy = Subscription::new("a.b", 12).clone();
    assert_eq!(copy.id(), "sub_12");
    assert_eq!(copy.pattern(), "a.b");
}

#[test]
fn test_decimal_notation() {
    assert_eq!(decimal(0), "0");
    assert_eq!(decimal(9), "9");
    assert_eq!(decimal(10), "10");
    assert_eq!(decimal(109), "109");
    assert_eq!(decimal(1234567890), "1234567890");
    assert_eq!(decimal(u64::MAX), "18446744073709551615");
}

#[test]
fn test_parse_u64_reads_as_the_standard_library() {
    let texts = [
        "0",
        "7",
        "+7",
        "007",
        "100",
        "18446744073709551615",
        "18446744073709551616",
        "+18446744073709551615",
        "184467440737095516150",
        "99999999999999999999999999",
        "",
        "+",
        "++1",
        "-1",
        "-0",
        "1+",
        "1 ",
        " 1",
        "1_000",
        "12a",
        "a12",
        "٣",
        "1.5",
    ];
    for text in texts {
        assert_eq!(parse_u64(text), text.parse::<u64>().ok(), "{:?}", text);
    }
    assert_eq!(parse_u64("18446744073709551615"), Some(u64::MAX));
    assert_eq!(parse_u64("18446744073709551616"), None);
    assert_eq!(parse_u64("+42"), Some(42));
    for n in [0u64, 9, 10, 99, 12345, u64::MAX] {
        assert_eq!(parse_u64(&decimal(n)), Some(n));
    }
}

#[test]
fn test_same_text() {
    assert!(same_text("", ""));
    assert!(same_text("user.login", "user.login"));
    assert!(!same_text("user.login", "user.logout"));
    assert!(!same_text("user", "user."));
}

#[test]
fn test_exact_pattern_matching() {
    let sub = Subscription::new("user.login", 0);
    assert!(sub.matches("user.login"));
    assert!(!sub.matches("user.logout"));
    assert!(!sub.matches("admin.login"));
}

#[test]
fn test_single_wildcard_matching() {
    let sub = Subscription::new("user.*", 0);
    assert!(sub.matches("user.login"));
    assert!(sub.matches("user.logout"));
    assert!(!sub.matches("admin.login"));
    assert!(!sub.matches("user.login.success"));
}

#[test]
fn test_multi_wildcard_matching() {
    let sub = Subscription::new("user.**", 0);
    assert!(sub.matches("user.login"));
    assert!(sub.matches("user.login.success"));
    assert!(sub.matches("user.profile.update.complete"));
    assert!(!sub.matches("admin.login"));
}

#[test]
fn test_root_wildcard_matching() {
    let sub = Subscription::new("**", 0);
    assert!(sub.matches("user.login"));
    assert!(sub.matches("admin.logout"));
    assert!(sub.matches("system.shutdown"));
    assert!(sub.matches("a.very.long.pattern.here"));
}

#[test]
fn test_mixed_wildcard_matching() {
    let sub = Subscription::new("*.login.**", 0);
    assert!(sub.matches("user.login.success"));
    assert!(sub.matches("admin.login.failed"));
    assert!(!sub.matches("user.logout.complete"));
    assert!(!sub.matches("login.success"));
}

#[test]
fn test_pattern_matches_function() {
    // Exact matches
    assert!(pattern_matches("test", "test"));
    assert!(!pattern_matches("test", "other"));

    // Single wildcard
    assert!(pattern_matches("*", "anything"));
    assert!(pattern_matches("user.*", "user.login"));
    assert!(!pattern_matches("user.*", "user.login.success"));

    // Multi wildcard
    assert!(pattern_matches("**", "anything.goes.here"));
    assert!(pattern_matches("user.**", "user"));
    assert!(pattern_matches("user.**", "user.login"));
    assert!(pattern_matches("user.**", "user.login.success.complete"));
}

#[test]
fn test_split_at_dots_keeps_empty_segments() {
    assert_eq!(split_at_dots(""), vec![""]);
    assert_eq!(split_at_dots("user"), vec!["user"]);
    assert_eq!(split_at_dots("user.login"), vec!["user", "login"]);
    assert_eq!(split_at_dots("a..b"), vec!["a", "", "b"]);
    assert_eq!(split_at_dots(".a."), vec!["", "a", ""]);
    assert_eq!(split_at_dots("é.ü"), vec!["é", "ü"]);
    let expected: Vec<String> = "x.y.z".split('.').map(|s| s.to_string()).collect();
    assert_eq!(split_at_dots("x.y.z"), expected);
}

#[test]
fn test_matches_parts_from_positions() {
    let sub = split_at_dots("a.*.**");
    let event = split_at_dots("a.b.c.d");
    assert!(matches_parts(&sub, 0, &event, 0));
    assert!(matches_parts(&sub, 2, &event, 4));
    assert!(matches_parts(&sub, 3, &event, 4));
    assert!(!matches_parts(&sub, 3, &event, 3));
    assert!(!matches_parts(&sub, 1, &event, 4));
    assert!(matches_parts(&sub, 1, &event, 3));
}

#[test]
fn test_wildcards_inside_patterns() {
    assert!(pattern_matches("**.done", "job.step.done"));
    assert!(pattern_matches("**.done", "done"));
    assert!(!pattern_matches("**.done", "job.step.failed"));
    assert!(pattern_matches("a.**.z", "a.z"));
    assert!(pattern_matches("a.**.z", "a.b.c.z"));
    assert!(!pattern_matches("a.**.z", "a.b.c"));
    assert!(!pattern_matches("*", "a.b"));
    assert!(!pattern_matches("*.*", "a"));
    assert!(!pattern_matches("user.*", "user"));
    assert!(pattern_matches("user.*", "user."));
    // An asterisk inside a segment is no wildcard.
    assert!(!pattern_matches("us*r", "user"));
    assert!(pattern_matches("us*r", "us*r"));
}

#[test]
fn test_handler_result_kinds() {
    let success = HandlerResult::Success;
    let error = HandlerResult::Error("bad".to_string());
    let panic = HandlerResult::Panic("boom".to_string());
    assert!(success.is_success() && !success.is_error() && !success.is_panic());
    assert!(!error.is_success() && error.is_error() && !error.is_panic());
    assert!(!panic.is_success() && !panic.is_error() && panic.is_panic());
    assert!(matches!(error.clone(), HandlerResult::Error(text) if text == "bad"));
    assert!(matches!(panic.clone(), HandlerResult::Panic(text) if text == "boom"));
}

#[test]
fn test_emit_report_counts_results() {
    let mut report = EmitReport::new();
    assert_eq!(report, EmitReport::default());
    assert!(report.is_all_ok());
    report.add_result(&HandlerResult::Success);
    report.add_result(&HandlerResult::Success);
    assert!(report.is_all_ok());
    report.add_result(&HandlerResult::Error("error".to_string()));
    assert_eq!(report.total_count, 3);
    assert_eq!(report.success_count, 2);
    assert_eq!(report.error_count, 1);
    assert_eq!(report.panic_count, 0);
    assert!(!report.is_all_ok());
    report.add_result(&HandlerResult::Panic("Handler panic".to_string()));
    assert_eq!(
        report,
        EmitReport { success_count: 2, error_count: 1, panic_count: 1, total_count: 4 }
    );
}

#[test]
fn test_emit_report_panic_alone_is_not_ok() {
    let mut report = EmitReport::new();
    report.add_result(&HandlerResult::Panic("Handler panic".to_string()));
    assert_eq!(report.success_count, 0);
    assert_eq!(report.error_count, 0);
    assert_eq!(report.panic_count, 1);
    assert!(!report.is_all_ok());
}

#[test]
fn test_builder_settings() {
    let builder = EventBusBuilder::new();
    assert!(builder.catches_panics_enabled());
    assert!(!builder.tracing_enabled());

    let builder = EventBusBuilder::default().catch_panics(false).tracing(true);
    assert!(!builder.catches_panics_enabled());
    assert!(builder.tracing_enabled());

    let bus: EventBus<Handler> = builder.metrics(NoopMetricsSink).build();
    assert!(!bus.catches_panics_enabled());
    assert!(bus.tracing_enabled());
    let sink = bus.metrics_sink();
    sink.on_emit("user.login", 2);
    sink.on_handler_result("user.login", "sub_0", &HandlerResult::Success);
    sink.on_panic("user.login", "sub_0", "boom");
}

#[test]
fn test_noop_sink_is_default() {
    let sink = NoopMetricsSink::default();
    sink.on_emit("anything", 0);
    let copy = sink;
    copy.on_panic("anything", "sub_1", "message");
}

/// A handler as the tests file it: one that only runs, or one that reports.
enum Handler {
    Simple(Box<dyn Fn(&str)>),
    Result(Box<dyn Fn(&str) -> Result<(), String>>),
}

fn simple(handler: impl Fn(&str) + 'static) -> Handler {
    Handler::Simple(Box::new(handler))
}

fn reporting(handler: impl Fn(&str) -> Result<(), String> + 'static) -> Handler {
    Handler::Result(Box::new(handler))
}

/// Runs a handler on a payload the way the bus of the application does.
fn run(handler: &Handler, payload: &str) -> HandlerResult {
    match handler {
        Handler::Simple(h) => {
            h(payload);
            HandlerResult::Success
        }
        Handler::Result(h) => match h(payload) {
            Ok(()) => HandlerResult::Success,
            Err(e) => HandlerResult::Error(e),
        },
    }
}

fn counting(counter: &Rc<Cell<usize>>) -> Handler {
    let counter = counter.clone();
    simple(move |_payload| counter.set(counter.get() + 1))
}

#[test]
fn test_event_bus_creation() {
    let bus: EventBus<Handler> = EventBus::new();
    assert_eq!(bus.subscription_count(), 0);
}

#[test]
fn test_subscribe_and_emit() {
    let mut bus = EventBus::new();
    let counter = Rc::new(Cell::new(0));

    let _sub = bus.subscribe("test.event", counting(&counter));

    assert_eq!(bus.subscription_count(), 1);

    let payload = TextPayload::new("test message");
    bus.emit("test.event", |h| run(h, &payload.content));

    assert_eq!(counter.get(), 1);
}

#[test]
fn test_subscribe_result() {
    let mut bus = EventBus::new();

    let _sub = bus.subscribe("test.result", reporting(|_payload| Ok(())));

    let report = bus.emit_and_report("test.result", |h| run(h, ""));
    assert_eq!(report.success_count, 1);
    assert_eq!(report.error_count, 0);
    assert_eq!(report.panic_count, 0);
}

#[test]
fn test_subscribe_result_error() {
    let mut bus = EventBus::new();

    let _sub = bus.subscribe("test.error", reporting(|_payload| Err("Handler error".to_string())));

    let report = bus.emit_and_report("test.error", |h| run(h, ""));
    assert_eq!(report.success_count, 0);
    assert_eq!(report.error_count, 1);
    assert_eq!(report.panic_count, 0);
    assert!(!report.is_all_ok());
}

#[test]
fn test_wildcard_patterns() {
    let mut bus = EventBus::new();
    let counter = Rc::new(Cell::new(0));

    let _sub = bus.subscribe("user.*", counting(&counter));

    bus.emit("user.login", |h| run(h, ""));
    bus.emit("user.logout", |h| run(h, ""));
    bus.emit("admin.login", |h| run(h, ""));

    assert_eq!(counter.get(), 2);
}

#[test]
fn test_multi_wildcard_patterns() {
    let mut bus = EventBus::new();
    let counter = Rc::new(Cell::new(0));

    let _sub = bus.subscribe("user.**", counting(&counter));

    bus.emit("user.login", |h| run(h, ""));
    bus.emit("user.profile.update", |h| run(h, ""));
    bus.emit("admin.login", |h| run(h, ""));

    assert_eq!(counter.get(), 2);
}

#[test]
fn test_root_wildcard() {
    let mut bus = EventBus::new();
    let counter = Rc::new(Cell::new(0));

    let _sub = bus.subscribe("**", counting(&counter));

    bus.emit("user.login", |h| run(h, ""));
    bus.emit("admin.logout", |h| run(h, ""));
    bus.emit("system.shutdown", |h| run(h, ""));

    assert_eq!(counter.get(), 3);
}

#[test]
fn test_unsubscribe() {
    let mut bus = EventBus::new();
    let counter = Rc::new(Cell::new(0));

    let sub = bus.subscribe("test.event", counting(&counter));

    assert_eq!(bus.subscription_count(), 1);

    bus.emit("test.event", |h| run(h, ""));
    assert_eq!(counter.get(), 1);

    assert!(bus.unsubscribe(&sub));
    assert_eq!(bus.subscription_count(), 0);

    bus.emit("test.event", |h| run(h, ""));
    assert_eq!(counter.get(), 1); // Should not increment
}

#[test]
fn test_emit_and_count() {
    let mut bus = EventBus::new();

    let _sub1 = bus.subscribe("test.event", simple(|_| {}));
    let _sub2 = bus.subscribe("test.*", simple(|_| {}));

    let count = bus.emit_and_count("test.event", |h| run(h, ""));
    assert_eq!(count, 2);
}

#[test]
fn test_emit_report() {
    let mut bus = EventBus::new();

    let _sub1 = bus.subscribe("test.event", simple(|_| {}));
    let _sub2 = bus.subscribe("test.event", reporting(|_| Ok(())));
    let _sub3 = bus.subscribe("test.event", reporting(|_| Err("error".to_string())));

    let report = bus.emit_and_report("test.event", |h| run(h, ""));
    assert_eq!(report.total_count, 3);
    assert_eq!(report.success_count, 2);
    assert_eq!(report.error_count, 1);
    assert_eq!(report.panic_count, 0);
    assert!(!report.is_all_ok());
}

#[test]
fn test_builder_pattern() {
    let bus: EventBus<Handler> = EventBus::<Handler>::builder()
        .catch_panics(false)
        .tracing(true)
        .build();

    // Just verify it builds without errors
    assert_eq!(bus.subscription_count(), 0);
}

#[test]
fn test_bus_runs_handlers_in_order_of_subscription() {
    let mut bus: EventBus<&'static str> = EventBus::new();
    let first = bus.subscribe("job.*", "first");
    let second = bus.subscribe("other", "second");
    let third = bus.subscribe("**", "third");
    let fourth = bus.subscribe("job.done", "fourth");
    assert_eq!(first.id(), "sub_0");
    assert_eq!(second.id(), "sub_1");
    assert_eq!(third.id(), "sub_2");
    assert_eq!(fourth.id(), "sub_3");

    let seen = Rc::new(Cell::new(Vec::new()));
    let record = |name: &&'static str| {
        let mut names: Vec<&'static str> = seen.take();
        names.push(*name);
        seen.set(names);
        if *name == "third" {
            HandlerResult::Panic("recovered".to_string())
        } else {
            HandlerResult::Success
        }
    };
    let report = bus.emit_sync_sequential("job.done", record);
    assert_eq!(seen.take(), vec!["first", "third", "fourth"]);
    assert_eq!(
        report,
        EmitReport { success_count: 2, error_count: 0, panic_count: 1, total_count: 3 }
    );
    let listing = bus.matching_handlers("other");
    let names: Vec<(&str, &str)> = listing.iter().map(|(s, h)| (s.id(), **h)).collect();
    assert_eq!(names, vec![("sub_1", "second"), ("sub_2", "third")]);
}

#[test]
fn test_unsubscribe_keeps_the_others_and_never_reuses_an_id() {
    let mut bus: EventBus<u8> = EventBus::new();
    let a = bus.subscribe("a", 1);
    let b = bus.subscribe("a", 2);
    let c = bus.subscribe("a", 3);
    assert!(bus.unsubscribe(&b));
    assert!(!bus.unsubscribe(&b));
    assert_eq!(bus.subscription_count(), 2);
    // A subscription of another bus with the same number is not this one's.
    let mut other: EventBus<u8> = EventBus::new();
    let foreign = other.subscribe("a", 9);
    assert_eq!(foreign.id(), a.id());
    assert!(bus.unsubscribe(&foreign));
    assert_eq!(bus.subscription_count(), 1);
    let d = bus.subscribe("a", 4);
    assert_eq!(d.id(), "sub_3");
    let handlers: Vec<u8> = bus.matching_handlers("a").iter().map(|(_, h)| **h).collect();
    assert_eq!(handlers, vec![3, 4]);
    assert!(bus.unsubscribe(&c));
    assert_eq!(bus.emit_and_count("a", |_| HandlerResult::Success), 1);
    assert_eq!(bus.emit_and_count("b", |_| HandlerResult::Success), 0);
}

/// A sink that counts what it is told.
struct CountingSink {
    emissions: Arc<AtomicUsize>,
    handlers: Arc<AtomicUsize>,
    results: Arc<AtomicUsize>,
}

impl MetricsSink for CountingSink {
    fn on_emit(&self, _pattern: &str, handler_count: usize) {
        self.emissions.fetch_add(1, Ordering::Relaxed);
        self.handlers.fetch_add(handler_count, Ordering::Relaxed);
    }

    fn on_handler_result(&self, _pattern: &str, _handler_id: &str, _result: &HandlerResult) {
        self.results.fetch_add(1, Ordering::Relaxed);
    }
}

#[test]
fn test_bus_notifies_the_sink_it_was_built_with() {
    let emissions = Arc::new(AtomicUsize::new(0));
    let handlers = Arc::new(AtomicUsize::new(0));
    let results = Arc::new(AtomicUsize::new(0));
    let sink = CountingSink {
        emissions: emissions.clone(),
        handlers: handlers.clone(),
        results: results.clone(),
    };
    // The sink survives the settings that are made after it.
    let mut bus: EventBus<u8> =
        EventBusBuilder::new().metrics(sink).catch_panics(false).tracing(true).build();
    assert!(!bus.catches_panics_enabled());
    assert!(bus.tracing_enabled());
    bus.subscribe("job.*", 1);
    bus.subscribe("job.done", 2);
    bus.subscribe("other", 3);

    bus.emit("job.done", |_| HandlerResult::Success);
    assert_eq!(emissions.load(Ordering::Relaxed), 1);
    assert_eq!(handlers.load(Ordering::Relaxed), 2);
    assert_eq!(results.load(Ordering::Relaxed), 2);

    bus.emit("nothing", |_| HandlerResult::Success);
    assert_eq!(emissions.load(Ordering::Relaxed), 2);
    assert_eq!(handlers.load(Ordering::Relaxed), 2);
    assert_eq!(results.load(Ordering::Relaxed), 2);

    // The sink that the bus hands out is the same one.
    bus.metrics_sink().on_emit("by hand", 5);
    assert_eq!(emissions.load(Ordering::Relaxed), 3);
    assert_eq!(handlers.load(Ordering::Relaxed), 7);

    // A later sink takes the place of an earlier one.
    let other = Arc::new(AtomicUsize::new(0));
    let replaced: EventBus<u8> = EventBusBuilder::new()
        .metrics(CountingSink {
            emissions: emissions.clone(),
            handlers: handlers.clone(),
            results: results.clone(),
        })
        .metrics(CountingSink {
            emissions: other.clone(),
            handlers: other.clone(),
            results: other.clone(),
        })
        .build();
    replaced.emit("x", |_| HandlerResult::Success);
    assert_eq!(emissions.load(Ordering::Relaxed), 3);
    assert_eq!(other.load(Ordering::Relaxed), 1);
}
