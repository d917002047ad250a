use rust_news_letter_server::attributes::{contains_key, merge_attributes, Attribute};
use rust_news_letter_server::correlation::CorrelationContext;
use rust_news_letter_server::health_check::greet;
use rust_news_letter_server::persistence::{classify_fault, detail_of, outcome_of, status_for, DatabaseFault, FailureKind, InsertOutcome};
use rust_news_letter_server::sink::{Destination, ObservabilitySink, Severity, SinkMisuse};
use rust_news_letter_server::span::{CloseMisuse, SpanOutcome, SpanRegistry, SummaryEvent};
use rust_news_letter_server::subscriptions::{finish_subscription, parse_subscription_form, subscribe, SubscribeStep};

fn attr(k: &str, v: &str) -> Attribute {
    Attribute::new(k, v)
}

fn value_of(attrs: &[Attribute], key: &str) -> Option<String> {
    attrs.iter().rev().find(|a| a.key == key).map(|a| a.value.clone())
}

fn form(fields: &[(&str, &str)]) -> Vec<(String, String)> {
    fields.iter().map(|(k, v)| (k.to_string(), v.to_string())).collect()
}

#[test]
fn child_values_win_on_shared_names() {
    let parent = vec![attr("a", "1"), attr("b", "2")];
    let supplied = vec![attr("b", "3"), attr("c", "4")];
    let merged = merge_attributes(&parent, &supplied);
    let pairs: Vec<(String, String)> = merged.iter().map(|a| (a.key.clone(), a.value.clone())).collect();
    assert_eq!(pairs, form(&[("a", "1"), ("b", "3"), ("c", "4")]));
    assert!(contains_key(&merged, &"c".to_string()));
    assert!(!contains_key(&merged, &"d".to_string()));
}

#[test]
fn child_span_inherits_request_and_attributes() {
    let mut reg = SpanRegistry::new();
    let ctx = CorrelationContext::with_identifier(7, vec![attr("subscriber_email", "x@y.z")]);
    let root = reg.open_root("root", &ctx, 10);
    let child = reg.open_child("child", root, &vec![attr("step", "db")], 11);
    assert_eq!((root, child), (0, 1));
    let ev = reg.close(child, SpanOutcome::Success, &None, 15).unwrap();
    assert_eq!(ev.request_id, 7);
    assert_eq!(ev.name, "child");
    assert_eq!(value_of(&ev.attributes, "subscriber_email").as_deref(), Some("x@y.z"));
    assert_eq!(value_of(&ev.attributes, "step").as_deref(), Some("db"));
    assert_eq!(ev.duration_micros(), 4);
    assert_eq!(ev.severity, Severity::Info);
}

#[test]
fn closing_twice_is_reported_once() {
    let mut reg = SpanRegistry::new();
    let ctx = CorrelationContext::with_identifier(1, vec![]);
    let root = reg.open_root("root", &ctx, 0);
    assert!(reg.close(root, SpanOutcome::Unspecified, &None, 1).is_ok());
    assert!(reg.is_closed(root));
    assert!(matches!(reg.close(root, SpanOutcome::Unspecified, &None, 2), Err(CloseMisuse::AlreadyClosed)));
    assert!(matches!(reg.close(5, SpanOutcome::Unspecified, &None, 2), Err(CloseMisuse::UnknownSpan)));
}

#[test]
fn finishing_twice_emits_no_second_summary() {
    let mut reg = SpanRegistry::new();
    let mut sink = ObservabilitySink::new();
    sink.init(Severity::Info, Destination::Stream).unwrap();
    let pending = match subscribe(&mut reg, &form(&[("email", "e@f.g"), ("name", "e")])) {
        SubscribeStep::Insert(p) => p,
        SubscribeStep::Rejected(_) => panic!("refused a complete form"),
    };
    assert_eq!(finish_subscription(&mut reg, &mut sink, &pending, &Ok(())), 200);
    assert_eq!(finish_subscription(&mut reg, &mut sink, &pending, &Ok(())), 200);
    assert_eq!(sink.drain().len(), 2);
}

#[test]
fn interleaved_requests_keep_their_own_tags() {
    let mut reg = SpanRegistry::new();
    let mut sink = ObservabilitySink::new();
    sink.init(Severity::Info, Destination::Stream).unwrap();
    let a = match subscribe(&mut reg, &form(&[("email", "a@x.org"), ("name", "alice")])) {
        SubscribeStep::Insert(p) => p,
        SubscribeStep::Rejected(_) => panic!("refused a complete form"),
    };
    let b = match subscribe(&mut reg, &form(&[("email", "b@x.org"), ("name", "bob")])) {
        SubscribeStep::Insert(p) => p,
        SubscribeStep::Rejected(_) => panic!("refused a complete form"),
    };
    assert_ne!(a.request_id, b.request_id);
    assert_eq!(finish_subscription(&mut reg, &mut sink, &b, &Ok(())), 200);
    assert_eq!(finish_subscription(&mut reg, &mut sink, &a, &Err(DatabaseFault::TimedOut { detail: "pool timed out".to_string() })), 500);
    let events: Vec<SummaryEvent> = sink.drain();
    assert_eq!(events.len(), 4);
    for ev in &events {
        let (email, name) = if ev.request_id == a.request_id { ("a@x.org", "alice") } else { ("b@x.org", "bob") };
        assert!(ev.request_id == a.request_id || ev.request_id == b.request_id);
        assert_eq!(value_of(&ev.attributes, "subscriber_email").as_deref(), Some(email));
        assert_eq!(value_of(&ev.attributes, "subscriber_name").as_deref(), Some(name));
    }
    assert_eq!(events[0].span, b.child);
    assert_eq!(events[1].span, b.root);
    assert_eq!(events[2].outcome, SpanOutcome::Failure(FailureKind::Timeout));
    assert_eq!(events[2].cause.as_deref(), Some("pool timed out"));
    assert_eq!(events[3].cause.as_deref(), Some("pool timed out"));
    assert!(events[0].cause.is_none() && events[1].cause.is_none());
    assert_eq!(events[3].name, "adding a new subscriber");
}

#[test]
fn sink_configures_once_and_filters() {
    let mut sink = ObservabilitySink::new();
    assert!(!sink.is_initialized());
    assert_eq!(sink.init(Severity::Error, Destination::Stream), Ok(()));
    assert_eq!(sink.init(Severity::Info, Destination::Discard), Err(SinkMisuse::AlreadyInitialized));
    let mut reg = SpanRegistry::new();
    let ctx = CorrelationContext::with_identifier(3, vec![]);
    let r = reg.open_root("r", &ctx, 0);
    let s = reg.open_child("s", r, &vec![], 0);
    assert!(!sink.emit(reg.close(s, SpanOutcome::Success, &None, 1).unwrap()));
    assert!(sink.emit(reg.close(r, SpanOutcome::Failure(FailureKind::Query), &None, 1).unwrap()));
    assert_eq!(sink.drain().len(), 1);
    assert_eq!(sink.drain().len(), 0);
}

#[test]
fn discarding_sink_keeps_nothing() {
    let mut sink = ObservabilitySink::new();
    let mut reg = SpanRegistry::new();
    let ctx = CorrelationContext::with_identifier(3, vec![]);
    let r = reg.open_root("r", &ctx, 0);
    assert!(!sink.emit(reg.close(r, SpanOutcome::Success, &None, 1).unwrap()));
    sink.init(Severity::Info, Destination::Discard).unwrap();
    let r2 = reg.open_root("r2", &ctx, 0);
    assert!(!sink.emit(reg.close(r2, SpanOutcome::Success, &None, 1).unwrap()));
    assert_eq!(sink.drain().len(), 0);
}

#[test]
fn faults_are_classified() {
    let rejected = |c: &str| DatabaseFault::Rejected { sqlstate: c.to_string(), detail: String::new() };
    assert_eq!(classify_fault(&rejected("23505")), FailureKind::ConstraintViolation);
    assert_eq!(classify_fault(&rejected("08006")), FailureKind::Connection);
    assert_eq!(classify_fault(&rejected("57014")), FailureKind::Timeout);
    assert_eq!(classify_fault(&rejected("42P01")), FailureKind::Query);
    assert_eq!(classify_fault(&rejected("2")), FailureKind::Query);
    assert_eq!(classify_fault(&DatabaseFault::Unreachable { detail: String::new() }), FailureKind::Connection);
    assert_eq!(classify_fault(&DatabaseFault::TimedOut { detail: "pool timed out".to_string() }), FailureKind::Timeout);
    assert_eq!(outcome_of(&Ok(())), InsertOutcome::Success);
    assert_eq!(outcome_of(&Err(DatabaseFault::Unreachable { detail: String::new() })), InsertOutcome::Failure(FailureKind::Connection));
    assert_eq!(status_for(InsertOutcome::Success), 200);
    assert_eq!(status_for(InsertOutcome::Failure(FailureKind::Query)), 500);
}

#[test]
fn first_field_of_a_name_is_used() {
    let f = parse_subscription_form(&form(&[("name", "n1"), ("email", "e1"), ("name", "n2"), ("x", "y")])).ok().unwrap();
    assert_eq!(f.email, "e1");
    assert_eq!(f.name, "n1");
}

#[test]
fn greeting_texts() {
    assert_eq!(greet(Some("Ferris")), "Hello Ferris!");
    assert_eq!(greet(None), "Hello World!");
}

#[test]
fn fresh_contexts_differ() {
    let a = CorrelationContext::new_for_request(vec![attr("k", "v")]);
    let b = CorrelationContext::new_for_request(vec![]);
    assert_ne!(a.request_id(), b.request_id());
    assert_eq!(a.attributes()[0].value, "v");
}

#[test]
fn sign_up_row_time_is_set() {
    let mut reg = SpanRegistry::new();
    let p = match subscribe(&mut reg, &form(&[("email", "t@t.t"), ("name", "t")])) {
        SubscribeStep::Insert(p) => p,
        SubscribeStep::Rejected(_) => panic!("refused a complete form"),
    };
    assert!(p.command.subscribed_at > 1_600_000_000_000_000);
    assert_ne!(p.command.id, p.request_id);
    assert_eq!((p.command.id >> 76) & 0xf, 4);
    assert_eq!((p.request_id >> 76) & 0xf, 4);
    assert_eq!(reg.len(), 2);
}

#[test]
fn request_identifiers_are_version_four() {
    let ctx = CorrelationContext::new_for_request(vec![]);
    assert_eq!((ctx.request_id() >> 76) & 0xf, 4);
}

#[test]
fn span_close_carries_the_cause() {
    let mut reg = SpanRegistry::new();
    let ctx = CorrelationContext::with_identifier(9, vec![]);
    let r = reg.open_root("r", &ctx, 0);
    let cause = Some("connection refused".to_string());
    let ev = reg.close(r, SpanOutcome::Failure(FailureKind::Connection), &cause, 2).unwrap();
    assert_eq!(ev.cause, cause);
    assert_eq!(ev.severity, Severity::Error);
    let f = DatabaseFault::Unreachable { detail: "connection refused".to_string() };
    assert_eq!(detail_of(&f), "connection refused");
}
