use convoy::errors::BusError;
use convoy::message::RawHeaders;
use convoy::producer::{
    KafkaProducer, KafkaProducerOptions, SendOutcome, SEND_TIMEOUT_SECS,
};
use convoy::span::SpanKind;

fn lookup(list: &[(String, String)], key: &str) -> Option<String> {
    for (k, v) in list.iter() {
        if k == key {
            return Some(v.clone());
        }
    }
    None
}

#[test]
fn merge_prefers_the_options_headers() {
    let producer = KafkaProducer::new("orders".to_string());
    let mut base = RawHeaders::new();
    base.insert("a".to_string(), "1".to_string());
    let options = KafkaProducerOptions::new()
        .add_header("a".to_string(), "2".to_string())
        .add_header("b".to_string(), "3".to_string());
    let record = producer.prepare_send("k".to_string(), base, vec![], options);
    assert_eq!(record.headers.len(), 2);
    assert_eq!(lookup(&record.headers, "a"), Some("2".to_string()));
    assert_eq!(lookup(&record.headers, "b"), Some("3".to_string()));
}

#[test]
fn override_resolves_the_destination() {
    let producer = KafkaProducer::new("orders".to_string());
    let options = KafkaProducerOptions::new().override_topic("orders-retry".to_string());
    let record =
        producer.prepare_send("k".to_string(), RawHeaders::new(), vec![], options);
    assert_eq!(record.topic, "orders-retry");
}

#[test]
fn no_override_dispatches_to_the_default() {
    let producer = KafkaProducer::new("orders".to_string());
    let record = producer.prepare_send(
        "k".to_string(),
        RawHeaders::new(),
        vec![],
        KafkaProducerOptions::new(),
    );
    assert_eq!(record.topic, "orders");
}

#[test]
fn prepared_record_keeps_key_and_payload() {
    let producer = KafkaProducer::new("orders".to_string());
    let record = producer.prepare_send(
        "the-key".to_string(),
        RawHeaders::new(),
        vec![1, 2, 3],
        KafkaProducerOptions::new(),
    );
    assert_eq!(record.key, "the-key");
    assert_eq!(record.payload, vec![1, 2, 3]);
}

#[test]
fn unconfirmed_send_is_a_timeout_error() {
    let producer = KafkaProducer::new("orders".to_string());
    let r = producer.complete_send(SendOutcome::TimedOut);
    match r {
        Err(e) => assert!(e.is_timeout()),
        Ok(()) => panic!("a timed-out send must not report success"),
    }
}

#[test]
fn confirmed_send_succeeds() {
    let producer = KafkaProducer::new("orders".to_string());
    assert!(producer.complete_send(SendOutcome::Delivered).is_ok());
}

#[test]
fn transport_failure_is_a_transport_error() {
    let producer = KafkaProducer::new("orders".to_string());
    let r = producer.complete_send(SendOutcome::Failed);
    assert!(matches!(r, Err(BusError::Transport)));
}

#[test]
fn send_timeout_is_ten_seconds() {
    assert_eq!(SEND_TIMEOUT_SECS, 10);
}

#[test]
fn send_span_uses_the_effective_destination() {
    let producer = KafkaProducer::new("orders".to_string());
    let headers = RawHeaders::new();
    let defaults = KafkaProducerOptions::new();
    let s = producer.make_span("k", &headers, &[], &defaults);
    assert_eq!(s.name, "orders send");
    assert_eq!(s.kind, SpanKind::Producer);
    assert_eq!(s.system, "kafka");
    assert_eq!(s.destination, "orders");
    assert_eq!(s.destination_kind, "topic");
    assert_eq!(s.key_text, "k");

    let overridden = KafkaProducerOptions::new().override_topic("orders-retry".to_string());
    let s2 = producer.make_span("k", &headers, &[], &overridden);
    assert_eq!(s2.name, "orders-retry send");
    assert_eq!(s2.destination, "orders-retry");
}

#[test]
fn default_options_change_nothing() {
    let producer = KafkaProducer::new("orders".to_string());
    let mut base = RawHeaders::new();
    base.insert("a".to_string(), "1".to_string());
    let record =
        producer.prepare_send("k".to_string(), base, vec![], KafkaProducerOptions::default());
    assert_eq!(record.topic, "orders");
    assert_eq!(record.headers.len(), 1);
    assert_eq!(lookup(&record.headers, "a"), Some("1".to_string()));
}
