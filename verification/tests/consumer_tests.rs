use convoy::consumer::{decode_headers, ConsumerState, RdKafkaOwnedMessage, WireHeader};
use convoy::errors::BusError;
use convoy::span::SpanKind;

fn message(
    headers: Option<Vec<WireHeader>>,
    payload: Option<Vec<u8>>,
    key: Option<Vec<u8>>,
) -> RdKafkaOwnedMessage {
    RdKafkaOwnedMessage::new("orders".to_string(), 3, 41, payload, key, headers)
}

#[test]
fn invalid_text_header_is_dropped_others_kept() {
    let wire = vec![
        WireHeader { key: "a".to_string(), value: Some(b"ok".to_vec()) },
        WireHeader { key: "b".to_string(), value: Some(vec![0xff, 0xfe]) },
    ];
    let m = message(Some(wire), None, None);
    let h = m.headers();
    assert_eq!(h.len(), 1);
    assert_eq!(h.get(&"a".to_string()), Some(&"ok".to_string()));
    assert_eq!(h.get(&"b".to_string()), None);
}

#[test]
fn header_without_value_is_dropped() {
    let wire = vec![WireHeader { key: "only-key".to_string(), value: None }];
    let m = message(Some(wire), None, None);
    assert_eq!(m.headers().len(), 0);
}

#[test]
fn no_header_section_gives_empty_mapping() {
    let m = message(None, None, None);
    assert_eq!(m.headers().len(), 0);
}

#[test]
fn repeated_wire_key_keeps_the_later_value() {
    let wire = vec![
        WireHeader { key: "a".to_string(), value: Some(b"1".to_vec()) },
        WireHeader { key: "a".to_string(), value: Some(b"2".to_vec()) },
    ];
    let h = decode_headers(&wire);
    assert_eq!(h.len(), 1);
    assert_eq!(h.get(&"a".to_string()), Some(&"2".to_string()));
}

#[test]
fn missing_payload_reads_as_empty_bytes() {
    let m = message(None, None, None);
    assert_eq!(m.payload(), Vec::<u8>::new());
}

#[test]
fn payload_bytes_come_back_unchanged() {
    let m = message(None, Some(vec![1, 2, 3]), None);
    assert_eq!(m.payload(), vec![1, 2, 3]);
}

#[test]
fn key_comes_back_unmodified() {
    let m = message(None, None, Some(vec![0xff, 0x00]));
    assert_eq!(m.key(), Some(&vec![0xff, 0x00]));
    let none = message(None, None, None);
    assert_eq!(none.key(), None);
}

#[test]
fn nack_succeeds_and_changes_nothing() {
    let m = message(None, None, None);
    let mut c = ConsumerState { committed: 7, valid: true };
    assert!(m.nack(&mut c).is_ok());
    assert_eq!(c.committed, 7);
    assert!(c.valid);
}

#[test]
fn ack_advances_committed_past_the_message() {
    let m = message(None, None, None);
    let mut c = ConsumerState { committed: 7, valid: true };
    assert!(m.ack(&mut c).is_ok());
    assert_eq!(c.committed, 42);
}

#[test]
fn reject_advances_committed_exactly_like_ack() {
    let m = message(None, None, None);
    let mut acked = ConsumerState { committed: 7, valid: true };
    let mut rejected = ConsumerState { committed: 7, valid: true };
    assert!(m.ack(&mut acked).is_ok());
    assert!(m.reject(&mut rejected).is_ok());
    assert_eq!(acked.committed, rejected.committed);
    assert_eq!(rejected.committed, 42);
}

#[test]
fn ack_at_the_largest_offset_still_fits() {
    let m = RdKafkaOwnedMessage::new(
        "orders".to_string(),
        0,
        i64::MAX - 1,
        None,
        None,
        None,
    );
    let mut c = ConsumerState { committed: 0, valid: true };
    assert!(m.ack(&mut c).is_ok());
    assert_eq!(c.committed, i64::MAX);
}

#[test]
fn commit_on_invalidated_resource_fails_unchanged() {
    let m = message(None, None, None);
    let mut c = ConsumerState { committed: 7, valid: false };
    let r = m.commit(&mut c);
    assert!(matches!(r, Err(BusError::ResourceInvalid)));
    assert_eq!(c.committed, 7);
}

#[test]
fn receive_span_carries_the_message_fields() {
    let m = message(None, Some(vec![9, 9, 9, 9]), Some(b"k1".to_vec()));
    let s = m.make_span();
    assert_eq!(s.name, "orders receive");
    assert_eq!(s.kind, SpanKind::Consumer);
    assert_eq!(s.system, "kafka");
    assert_eq!(s.operation, "receive");
    assert_eq!(s.payload_size, 4);
    assert_eq!(s.partition, 3);
    assert_eq!(s.key_text, "k1");
    assert_eq!(s.offset, 41);
}

#[test]
fn receive_span_key_empty_when_absent_or_not_text() {
    let absent = message(None, None, None);
    assert_eq!(absent.make_span().key_text, "");
    let binary = message(None, None, Some(vec![0xff]));
    assert_eq!(binary.make_span().key_text, "");
}
