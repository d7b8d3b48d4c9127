//! The outgoing side: per-call options, the header-merge and destination
//! policy of one send, and the classification of what the backend
//! reported. Dispatching the prepared record over the wire is the
//! adapter's business.

use vstd::prelude::*;

use crate::errors::BusError;
use crate::message::{keys_unique, map_of, RawHeaders};
use crate::span::{ProducerSpan, SpanKind};

verus! {

/// The bounded send timeout, in seconds.
pub const SEND_TIMEOUT_SECS: u64 = 10;

/// Per-call configuration of one send: an optional destination override,
/// and headers merged in over the base headers.
#[derive(Debug)]
pub struct KafkaProducerOptions {
    pub topic_override: Option<String>,
    pub additional_headers: RawHeaders,
}

impl KafkaProducerOptions {
    pub open spec fn wf(&self) -> bool {
        self.additional_headers.wf()
    }

    /// Options that change nothing: no override, nothing to merge.
    pub fn new() -> (r: Self)
        ensures
            r.wf(),
            r.topic_override is None,
            r.additional_headers@ == Map::<Seq<char>, Seq<char>>::empty(),
    {
        KafkaProducerOptions { topic_override: None, additional_headers: RawHeaders::new() }
    }

    /// Send to `topic` instead of the producer's configured destination.
    pub fn override_topic(self, topic: String) -> (r: Self)
        ensures
            r.topic_override == Some(topic),
            r.additional_headers == self.additional_headers,
    {
        KafkaProducerOptions { topic_override: Some(topic), ..self }
    }

    /// Merge `value` under `key` into this call's headers; on a key the
    /// base headers also carry, the value given here wins.
    pub fn add_header(self, key: String, value: String) -> (r: Self)
        requires
            self.wf(),
        ensures
            r.wf(),
            r.topic_override == self.topic_override,
            r.additional_headers@ == self.additional_headers@.insert(key@, value@),
    {
        let mut s = self;
        s.additional_headers.insert(key, value);
        s
    }
}

impl Default for KafkaProducerOptions {
    /// Options that change nothing.
    fn default() -> (r: Self)
        ensures
            r.wf(),
            r.topic_override is None,
            r.additional_headers@ == Map::<Seq<char>, Seq<char>>::empty(),
    {
        KafkaProducerOptions::new()
    }
}

/// The destination one call is dispatched to: the override when the
/// options carry one, else the configured default destination.
pub open spec fn effective_topic(default_topic: Seq<char>, topic_override: Option<String>) -> Seq<
    char,
> {
    match topic_override {
        Some(t) => t@,
        None => default_topic,
    }
}

/// One outgoing message, fully resolved: where it goes and what it
/// carries, with the merged headers laid out as the backend's header list.
pub struct OutgoingRecord {
    pub topic: String,
    pub key: String,
    pub headers: Vec<(String, String)>,
    pub payload: Vec<u8>,
}

/// What the backend reported of one dispatched record.
#[derive(Clone, Copy, PartialEq, Eq, Structural, Debug)]
pub enum SendOutcome {
    /// Confirmed within the timeout.
    Delivered,
    /// Not confirmed within the configured timeout.
    TimedOut,
    /// The transport failed outright.
    Failed,
}

/// The policy half of a producer bound to a default destination. The
/// backend client that owns the wire connection stays with the adapter; it
/// takes the record `prepare_send` resolves and reports a `SendOutcome`.
#[derive(Clone)]
pub struct KafkaProducer {
    pub topic: String,
}

impl KafkaProducer {
    /// A producer that dispatches to `topic` unless a call overrides it.
    pub fn new(topic: String) -> (r: Self)
        ensures
            r.topic == topic,
    {
        KafkaProducer { topic }
    }

    /// Resolve one send call: merge the option headers over the base
    /// headers (the options win on a shared key), resolve the effective
    /// destination, and lay the merged mapping out as the backend's
    /// header list, every entry preserved.
    pub fn prepare_send(
        &self,
        key: String,
        headers: RawHeaders,
        payload: Vec<u8>,
        options: KafkaProducerOptions,
    ) -> (r: OutgoingRecord)
        requires
            headers.wf(),
        ensures
            r.topic@ == effective_topic(self.topic@, options.topic_override),
            r.key == key,
            r.payload == payload,
            keys_unique(r.headers@),
            map_of(r.headers@) == headers@.union_prefer_right(options.additional_headers@),
            r.headers@.len() == headers@.union_prefer_right(
                options.additional_headers@,
            ).dom().len(),
    {
        let KafkaProducerOptions { topic_override, additional_headers } = options;
        let mut merged = headers;
        merged.extend(additional_headers);
        let topic = match topic_override {
            Some(t) => t,
            None => self.topic.clone(),
        };
        let list = merged.to_list();
        OutgoingRecord { topic, key, headers: list, payload }
    }

    /// Classify what the backend reported of a dispatched record:
    /// confirmation is success, no confirmation within the configured
    /// timeout is the timeout error, a transport failure is the transport
    /// error. Nothing hangs silently and nothing is swallowed.
    pub fn complete_send(&self, outcome: SendOutcome) -> (r: Result<(), BusError>)
        ensures
            outcome == SendOutcome::Delivered <==> r is Ok,
            outcome == SendOutcome::TimedOut <==> r == Err::<(), BusError>(BusError::Timeout),
            outcome == SendOutcome::Failed <==> r == Err::<(), BusError>(BusError::Transport),
    {
        match outcome {
            SendOutcome::Delivered => Ok(()),
            SendOutcome::TimedOut => Err(BusError::Timeout),
            SendOutcome::Failed => Err(BusError::Transport),
        }
    }

    /// The attribute set of the send span, from the effective destination
    /// and the key alone.
    pub fn make_span(
        &self,
        key: &str,
        _headers: &RawHeaders,
        _payload: &[u8],
        options: &KafkaProducerOptions,
    ) -> (r: ProducerSpan)
        ensures
            r.kind == SpanKind::Producer,
            r.name@ == effective_topic(self.topic@, options.topic_override) + " send"@,
            r.system@ == "kafka"@,
            r.destination@ == effective_topic(self.topic@, options.topic_override),
            r.destination_kind@ == "topic"@,
            r.key_text@ == key@,
    {
        let topic = match &options.topic_override {
            Some(t) => t.clone(),
            None => self.topic.clone(),
        };
        let mut name = topic.clone();
        name.push_str(" send");
        ProducerSpan {
            name,
            kind: SpanKind::Producer,
            system: "kafka".to_owned(),
            destination: topic,
            destination_kind: "topic".to_owned(),
            key_text: key.to_owned(),
        }
    }
}

} // verus!
