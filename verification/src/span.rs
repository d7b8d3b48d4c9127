//! Attribute sets of the observability spans, computed from message fields
//! alone; emitting an actual span from them is the adapter's business.

use vstd::prelude::*;

verus! {

/// Which side of the bus a span describes.
#[derive(Clone, Copy, PartialEq, Eq, Structural, Debug)]
pub enum SpanKind {
    Consumer,
    Producer,
}

/// The attributes of the span that accompanies receiving one message.
/// The status code is left free for the caller to fill.
pub struct ConsumerSpan {
    pub name: String,
    pub kind: SpanKind,
    pub system: String,
    pub operation: String,
    pub payload_size: usize,
    pub partition: i32,
    pub key_text: String,
    pub offset: i64,
}

/// The attributes of the span that accompanies sending one message.
/// The status code is left free for the caller to fill.
pub struct ProducerSpan {
    pub name: String,
    pub kind: SpanKind,
    pub system: String,
    pub destination: String,
    pub destination_kind: String,
    pub key_text: String,
}

} // verus!
