//! The incoming side: the wire shape of headers, the read rules of one
//! message taken off the consumer resource, and the acknowledgement policy
//! against that resource.

use vstd::prelude::*;

use crate::errors::BusError;
use crate::message::RawHeaders;
use crate::span::{ConsumerSpan, SpanKind};
use crate::text::{utf8_decode, utf8_to_text};

verus! {

/// One header as the backend delivers it: a text key, and value bytes that
/// may be absent and need not be valid text.
pub struct WireHeader {
    pub key: String,
    pub value: Option<Vec<u8>>,
}

/// The mapping a wire-header list collapses to on ingress: an entry whose
/// value is absent or not valid text is dropped; a later entry wins on a
/// repeated key.
pub open spec fn decoded_headers(raw: Seq<WireHeader>) -> Map<Seq<char>, Seq<char>>
    decreases raw.len(),
{
    if raw.len() == 0 {
        Map::empty()
    } else {
        let prefix = decoded_headers(raw.drop_last());
        match raw.last().value {
            Some(v) => match utf8_decode(v@) {
                Some(text) => prefix.insert(raw.last().key@, text),
                None => prefix,
            },
            None => prefix,
        }
    }
}

/// Collapse a wire-header list to its text-only mapping.
pub fn decode_headers(raw: &Vec<WireHeader>) -> (r: RawHeaders)
    ensures
        r.wf(),
        r@ == decoded_headers(raw@),
{
    let mut out = RawHeaders::new();
    let mut i: usize = 0;
    while i < raw.len()
        invariant
            i <= raw@.len(),
            out.wf(),
            out@ == decoded_headers(raw@.take(i as int)),
        decreases raw@.len() - i,
    {
        proof {
            assert(raw@.take(i as int + 1).drop_last() =~= raw@.take(i as int));
            assert(raw@.take(i as int + 1).last() == raw@[i as int]);
        }
        match &raw[i].value {
            Some(v) => {
                match utf8_to_text(v.as_slice()) {
                    Some(text) => {
                        out.insert(raw[i].key.clone(), text);
                    },
                    None => {},
                }
            },
            None => {},
        }
        i += 1;
    }
    proof {
        assert(raw@.take(raw@.len() as int) =~= raw@);
    }
    out
}

/// Dropping a wire entry whose value is absent or not valid text leaves the
/// decoded mapping unchanged: the entry is excluded, and every other entry
/// contributes exactly what it would have contributed anyway.
pub proof fn lemma_undecodable_entry_dropped(raw: Seq<WireHeader>, i: int)
    requires
        0 <= i < raw.len(),
        match raw[i].value {
            Some(v) => utf8_decode(v@) is None,
            None => true,
        },
    ensures
        decoded_headers(raw.remove(i)) == decoded_headers(raw),
    decreases raw.len(),
{
    if i == raw.len() - 1 {
        assert(raw.remove(i) =~= raw.drop_last());
    } else {
        let t = raw.drop_last();
        lemma_undecodable_entry_dropped(t, i);
        assert(raw.remove(i).drop_last() =~= t.remove(i));
        assert(raw.remove(i).last() == raw.last());
    }
}

/// The acknowledgement-relevant state of the shared consumer resource: the
/// offset it has durably committed (the next offset to be redelivered
/// from), and whether the resource is still usable.
pub struct ConsumerState {
    pub committed: i64,
    pub valid: bool,
}

/// The effect of committing one message on the resource state: the
/// committed offset moves past that message.
pub open spec fn commit_effect(c: ConsumerState, offset: i64) -> ConsumerState {
    ConsumerState { committed: (offset + 1) as i64, valid: c.valid }
}

/// The plain fields this layer reads from one message taken off the
/// resource. The backend's own message value, and the handle clone that
/// keeps it valid, stay with the adapter that extracted these fields.
pub struct RdKafkaOwnedMessage {
    pub topic: String,
    pub partition: i32,
    pub offset: i64,
    pub payload: Option<Vec<u8>>,
    pub key: Option<Vec<u8>>,
    pub headers: Option<Vec<WireHeader>>,
}

fn copy_bytes(src: &Vec<u8>) -> (r: Vec<u8>)
    ensures
        r@ == src@,
{
    let mut out: Vec<u8> = Vec::new();
    let mut i: usize = 0;
    while i < src.len()
        invariant
            i <= src@.len(),
            out@ == src@.take(i as int),
        decreases src@.len() - i,
    {
        out.push(src[i]);
        proof {
            assert(src@.take(i as int + 1) =~= src@.take(i as int).push(src@[i as int]));
        }
        i += 1;
    }
    proof {
        assert(src@.take(src@.len() as int) =~= src@);
    }
    out
}

impl RdKafkaOwnedMessage {
    /// A message offset as the backend assigns it: non-negative, with room
    /// for the committed offset one past it.
    pub open spec fn wf(&self) -> bool {
        0 <= self.offset < i64::MAX
    }

    /// Bundle the plain fields read from one backend message.
    pub fn new(
        topic: String,
        partition: i32,
        offset: i64,
        payload: Option<Vec<u8>>,
        key: Option<Vec<u8>>,
        headers: Option<Vec<WireHeader>>,
    ) -> (r: RdKafkaOwnedMessage)
        requires
            0 <= offset < i64::MAX,
        ensures
            r == (RdKafkaOwnedMessage { topic, partition, offset, payload, key, headers }),
    {
        RdKafkaOwnedMessage { topic, partition, offset, payload, key, headers }
    }

    /// The mapping of the message's headers; a missing header section
    /// gives the empty mapping.
    pub open spec fn headers_view(&self) -> Map<Seq<char>, Seq<char>> {
        match self.headers {
            Some(hs) => decoded_headers(hs@),
            None => Map::empty(),
        }
    }

    /// Rebuild the header mapping from the message's raw header list.
    /// Entries whose value is absent or not valid text are dropped rather
    /// than causing failure; no header section at all gives an empty
    /// mapping, not an error.
    pub fn headers(&self) -> (r: RawHeaders)
        ensures
            r.wf(),
            r@ == self.headers_view(),
    {
        match &self.headers {
            Some(hs) => decode_headers(hs),
            None => RawHeaders::new(),
        }
    }

    /// The payload bytes; a missing payload reads as the empty sequence.
    pub open spec fn payload_view(&self) -> Seq<u8> {
        match self.payload {
            Some(p) => p@,
            None => Seq::empty(),
        }
    }

    /// The message body; a message with no payload gives an empty byte
    /// sequence, never an error.
    pub fn payload(&self) -> (r: Vec<u8>)
        ensures
            r@ == self.payload_view(),
    {
        match &self.payload {
            Some(p) => copy_bytes(p),
            None => Vec::new(),
        }
    }

    /// The optional message key bytes.
    pub open spec fn key_view(&self) -> Option<Seq<u8>> {
        match self.key {
            Some(k) => Some(k@),
            None => None,
        }
    }

    /// The optional message key, unmodified.
    pub fn key(&self) -> (r: Option<&Vec<u8>>)
        ensures
            match r {
                Some(k) => self.key_view() == Some(k@),
                None => self.key_view() is None,
            },
    {
        self.key.as_ref()
    }

    /// What an acknowledgement that commits must do: on a live resource it
    /// succeeds and moves the committed offset past the message; on an
    /// invalidated resource it fails and leaves the state unchanged.
    pub open spec fn commits_past(
        &self,
        pre: ConsumerState,
        post: ConsumerState,
        r: Result<(), BusError>,
    ) -> bool {
        &&& pre.valid ==> r is Ok && post == commit_effect(pre, self.offset)
        &&& !pre.valid ==> r == Err::<(), BusError>(BusError::ResourceInvalid) && post == pre
    }

    /// Ask the resource behind the handle to commit past this message. On
    /// a live resource the committed offset moves past the message; an
    /// invalidated resource refuses and is left unchanged.
    pub fn commit(&self, consumer: &mut ConsumerState) -> (r: Result<(), BusError>)
        requires
            self.wf(),
        ensures
            self.commits_past(*old(consumer), *final(consumer), r),
    {
        if consumer.valid {
            consumer.committed = self.offset + 1;
            Ok(())
        } else {
            Err(BusError::ResourceInvalid)
        }
    }

    /// Successful processing: commits past this message, exactly as
    /// `commit` does.
    pub fn ack(&self, consumer: &mut ConsumerState) -> (r: Result<(), BusError>)
        requires
            self.wf(),
        ensures
            self.commits_past(*old(consumer), *final(consumer), r),
    {
        self.commit(consumer)
    }

    /// Unsuccessful processing. Deliberately a no-op: redelivery rests
    /// solely on the withheld commit, so this always succeeds and changes
    /// nothing about the resource.
    pub fn nack(&self, consumer: &mut ConsumerState) -> (r: Result<(), BusError>)
        ensures
            r is Ok,
            *final(consumer) == *old(consumer),
    {
        Ok(())
    }

    /// Permanent rejection. The backend has no separate dead-letter
    /// primitive, so this commits past the message with exactly the effect
    /// of `ack`.
    pub fn reject(&self, consumer: &mut ConsumerState) -> (r: Result<(), BusError>)
        requires
            self.wf(),
        ensures
            self.commits_past(*old(consumer), *final(consumer), r),
    {
        self.commit(consumer)
    }

    /// The key as text for the receive span: decoded when the key is
    /// present and valid text, empty otherwise.
    pub open spec fn key_text_view(&self) -> Seq<char> {
        match self.key_view() {
            Some(k) => match utf8_decode(k) {
                Some(t) => t,
                None => Seq::empty(),
            },
            None => Seq::empty(),
        }
    }

    /// The attribute set of the receive span, from message fields alone.
    pub fn make_span(&self) -> (r: ConsumerSpan)
        ensures
            r.kind == SpanKind::Consumer,
            r.name@ == self.topic@ + " receive"@,
            r.system@ == "kafka"@,
            r.operation@ == "receive"@,
            r.payload_size == self.payload_view().len(),
            r.partition == self.partition,
            r.key_text@ == self.key_text_view(),
            r.offset == self.offset,
    {
        let mut name = self.topic.clone();
        name.push_str(" receive");
        let payload_size = match &self.payload {
            Some(p) => p.len(),
            None => 0,
        };
        let key_text = match &self.key {
            Some(k) => match utf8_to_text(k.as_slice()) {
                Some(t) => t,
                None => String::new(),
            },
            None => String::new(),
        };
        ConsumerSpan {
            name,
            kind: SpanKind::Consumer,
            system: "kafka".to_owned(),
            operation: "receive".to_owned(),
            payload_size,
            partition: self.partition,
            key_text,
            offset: self.offset,
        }
    }
}

/// What the underlying resource reported on one poll.
pub enum PollEvent {
    /// The next message, as the resource delivered it.
    Delivered(RdKafkaOwnedMessage),
    /// A failure that means the transport is lost.
    TransportFailed,
    /// The resource has no further messages.
    Exhausted,
}

/// The poll discipline of the stream wrapper: a single-pass, never
/// restartable sequence of incoming messages. A live stream yields exactly
/// what the resource just produced, in delivery order and with nothing
/// reordered or invented; exhaustion or transport loss makes the stream
/// terminal, and a terminal stream yields nothing ever again.
pub struct RdKafkaMessageStream {
    pub terminal: bool,
}

impl RdKafkaMessageStream {
    /// A freshly attached stream: not yet terminal.
    pub fn new() -> (r: Self)
        ensures
            !r.terminal,
    {
        RdKafkaMessageStream { terminal: false }
    }

    /// Account one poll of the underlying resource and say what the
    /// stream yields for it.
    pub fn poll(&mut self, event: PollEvent) -> (r: Option<
        Result<RdKafkaOwnedMessage, BusError>,
    >)
        ensures
            old(self).terminal ==> final(self).terminal && r is None,
            !old(self).terminal ==> match event {
                PollEvent::Delivered(m) => !final(self).terminal && r == Some(
                    Ok::<RdKafkaOwnedMessage, BusError>(m),
                ),
                PollEvent::TransportFailed => final(self).terminal && r == Some(
                    Err::<RdKafkaOwnedMessage, BusError>(BusError::Transport),
                ),
                PollEvent::Exhausted => final(self).terminal && r is None,
            },
    {
        if self.terminal {
            return None;
        }
        match event {
            PollEvent::Delivered(m) => Some(Ok(m)),
            PollEvent::TransportFailed => {
                self.terminal = true;
                Some(Err(BusError::Transport))
            },
            PollEvent::Exhausted => {
                self.terminal = true;
                None
            },
        }
    }
}

} // verus!
