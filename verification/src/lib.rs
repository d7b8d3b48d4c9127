//! Core of a message-bus adapter: the header mapping carried by every
//! message, the read and acknowledgement rules for incoming messages, the
//! header-merge and destination policy of the producer, the attribute sets
//! of the observability spans, and the teardown-order model that keeps a
//! borrowed component from outliving the shared handle it was derived from.
//!
//! Network transport itself (connecting, polling, committing, sending over
//! the wire) is the backend client's business and stays outside this crate.

pub mod consumer;
pub mod errors;
pub mod lifecycle;
pub mod message;
pub mod producer;
pub mod span;
pub mod text;
