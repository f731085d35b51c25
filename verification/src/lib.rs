//! A verified node runtime for a message-passing distributed-systems testbed,
//! together with a gossip-based broadcast service built on top of it.
//!
//! The runtime turns validated wire messages into dispatch decisions, assigns
//! monotonically increasing outgoing message ids, and correlates replies with
//! the requests that triggered them.  The broadcast service tracks the set of
//! values seen by this node and, per neighbor, the values that neighbor has not
//! yet acknowledged, retrying replication until every neighbor converges.
//!
//! All protocol logic lives here and is verified; reading from and writing to
//! the transport, and the JSON encoding itself, are left to the embedding
//! program.

#![verifier::loop_isolation(false)]

pub mod command;
pub mod error;
pub mod handler;
pub mod handlers;
pub mod node;
pub mod protocol;
pub mod sequencer;
pub mod state;
pub mod text;

pub use error::Error;
pub use protocol::{Body, Message, MessageId, MessageValidationError, NodeIdRef, RawBody, RawMessage};
