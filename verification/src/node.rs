//! The dispatch core.
//!
//! For every inbound message the core decides what happens: the `init`
//! handshake is answered directly (adopting the node's identity, or reporting
//! a malformed request when `node_id` is missing); a message whose type has a
//! registered handler is handed to that handler; any other type is answered
//! with a `not-supported` error addressed back to the sender and correlated
//! by the original message id.

use vstd::prelude::*;
use crate::error::{Error, CODE_MALFORMED_REQUEST, CODE_NOT_SUPPORTED};
use crate::protocol::{error_body, Body, Message};
use crate::text::str_eq;

verus! {

/// An outbound unit on its way to the reply sequencer, which assigns the
/// message id and stamps the node's identity.
#[derive(Debug, PartialEq, Eq)]
pub enum SendMessage {
    /// Send `body` to `dest`, correlated to `in_reply_to` when replying.
    Send { dest: String, in_reply_to: Option<u64>, body: Body },
    /// Adopt `node_id` as this node's identity and acknowledge with
    /// `init_ok`.  Produced only by `init` handling.
    SetNodeId { dest: String, in_reply_to: Option<u64>, node_id: String },
}

/// The dispatch core's decision for one inbound message.
#[derive(Debug, PartialEq, Eq)]
pub enum Dispatch {
    /// Answer directly with this unit: `init` handling or a protocol error.
    Reply(SendMessage),
    /// Run the registered handler for the message's type.
    Run,
}

/// The dispatch core: the set of message types this node handles.
pub struct Node {
    pub handlers: Vec<String>,
}

impl Node {
    /// A node with no handlers registered.
    pub fn new() -> (n: Node)
        ensures
            n.handlers@.len() == 0,
    {
        Node { handlers: Vec::new() }
    }

    /// Registers a handler for messages of type `msg_type`.
    pub fn add_handler(self, msg_type: String) -> (n: Node)
        ensures
            n.handlers@ == self.handlers@.push(msg_type),
    {
        let mut handlers = self.handlers;
        handlers.push(msg_type);
        Node { handlers }
    }

    /// Whether a handler for `msg_type` is registered.
    pub open spec fn spec_registered(self, msg_type: Seq<char>) -> bool {
        exists|i: int|
            0 <= i < self.handlers@.len() && (#[trigger] self.handlers@[i])@ == msg_type
    }

    /// Looks `msg_type` up in the registry.
    fn registered(&self, msg_type: &str) -> (r: bool)
        ensures
            r == self.spec_registered(msg_type@),
    {
        let mut i: usize = 0;
        while i < self.handlers.len()
            invariant
                i <= self.handlers@.len(),
                forall|j: int| 0 <= j < i ==> (#[trigger] self.handlers@[j])@ != msg_type@,
            decreases self.handlers@.len() - i,
        {
            if str_eq(self.handlers[i].as_str(), msg_type) {
                return true;
            }
            i = i + 1;
        }
        false
    }

    /// Decides what happens to one inbound message.  `init` carrying a
    /// `node_id` adopts that identity; `init` without one is answered with a
    /// `malformed-request` error; a registered type runs its handler; any
    /// other type is answered with a `not-supported` error naming the type.
    /// Every direct answer goes back to the sender, correlated by the
    /// message's id.
    pub fn dispatch(&self, m: &Message) -> (d: Dispatch)
        ensures
            m.spec_body().msg_type@ == "init"@ && m.spec_body().node_id is Some ==> (d
                matches Dispatch::Reply(u) && u matches SendMessage::SetNodeId {
                dest,
                in_reply_to,
                node_id,
            } && dest@ == m.spec_src() && in_reply_to == m.spec_body().msg_id
                && m.spec_body().node_id == Some(node_id)),
            m.spec_body().msg_type@ == "init"@ && m.spec_body().node_id is None ==> (d matches
                Dispatch::Reply(u) && u matches SendMessage::Send { dest, in_reply_to, body }
                && dest@ == m.spec_src() && in_reply_to == m.spec_body().msg_id && error_body(
                body,
                CODE_MALFORMED_REQUEST,
                "init message with missing node_id"@,
            )),
            m.spec_body().msg_type@ != "init"@ && self.spec_registered(m.spec_body().msg_type@)
                ==> d is Run,
            m.spec_body().msg_type@ != "init"@ && !self.spec_registered(m.spec_body().msg_type@)
                ==> (d matches Dispatch::Reply(u) && u matches SendMessage::Send {
                dest,
                in_reply_to,
                body,
            } && dest@ == m.spec_src() && in_reply_to == m.spec_body().msg_id && error_body(
                body,
                CODE_NOT_SUPPORTED,
                "message type not supported: "@ + m.spec_body().msg_type@,
            )),
    {
        if str_eq(m.msg_type(), "init") {
            match &m.body().node_id {
                Some(id) => Dispatch::Reply(
                    SendMessage::SetNodeId {
                        dest: m.src().to_owned(),
                        in_reply_to: m.msg_id(),
                        node_id: id.clone(),
                    },
                ),
                None => {
                    let e = Error::malformed_request("init message with missing node_id");
                    Dispatch::Reply(
                        SendMessage::Send {
                            dest: m.src().to_owned(),
                            in_reply_to: m.msg_id(),
                            body: e.to_body(),
                        },
                    )
                },
            }
        } else if self.registered(m.msg_type()) {
            Dispatch::Run
        } else {
            let e = Error::not_supported(m.msg_type());
            Dispatch::Reply(
                SendMessage::Send {
                    dest: m.src().to_owned(),
                    in_reply_to: m.msg_id(),
                    body: e.to_body(),
                },
            )
        }
    }
}

} // verus!
