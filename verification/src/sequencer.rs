//! The reply sequencer.
//!
//! The sequencer is the single owner of the node's identity and of the
//! outbound message counter.  Every outbound unit passes through it exactly
//! once: the unit gets the next message id, the correlation id it asked for,
//! and the node's identity as its source.  Ids start at 1, grow by one per
//! outbound message, and are never reused or reset, so the ids of a run are
//! exactly `1..=N` in the order the sequencer receives the units — which is
//! the order handlers finish, not the order their messages arrived.

use vstd::prelude::*;
use crate::node::SendMessage;
use crate::protocol::Body;

verus! {

/// A fully formed outbound message, ready to be written to the transport.
/// `src` is still `None` for a message sequenced before the `init`
/// handshake completed.
#[derive(Debug, PartialEq, Eq)]
pub struct Outbound {
    pub src: Option<String>,
    pub dest: String,
    pub body: Body,
}

/// The reply sequencer's state: the node's identity once learned, and the
/// last message id handed out.
pub struct Sequencer {
    pub node_id: Option<String>,
    pub last_msg_id: u64,
}

impl Sequencer {
    /// A sequencer at node start: no identity, no id handed out yet.
    pub fn new() -> (s: Sequencer)
        ensures
            s.node_id is None,
            s.last_msg_id == 0,
    {
        Sequencer { node_id: None, last_msg_id: 0 }
    }

    /// Sequences one outbound unit: assigns the next message id, fills in
    /// the correlation id, and stamps the node's identity as the source.  A
    /// `SetNodeId` unit first adopts the new identity and is answered with an
    /// `init_ok` body.
    pub fn sequence(&mut self, unit: SendMessage) -> (out: Outbound)
        requires
            old(self).last_msg_id < u64::MAX,
        ensures
            final(self).last_msg_id == old(self).last_msg_id + 1,
            out.body.msg_id == Some(final(self).last_msg_id),
            out.src == final(self).node_id,
            unit matches SendMessage::SetNodeId { dest, in_reply_to, node_id } ==> {
                &&& final(self).node_id == Some(node_id)
                &&& out.dest == dest
                &&& out.body.in_reply_to == in_reply_to
                &&& out.body.msg_type@ == "init_ok"@
                &&& out.body.node_id is None
                &&& out.body.message is None
                &&& out.body.messages is None
                &&& out.body.neighbors is None
                &&& out.body.code is None
                &&& out.body.text is None
            },
            unit matches SendMessage::Send { dest, in_reply_to, body } ==> {
                &&& final(self).node_id == old(self).node_id
                &&& out.dest == dest
                &&& out.body.in_reply_to == in_reply_to
                &&& out.body.msg_type == body.msg_type
                &&& out.body.node_id == body.node_id
                &&& out.body.message == body.message
                &&& out.body.messages == body.messages
                &&& out.body.neighbors == body.neighbors
                &&& out.body.code == body.code
                &&& out.body.text == body.text
            },
    {
        self.last_msg_id = self.last_msg_id + 1;
        match unit {
            SendMessage::SetNodeId { dest, in_reply_to, node_id } => {
                self.node_id = Some(node_id);
                let mut body = Body::new("init_ok".to_owned());
                body.msg_id = Some(self.last_msg_id);
                body.in_reply_to = in_reply_to;
                Outbound { src: clone_identity(&self.node_id), dest, body }
            },
            SendMessage::Send { dest, in_reply_to, mut body } => {
                body.msg_id = Some(self.last_msg_id);
                body.in_reply_to = in_reply_to;
                Outbound { src: clone_identity(&self.node_id), dest, body }
            },
        }
    }

    /// Id monotonicity: sequencing N units in a row assigns them the ids
    /// `last+1 ..= last+N` in order — from a fresh sequencer, exactly
    /// `1..=N` — with no repeats, whatever the units are.
    pub fn sequence_all(&mut self, units: Vec<SendMessage>) -> (outs: Vec<Outbound>)
        requires
            old(self).last_msg_id + units@.len() <= u64::MAX,
        ensures
            final(self).last_msg_id == old(self).last_msg_id + units@.len(),
            outs@.len() == units@.len(),
            forall|k: int|
                0 <= k < outs@.len() ==> (#[trigger] outs@[k]).body.msg_id == Some(
                    (old(self).last_msg_id + 1 + k) as u64,
                ),
            forall|k1: int, k2: int|
                0 <= k1 < k2 < outs@.len() ==> (#[trigger] outs@[k1]).body.msg_id != (
                #[trigger] outs@[k2]).body.msg_id,
    {
        let ghost all = units@;
        let ghost n0 = old(self).last_msg_id;
        let mut units = units;
        let mut outs: Vec<Outbound> = Vec::new();
        while units.len() > 0
            invariant
                outs@.len() + units@.len() == all.len(),
                self.last_msg_id == n0 + outs@.len(),
                forall|k: int|
                    0 <= k < outs@.len() ==> (#[trigger] outs@[k]).body.msg_id == Some(
                        (n0 + 1 + k) as u64,
                    ),
            decreases units@.len(),
        {
            let unit = units.remove(0);
            let out = self.sequence(unit);
            outs.push(out);
        }
        outs
    }
}

/// Copies the sequencer's identity for stamping onto an outbound message.
fn clone_identity(o: &Option<String>) -> (r: Option<String>)
    ensures
        r == *o,
{
    match o {
        Some(s) => Some(s.clone()),
        None => None,
    }
}

} // verus!
