//! The broadcast service as one handler over typed commands.
//!
//! [`BroadcastHandler`] owns the gossip state and applies one [`Command`] at
//! a time, yielding the same [`Effects`] the per-message handlers produce.
//! It suits an embedding that parses messages into commands first and runs
//! the service as a single sequential actor.

use vstd::prelude::*;
use crate::command::Command;
use crate::handlers::{
    ack_applied, broadcast_applied, matches_plan, neighbors_added, replicate_applied,
    replication_sends, Effects,
};
use crate::protocol::{plain_body, values_body, Body};
use crate::state::{replication_plan, State};
use crate::text::clone_values;

verus! {

/// The broadcast service bound to its gossip state.
pub struct BroadcastHandler {
    pub state: State,
}

impl BroadcastHandler {
    /// A handler for a node that has seen nothing and knows no neighbors.
    pub fn new() -> (h: BroadcastHandler)
        ensures
            h.state.seen@.len() == 0,
            h.state.neighbors@.len() == 0,
            h.state.wf(),
    {
        BroadcastHandler { state: State { seen: Vec::new(), neighbors: Vec::new() } }
    }

    /// Applies one command to the gossip state and yields its effects, as
    /// the per-message handlers would.
    pub fn handle(&mut self, command: Command) -> (e: Effects)
        requires
            old(self).state.wf(),
        ensures
            final(self).state.wf(),
            command matches Command::Topology(ids) ==> {
                &&& neighbors_added(old(self).state, final(self).state, ids@)
                &&& e.sends@.len() == 0
                &&& (e.reply matches Some(b) && plain_body(b, "topology_ok"@))
            },
            command matches Command::Broadcast(v) ==> {
                &&& broadcast_applied(old(self).state, final(self).state, v)
                &&& (old(self).state.seen@.contains(v) ==> e.sends@.len() == 0)
                &&& (!old(self).state.seen@.contains(v) ==> matches_plan(
                    e.sends@,
                    replication_plan(old(self).state.neighbors@, seq![v]),
                ))
                &&& (e.reply matches Some(b) && plain_body(b, "broadcast_ok"@))
            },
            command matches Command::Read ==> {
                &&& *final(self) == *old(self)
                &&& e.sends@.len() == 0
                &&& (e.reply matches Some(b) && values_body(b, "read_ok"@, old(self).state.seen@))
            },
            command matches Command::Replicate(vs) ==> {
                &&& replicate_applied(old(self).state, final(self).state, vs@)
                &&& matches_plan(e.sends@, replication_plan(old(self).state.neighbors@, vs@))
                &&& (e.reply matches Some(b) && values_body(b, "replicate_ok"@, vs@))
            },
            command matches Command::ReplicateOk(id, vs) ==> {
                &&& ack_applied(old(self).state, final(self).state, id@, vs@)
                &&& e.sends@.len() == 0
                &&& e.reply is None
            },
    {
        match command {
            Command::Topology(ids) => {
                self.state.add_neighbors(&ids);
                Effects { reply: Some(Body::new("topology_ok".to_owned())), sends: Vec::new() }
            },
            Command::Broadcast(v) => {
                let plan = self.state.add_seen(v);
                let sends = replication_sends(&plan);
                Effects { reply: Some(Body::new("broadcast_ok".to_owned())), sends }
            },
            Command::Read => {
                let body = Body {
                    msg_type: "read_ok".to_owned(),
                    msg_id: None,
                    in_reply_to: None,
                    node_id: None,
                    message: None,
                    messages: Some(self.state.seen()),
                    neighbors: None,
                    code: None,
                    text: None,
                };
                Effects { reply: Some(body), sends: Vec::new() }
            },
            Command::Replicate(vs) => {
                let plan = self.state.add_seen_all(&vs);
                let sends = replication_sends(&plan);
                let reply = Body {
                    msg_type: "replicate_ok".to_owned(),
                    msg_id: None,
                    in_reply_to: None,
                    node_id: None,
                    message: None,
                    messages: Some(vs),
                    neighbors: None,
                    code: None,
                    text: None,
                };
                Effects { reply: Some(reply), sends }
            },
            Command::ReplicateOk(id, vs) => {
                self.state.ack(id.as_str(), &vs);
                Effects { reply: None, sends: Vec::new() }
            },
        }
    }
}

} // verus!
