//! Typed commands of the broadcast service.
//!
//! [`Command::from_message`] turns a validated message into the command it
//! asks for, rejecting a `topology` without its neighbor list and a
//! `broadcast` without its value as malformed, and any unknown type as
//! unsupported.  A `replicate` or `replicate_ok` without values stands for
//! the empty list: acknowledging or replicating nothing is harmless.

use vstd::prelude::*;
use crate::error::{Error, CODE_MALFORMED_REQUEST, CODE_NOT_SUPPORTED};
use crate::protocol::Message;
use crate::text::{clone_strings, clone_values, str_eq};

verus! {

/// One request to the broadcast service.
#[derive(Debug, PartialEq, Eq)]
pub enum Command {
    /// Adopt this node's neighbor list.
    Topology(Vec<String>),
    /// Accept a broadcast value from a client.
    Broadcast(u64),
    /// Report every value seen so far.
    Read,
    /// Accept values replicated by a peer.
    Replicate(Vec<u64>),
    /// A peer acknowledged these values; the first field names the peer.
    ReplicateOk(String, Vec<u64>),
}

impl Command {
    /// Parses the command a message asks for, by its type.
    pub fn from_message(m: &Message) -> (r: Result<Command, Error>)
        ensures
            m.spec_body().msg_type@ == "topology"@ ==> match m.spec_body().neighbors {
                Some(ids) => r matches Ok(c) && c matches Command::Topology(ns) && ns@ == ids@,
                None => r matches Err(e) && e.text matches Some(t) && e.code
                    == CODE_MALFORMED_REQUEST && t@ == "topology message missing `topology` key"@,
            },
            m.spec_body().msg_type@ == "broadcast"@ ==> match m.spec_body().message {
                Some(v) => r == Ok::<Command, Error>(Command::Broadcast(v)),
                None => r matches Err(e) && e.text matches Some(t) && e.code
                    == CODE_MALFORMED_REQUEST && t@ == "broadcast message missing `message` key"@,
            },
            m.spec_body().msg_type@ == "read"@ ==> r == Ok::<Command, Error>(Command::Read),
            m.spec_body().msg_type@ == "replicate"@ ==> (r matches Ok(c) && c matches
                Command::Replicate(vs) && vs@ == match m.spec_body().messages {
                Some(ms) => ms@,
                None => Seq::empty(),
            }),
            m.spec_body().msg_type@ == "replicate_ok"@ ==> (r matches Ok(c) && c matches
                Command::ReplicateOk(id, vs) && id@ == m.spec_src() && vs@ == match m.spec_body()
                .messages {
                Some(ms) => ms@,
                None => Seq::empty(),
            }),
            !(m.spec_body().msg_type@ == "topology"@ || m.spec_body().msg_type@ == "broadcast"@
                || m.spec_body().msg_type@ == "read"@ || m.spec_body().msg_type@ == "replicate"@
                || m.spec_body().msg_type@ == "replicate_ok"@) ==> {
                &&& (r matches Err(e) && e.text matches Some(t) && e.code == CODE_NOT_SUPPORTED
                    && t@ == "message type not supported: "@ + m.spec_body().msg_type@)
            },
    {
        proof {
            reveal_strlit("topology");
            reveal_strlit("broadcast");
            reveal_strlit("read");
            reveal_strlit("replicate");
            reveal_strlit("replicate_ok");
            assert("topology"@.len() == 8);
            assert("read"@.len() == 4);
            assert("replicate_ok"@.len() == 12);
            assert("broadcast"@.len() == 9 && "replicate"@.len() == 9);
            assert("broadcast"@[0] == 'b' && "replicate"@[0] == 'r');
        }
        let t = m.msg_type();
        if str_eq(t, "topology") {
            match &m.body().neighbors {
                Some(ids) => Ok(Command::Topology(clone_strings(ids))),
                None => Err(Error::malformed_request("topology message missing `topology` key")),
            }
        } else if str_eq(t, "broadcast") {
            match m.body().message {
                Some(v) => Ok(Command::Broadcast(v)),
                None => Err(Error::malformed_request("broadcast message missing `message` key")),
            }
        } else if str_eq(t, "read") {
            Ok(Command::Read)
        } else if str_eq(t, "replicate") {
            Ok(Command::Replicate(messages_of(m)))
        } else if str_eq(t, "replicate_ok") {
            Ok(Command::ReplicateOk(m.src().to_owned(), messages_of(m)))
        } else {
            Err(Error::not_supported(t))
        }
    }
}

/// The values a gossip message carries, the empty list when it carries none.
fn messages_of(m: &Message) -> (r: Vec<u64>)
    ensures
        r@ == match m.spec_body().messages {
            Some(ms) => ms@,
            None => Seq::empty(),
        },
{
    match &m.body().messages {
        Some(ms) => clone_values(ms),
        None => Vec::new(),
    }
}

} // verus!
