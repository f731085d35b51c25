//! The broadcast service's message handlers.
//!
//! Each handler consumes one validated message together with the shared
//! gossip state and yields its [`Effects`]: at most one reply body, to be
//! correlated with the incoming message, and any number of `replicate`
//! messages addressed to neighbors.  The embedding program performs the
//! actual sending.
//!
//! A gossip message missing its expected field is a no-op rather than a
//! protocol error: dropping it is always safe, because the sender retries by
//! re-sending its full pending set the next time anything changes.

use vstd::prelude::*;
use crate::protocol::{plain_body, values_body, Body, Message};
use crate::state::{insert_missing, remove_values, replication_plan, Neighbor, State};
use crate::text::clone_values;

verus! {

/// What one handled message does beyond updating the state: at most one
/// reply to the sender, and any number of messages to other nodes.
pub struct Effects {
    pub reply: Option<Body>,
    pub sends: Vec<(String, Body)>,
}

/// `sends` realizes `plan`: one `replicate` message per plan entry, addressed
/// to that entry's neighbor and carrying that entry's values.
pub open spec fn matches_plan(sends: Seq<(String, Body)>, plan: Seq<(Seq<char>, Seq<u64>)>) -> bool {
    &&& sends.len() == plan.len()
    &&& forall|k: int|
        0 <= k < plan.len() ==> (#[trigger] sends[k]).0@ == plan[k].0 && values_body(
            sends[k].1,
            "replicate"@,
            plan[k].1,
        )
}

/// The topology step applied to the state: every listed id becomes a
/// neighbor, a new one with an empty pending set, a known one untouched.
pub open spec fn neighbors_added(pre: State, post: State, ids: Seq<String>) -> bool {
    &&& post.seen == pre.seen
    &&& pre.neighbors@.len() <= post.neighbors@.len()
    &&& (forall|i: int|
        0 <= i < pre.neighbors@.len() ==> post.neighbors@[i] == pre.neighbors@[i])
    &&& (forall|k: int| 0 <= k < ids.len() ==> post.has_neighbor((#[trigger] ids[k])@))
    &&& (forall|i: int|
        pre.neighbors@.len() <= i < post.neighbors@.len() ==> (
        #[trigger] post.neighbors@[i]).pending@.len() == 0 && !pre.has_neighbor(
            post.neighbors@[i].node_id@,
        ))
}

/// The broadcast step applied to the state: a new value enters the seen set
/// and every pending set; a known value changes nothing.
pub open spec fn broadcast_applied(pre: State, post: State, value: u64) -> bool {
    if pre.seen@.contains(value) {
        post == pre
    } else {
        &&& post.seen@ == pre.seen@.push(value)
        &&& post.neighbors@.len() == pre.neighbors@.len()
        &&& forall|i: int|
            0 <= i < pre.neighbors@.len() ==> (#[trigger] post.neighbors@[i]).node_id
                == pre.neighbors@[i].node_id && post.neighbors@[i].pending@
                == pre.neighbors@[i].pending@.push(value)
    }
}

/// The replicate step applied to the state: every value joins the seen set
/// if new, and every pending set where not already pending.
pub open spec fn replicate_applied(pre: State, post: State, values: Seq<u64>) -> bool {
    &&& post.seen@ == insert_missing(pre.seen@, values)
    &&& post.neighbors@.len() == pre.neighbors@.len()
    &&& forall|i: int|
        0 <= i < pre.neighbors@.len() ==> (#[trigger] post.neighbors@[i]).node_id
            == pre.neighbors@[i].node_id && post.neighbors@[i].pending@ == insert_missing(
            pre.neighbors@[i].pending@,
            values,
        )
}

/// The acknowledgment step applied to the state: the acknowledged values
/// leave the acknowledging neighbor's pending set and nothing else changes.
pub open spec fn ack_applied(pre: State, post: State, node_id: Seq<char>, values: Seq<u64>) -> bool {
    &&& post.seen == pre.seen
    &&& post.neighbors@.len() == pre.neighbors@.len()
    &&& forall|i: int|
        0 <= i < pre.neighbors@.len() && pre.neighbors@[i].node_id@ == node_id ==> (
        #[trigger] post.neighbors@[i]).node_id == pre.neighbors@[i].node_id
            && post.neighbors@[i].pending@ == remove_values(pre.neighbors@[i].pending@, values)
    &&& forall|i: int|
        0 <= i < pre.neighbors@.len() && pre.neighbors@[i].node_id@ != node_id ==> (
        #[trigger] post.neighbors@[i]) == pre.neighbors@[i]
}

/// Gossip idempotence: broadcasting the same value a second time leaves the
/// state exactly as it was after the first time, so a `read` after either
/// reports the same values.
pub proof fn lemma_broadcast_idempotent(s0: State, s1: State, s2: State, v: u64)
    requires
        broadcast_applied(s0, s1, v),
        broadcast_applied(s1, s2, v),
    ensures
        s2 == s1,
{
    if !s0.seen@.contains(v) {
        assert(s1.seen@[s0.seen@.len() as int] == v);
    }
}

/// Gossip idempotence: replicating the same values again changes neither the
/// seen set nor any neighbor's pending set, so a `read` after either
/// replication reports the same values.
pub proof fn lemma_replicate_idempotent(s0: State, s1: State, s2: State, values: Seq<u64>)
    requires
        replicate_applied(s0, s1, values),
        replicate_applied(s1, s2, values),
    ensures
        s2.seen@ == s1.seen@,
        s2.neighbors@.len() == s1.neighbors@.len(),
        forall|i: int|
            0 <= i < s1.neighbors@.len() ==> (#[trigger] s2.neighbors@[i]).node_id
                == s1.neighbors@[i].node_id && s2.neighbors@[i].pending@
                == s1.neighbors@[i].pending@,
{
    crate::state::lemma_insert_missing_idempotent(s0.seen@, values);
    assert forall|i: int|
        0 <= i < s1.neighbors@.len() implies (#[trigger] s2.neighbors@[i]).node_id
        == s1.neighbors@[i].node_id && s2.neighbors@[i].pending@
        == s1.neighbors@[i].pending@ by {
        crate::state::lemma_insert_missing_idempotent(s0.neighbors@[i].pending@, values);
    }
}

/// Fan-out invariant: after a broadcast of a value this node had not seen,
/// every neighbor's pending set holds the value, and the replication plan
/// names every neighbor, each entry carrying at least that value.
pub proof fn lemma_fan_out(s0: State, s1: State, v: u64)
    requires
        s0.wf(),
        !s0.seen@.contains(v),
        broadcast_applied(s0, s1, v),
    ensures
        forall|i: int|
            0 <= i < s1.neighbors@.len() ==> (#[trigger] s1.neighbors@[i]).pending@.contains(v),
        replication_plan(s0.neighbors@, seq![v]).len() == s0.neighbors@.len(),
        forall|k: int|
            0 <= k < s0.neighbors@.len() ==> (#[trigger] replication_plan(
                s0.neighbors@,
                seq![v],
            )[k]).0 == s0.neighbors@[k].node_id@ && replication_plan(
                s0.neighbors@,
                seq![v],
            )[k].1.contains(v),
{
    assert forall|i: int|
        0 <= i < s1.neighbors@.len() implies (
    #[trigger] s1.neighbors@[i]).pending@.contains(v) by {
        assert(s1.neighbors@[i].pending@[s0.neighbors@[i].pending@.len() as int] == v);
    }
    assert forall|i: int|
        0 <= i < s0.neighbors@.len() implies !(#[trigger] s0.neighbors@[i]).pending@.contains(
        v,
    ) by {
        if s0.neighbors@[i].pending@.contains(v) {
            let k = choose|k: int|
                0 <= k < s0.neighbors@[i].pending@.len() && s0.neighbors@[i].pending@[k] == v;
            assert(s0.seen@.contains(s0.neighbors@[i].pending@[k]));
        }
    }
    crate::state::lemma_plan_fresh_value(s0.neighbors@, v);
    assert forall|k: int|
        0 <= k < s0.neighbors@.len() implies (#[trigger] replication_plan(
        s0.neighbors@,
        seq![v],
    )[k]).0 == s0.neighbors@[k].node_id@ && replication_plan(
        s0.neighbors@,
        seq![v],
    )[k].1.contains(v) by {
        let entry = replication_plan(s0.neighbors@, seq![v])[k];
        assert(entry.1 == s0.neighbors@[k].pending@.push(v));
        assert(entry.1[s0.neighbors@[k].pending@.len() as int] == v);
    }
}

/// Acknowledgment invariant: after one neighbor acknowledges some values,
/// those values are gone from that neighbor's pending set only; the seen set
/// and every other neighbor are untouched, and values the neighbor did not
/// acknowledge stay pending for it.
pub proof fn lemma_ack(s0: State, s1: State, id: Seq<char>, values: Seq<u64>, i: int, v: u64)
    requires
        ack_applied(s0, s1, id, values),
        0 <= i < s0.neighbors@.len(),
    ensures
        s1.seen == s0.seen,
        s0.neighbors@[i].node_id@ == id && values.contains(v)
            ==> !s1.neighbors@[i].pending@.contains(v),
        s0.neighbors@[i].node_id@ == id && s0.neighbors@[i].pending@.contains(v)
            && !values.contains(v) ==> s1.neighbors@[i].pending@.contains(v),
        s0.neighbors@[i].node_id@ != id ==> s1.neighbors@[i] == s0.neighbors@[i],
{
    crate::state::lemma_remove_values_contains(s0.neighbors@[i].pending@, values, v);
}

/// Turns a replication plan into one `replicate` message per entry.
pub(crate) fn replication_sends(plan: &Vec<Neighbor>) -> (sends: Vec<(String, Body)>)
    ensures
        sends@.len() == plan@.len(),
        forall|k: int|
            0 <= k < plan@.len() ==> (#[trigger] sends@[k]).0@ == plan@[k]@.0 && values_body(
                sends@[k].1,
                "replicate"@,
                plan@[k]@.1,
            ),
{
    let mut sends: Vec<(String, Body)> = Vec::new();
    let mut k: usize = 0;
    while k < plan.len()
        invariant
            k <= plan@.len(),
            sends@.len() == k,
            forall|k2: int|
                0 <= k2 < k ==> (#[trigger] sends@[k2]).0@ == plan@[k2]@.0 && values_body(
                    sends@[k2].1,
                    "replicate"@,
                    plan@[k2]@.1,
                ),
        decreases plan@.len() - k,
    {
        let body = Body {
            msg_type: "replicate".to_owned(),
            msg_id: None,
            in_reply_to: None,
            node_id: None,
            message: None,
            messages: Some(clone_values(&plan[k].pending)),
            neighbors: None,
            code: None,
            text: None,
        };
        sends.push((plan[k].node_id.clone(), body));
        k = k + 1;
    }
    sends
}

/// Handles `topology`: inserts this node's neighbor list, keeping the
/// pending set of every already-known neighbor, and replies `topology_ok`.
/// A message without a neighbor list changes nothing but is still
/// acknowledged.
pub fn handle_topology(state: &mut State, m: &Message) -> (e: Effects)
    requires
        old(state).wf(),
    ensures
        final(state).wf(),
        e.sends@.len() == 0,
        e.reply matches Some(b) && plain_body(b, "topology_ok"@),
        m.spec_body().neighbors is None ==> *final(state) == *old(state),
        m.spec_body().neighbors matches Some(ids) ==> neighbors_added(
            *old(state),
            *final(state),
            ids@,
        ),
{
    if let Some(ids) = &m.body().neighbors {
        state.add_neighbors(ids);
    }
    Effects { reply: Some(Body::new("topology_ok".to_owned())), sends: Vec::new() }
}

/// Handles `broadcast`: records the value and, when it is new, plans a
/// `replicate` to every neighbor carrying that neighbor's full pending set.
/// Replies `broadcast_ok` unconditionally; a message without a value changes
/// nothing.
pub fn handle_broadcast(state: &mut State, m: &Message) -> (e: Effects)
    requires
        old(state).wf(),
    ensures
        final(state).wf(),
        e.reply matches Some(b) && plain_body(b, "broadcast_ok"@),
        m.spec_body().message is None ==> *final(state) == *old(state) && e.sends@.len() == 0,
        m.spec_body().message matches Some(v) ==> {
            &&& broadcast_applied(*old(state), *final(state), v)
            &&& (old(state).seen@.contains(v) ==> e.sends@.len() == 0)
            &&& (!old(state).seen@.contains(v) ==> matches_plan(
                e.sends@,
                replication_plan(old(state).neighbors@, seq![v]),
            ))
        },
{
    let mut sends: Vec<(String, Body)> = Vec::new();
    if let Some(v) = m.body().message {
        let plan = state.add_seen(v);
        sends = replication_sends(&plan);
    }
    Effects { reply: Some(Body::new("broadcast_ok".to_owned())), sends }
}

/// Handles `read`: replies `read_ok` with a snapshot of every value seen.
pub fn handle_read(state: &State) -> (e: Effects)
    ensures
        e.sends@.len() == 0,
        e.reply matches Some(b) && values_body(b, "read_ok"@, state.seen@),
{
    let body = Body {
        msg_type: "read_ok".to_owned(),
        msg_id: None,
        in_reply_to: None,
        node_id: None,
        message: None,
        messages: Some(state.seen()),
        neighbors: None,
        code: None,
        text: None,
    };
    Effects { reply: Some(body), sends: Vec::new() }
}

/// Handles `replicate`: folds the carried values into the seen set and into
/// every pending set, plans a `replicate` to each neighbor whose pending set
/// changed, and replies `replicate_ok` echoing the received values as the
/// acknowledgment.  A message without values is a no-op with no reply.
pub fn handle_replicate(state: &mut State, m: &Message) -> (e: Effects)
    requires
        old(state).wf(),
    ensures
        final(state).wf(),
        m.spec_body().messages is None ==> *final(state) == *old(state) && e.reply is None
            && e.sends@.len() == 0,
        m.spec_body().messages matches Some(vs) ==> {
            &&& replicate_applied(*old(state), *final(state), vs@)
            &&& matches_plan(e.sends@, replication_plan(old(state).neighbors@, vs@))
            &&& e.reply matches Some(b) && values_body(b, "replicate_ok"@, vs@)
        },
{
    if let Some(vs) = &m.body().messages {
        let plan = state.add_seen_all(vs);
        let sends = replication_sends(&plan);
        let reply = Body {
            msg_type: "replicate_ok".to_owned(),
            msg_id: None,
            in_reply_to: None,
            node_id: None,
            message: None,
            messages: Some(clone_values(vs)),
            neighbors: None,
            code: None,
            text: None,
        };
        Effects { reply: Some(reply), sends }
    } else {
        Effects { reply: None, sends: Vec::new() }
    }
}

/// Handles `replicate_ok`: removes the acknowledged values from the sending
/// neighbor's pending set only.  Never replies.
pub fn handle_replicate_ok(state: &mut State, m: &Message) -> (e: Effects)
    requires
        old(state).wf(),
    ensures
        final(state).wf(),
        e.reply is None,
        e.sends@.len() == 0,
        m.spec_body().messages is None ==> *final(state) == *old(state),
        m.spec_body().messages matches Some(vs) ==> ack_applied(
            *old(state),
            *final(state),
            m.spec_src(),
            vs@,
        ),
{
    if let Some(vs) = &m.body().messages {
        state.ack(m.src(), vs);
    }
    Effects { reply: None, sends: Vec::new() }
}

} // verus!
