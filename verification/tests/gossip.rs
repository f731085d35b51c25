use maelstrom::handlers::{
    handle_broadcast, handle_read, handle_replicate, handle_replicate_ok, handle_topology,
};
use maelstrom::protocol::{Message, RawBody, RawMessage};
use maelstrom::state::State;

fn empty_raw_body() -> RawBody {
    RawBody {
        msg_type: None,
        msg_id: None,
        in_reply_to: None,
        node_id: None,
        message: None,
        messages: None,
        neighbors: None,
    }
}

fn msg(src: &str, body: RawBody) -> Message {
    Message::from_raw(RawMessage {
        src: Some(src.to_string()),
        dest: Some("n1".to_string()),
        body: Some(body),
    })
    .unwrap()
}

fn node_with_neighbors(ids: &[&str]) -> State {
    let mut state = State::default();
    let body = RawBody {
        msg_type: Some("topology".to_string()),
        neighbors: Some(ids.iter().map(|s| s.to_string()).collect()),
        ..empty_raw_body()
    };
    let e = handle_topology(&mut state, &msg("c1", body));
    assert_eq!(e.reply.unwrap().msg_type, "topology_ok");
    state
}

fn broadcast(state: &mut State, value: u64) -> maelstrom::handlers::Effects {
    let body = RawBody {
        msg_type: Some("broadcast".to_string()),
        message: Some(value),
        ..empty_raw_body()
    };
    handle_broadcast(state, &msg("c1", body))
}

fn pending_of<'a>(state: &'a State, id: &str) -> &'a Vec<u64> {
    &state
        .neighbors
        .iter()
        .find(|n| n.node_id == id)
        .unwrap()
        .pending
}

#[test]
fn broadcast_fans_out_to_every_neighbor() {
    let mut state = node_with_neighbors(&["n2", "n3"]);
    let e = broadcast(&mut state, 42);

    assert_eq!(e.reply.unwrap().msg_type, "broadcast_ok");
    assert_eq!(e.sends.len(), 2);
    for (dest, body) in &e.sends {
        assert!(dest == "n2" || dest == "n3");
        assert_eq!(body.msg_type, "replicate");
        assert_eq!(body.messages, Some(vec![42]));
    }
    assert_eq!(pending_of(&state, "n2"), &vec![42]);
    assert_eq!(pending_of(&state, "n3"), &vec![42]);
    assert_eq!(state.seen, vec![42]);
}

#[test]
fn broadcast_is_idempotent() {
    let mut state = node_with_neighbors(&["n2"]);
    let first = broadcast(&mut state, 42);
    assert_eq!(first.sends.len(), 1);
    let before = state.seen.clone();

    let second = broadcast(&mut state, 42);
    assert_eq!(second.reply.unwrap().msg_type, "broadcast_ok");
    assert_eq!(second.sends.len(), 0);
    assert_eq!(state.seen, before);

    let read = handle_read(&state);
    assert_eq!(read.reply.unwrap().messages, Some(vec![42]));
}

#[test]
fn replicate_is_idempotent() {
    let mut state = node_with_neighbors(&["n2"]);
    let body = RawBody {
        msg_type: Some("replicate".to_string()),
        messages: Some(vec![1, 2]),
        ..empty_raw_body()
    };

    let first = handle_replicate(&mut state, &msg("n3", body.clone()));
    assert_eq!(first.reply.unwrap().messages, Some(vec![1, 2]));
    assert_eq!(first.sends.len(), 1);
    assert_eq!(state.seen, vec![1, 2]);

    let second = handle_replicate(&mut state, &msg("n3", body));
    let reply = second.reply.unwrap();
    assert_eq!(reply.msg_type, "replicate_ok");
    assert_eq!(reply.messages, Some(vec![1, 2]));
    assert_eq!(second.sends.len(), 0);
    assert_eq!(state.seen, vec![1, 2]);
}

#[test]
fn replicate_without_messages_is_a_silent_noop() {
    let mut state = node_with_neighbors(&["n2"]);
    let body = RawBody {
        msg_type: Some("replicate".to_string()),
        ..empty_raw_body()
    };
    let e = handle_replicate(&mut state, &msg("n3", body));
    assert!(e.reply.is_none());
    assert!(e.sends.is_empty());
    assert!(state.seen.is_empty());
}

#[test]
fn acknowledgment_clears_one_neighbor_only() {
    let mut state = node_with_neighbors(&["n2", "n3"]);
    broadcast(&mut state, 42);

    let body = RawBody {
        msg_type: Some("replicate_ok".to_string()),
        messages: Some(vec![42]),
        ..empty_raw_body()
    };
    let e = handle_replicate_ok(&mut state, &msg("n2", body));
    assert!(e.reply.is_none());
    assert!(e.sends.is_empty());

    assert_eq!(pending_of(&state, "n2"), &Vec::<u64>::new());
    assert_eq!(pending_of(&state, "n3"), &vec![42]);
    assert_eq!(state.seen, vec![42]);
}

#[test]
fn convergence() {
    // Node A (n1) with neighbors {B: n2, C: n3}.
    let mut state = node_with_neighbors(&["n2", "n3"]);

    // The harness broadcasts 42 to A.
    let e = broadcast(&mut state, 42);
    assert_eq!(e.reply.unwrap().msg_type, "broadcast_ok");
    let mut dests: Vec<&str> = e.sends.iter().map(|(d, _)| d.as_str()).collect();
    dests.sort();
    assert_eq!(dests, vec!["n2", "n3"]);
    for (_, body) in &e.sends {
        assert_eq!(body.msg_type, "replicate");
        assert_eq!(body.messages, Some(vec![42]));
    }

    // B acknowledges.
    let ack = RawBody {
        msg_type: Some("replicate_ok".to_string()),
        messages: Some(vec![42]),
        ..empty_raw_body()
    };
    handle_replicate_ok(&mut state, &msg("n2", ack));

    assert!(!pending_of(&state, "n2").contains(&42));
    assert!(pending_of(&state, "n3").contains(&42));

    // A read at any point returns 42.
    let read = handle_read(&state);
    assert!(read.reply.unwrap().messages.unwrap().contains(&42));
}

#[test]
fn repeated_topology_preserves_pending_sets() {
    let mut state = node_with_neighbors(&["n2"]);
    broadcast(&mut state, 7);
    assert_eq!(pending_of(&state, "n2"), &vec![7]);

    let body = RawBody {
        msg_type: Some("topology".to_string()),
        neighbors: Some(vec!["n2".to_string(), "n3".to_string()]),
        ..empty_raw_body()
    };
    handle_topology(&mut state, &msg("c1", body));

    assert_eq!(pending_of(&state, "n2"), &vec![7]);
    assert_eq!(pending_of(&state, "n3"), &Vec::<u64>::new());
}

#[test]
fn replicate_resends_full_pending_set() {
    let mut state = node_with_neighbors(&["n2"]);
    broadcast(&mut state, 1);

    // A new replicated value arrives; the retransmission to n2 carries the
    // still-unacknowledged 1 as well.
    let body = RawBody {
        msg_type: Some("replicate".to_string()),
        messages: Some(vec![2]),
        ..empty_raw_body()
    };
    let e = handle_replicate(&mut state, &msg("n3", body));
    assert_eq!(e.sends.len(), 1);
    let (dest, sent) = &e.sends[0];
    assert_eq!(dest, "n2");
    assert_eq!(sent.messages, Some(vec![1, 2]));
}

#[test]
fn largest_value_is_handled() {
    let mut state = node_with_neighbors(&["n2"]);
    let e = broadcast(&mut state, u64::MAX);
    assert_eq!(e.sends.len(), 1);
    assert_eq!(e.sends[0].1.messages, Some(vec![u64::MAX]));
    assert_eq!(state.seen, vec![u64::MAX]);
}

#[test]
fn duplicate_values_in_one_replicate_are_recorded_once() {
    let mut state = node_with_neighbors(&["n2"]);
    let body = RawBody {
        msg_type: Some("replicate".to_string()),
        messages: Some(vec![5, 5, 6]),
        ..empty_raw_body()
    };
    handle_replicate(&mut state, &msg("n3", body));
    assert_eq!(state.seen, vec![5, 6]);
    assert_eq!(pending_of(&state, "n2"), &vec![5, 6]);
}

#[test]
fn direct_state_updates() {
    let mut state = State::default();
    state.add_neighbors(&vec!["n2".to_string(), "n2".to_string(), "n3".to_string()]);
    assert_eq!(state.neighbors.len(), 2);

    let plan = state.add_seen(5);
    assert_eq!(plan.len(), 2);
    assert_eq!(state.seen(), vec![5]);

    let plan = state.add_seen_all(&vec![5, 6]);
    assert_eq!(plan.len(), 2);
    assert_eq!(state.seen(), vec![5, 6]);

    state.ack("n3", &vec![5]);
    assert_eq!(pending_of(&state, "n3"), &vec![6]);
    assert_eq!(pending_of(&state, "n2"), &vec![5, 6]);
}
