use maelstrom::node::{Dispatch, Node, SendMessage};
use maelstrom::protocol::{Body, Message, RawBody, RawMessage};
use maelstrom::sequencer::Sequencer;

fn empty_raw_body() -> RawBody {
    RawBody {
        msg_type: None,
        msg_id: None,
        in_reply_to: None,
        node_id: None,
        message: None,
        messages: None,
        neighbors: None,
    }
}

fn msg(src: &str, body: RawBody) -> Message {
    Message::from_raw(RawMessage {
        src: Some(src.to_string()),
        dest: Some("n1".to_string()),
        body: Some(body),
    })
    .unwrap()
}

fn broadcast_node() -> Node {
    Node::new()
        .add_handler("topology".to_string())
        .add_handler("broadcast".to_string())
        .add_handler("read".to_string())
        .add_handler("replicate".to_string())
        .add_handler("replicate_ok".to_string())
}

#[test]
fn unsupported_type_gets_exactly_one_error_reply() {
    let node = broadcast_node();
    let body = RawBody {
        msg_type: Some("frobnicate".to_string()),
        msg_id: Some(7),
        ..empty_raw_body()
    };
    let d = node.dispatch(&msg("c1", body));

    let unit = match d {
        Dispatch::Reply(unit) => unit,
        Dispatch::Run => panic!("expected a direct reply"),
    };
    let (dest, in_reply_to, body) = match unit {
        SendMessage::Send {
            dest,
            in_reply_to,
            body,
        } => (dest, in_reply_to, body),
        other => panic!("expected an error reply, got {:?}", other),
    };
    assert_eq!(dest, "c1");
    assert_eq!(in_reply_to, Some(7));
    assert_eq!(body.msg_type, "error");
    assert_eq!(body.code, Some(10));
    assert!(body.text.unwrap().contains("frobnicate"));
}

#[test]
fn registered_type_runs_its_handler() {
    let node = broadcast_node();
    let body = RawBody {
        msg_type: Some("broadcast".to_string()),
        message: Some(3),
        ..empty_raw_body()
    };
    assert_eq!(node.dispatch(&msg("c1", body)), Dispatch::Run);
}

#[test]
fn init_adopts_identity() {
    let node = broadcast_node();
    let body = RawBody {
        msg_type: Some("init".to_string()),
        msg_id: Some(1),
        node_id: Some("n1".to_string()),
        ..empty_raw_body()
    };
    let d = node.dispatch(&msg("c1", body));
    assert_eq!(
        d,
        Dispatch::Reply(SendMessage::SetNodeId {
            dest: "c1".to_string(),
            in_reply_to: Some(1),
            node_id: "n1".to_string(),
        })
    );

    let mut seq = Sequencer::new();
    let out = match d {
        Dispatch::Reply(unit) => seq.sequence(unit),
        Dispatch::Run => panic!("expected a direct reply"),
    };
    assert_eq!(out.src, Some("n1".to_string()));
    assert_eq!(out.dest, "c1");
    assert_eq!(out.body.msg_type, "init_ok");
    assert_eq!(out.body.msg_id, Some(1));
    assert_eq!(out.body.in_reply_to, Some(1));
}

#[test]
fn malformed_init_leaves_identity_unset() {
    let node = broadcast_node();
    let body = RawBody {
        msg_type: Some("init".to_string()),
        msg_id: Some(1),
        ..empty_raw_body()
    };
    let d = node.dispatch(&msg("c1", body));

    let unit = match d {
        Dispatch::Reply(unit) => unit,
        Dispatch::Run => panic!("expected a direct reply"),
    };
    match &unit {
        SendMessage::Send { dest, body, .. } => {
            assert_eq!(dest, "c1");
            assert_eq!(body.msg_type, "error");
            assert_eq!(body.code, Some(13));
        }
        other => panic!("expected an error reply, got {:?}", other),
    }

    // The identity stays unset: the error reply and anything after it go out
    // without a source, until a valid init arrives.
    let mut seq = Sequencer::new();
    let out = seq.sequence(unit);
    assert_eq!(out.src, None);
    assert_eq!(out.body.msg_id, Some(1));

    let good_init = RawBody {
        msg_type: Some("init".to_string()),
        msg_id: Some(2),
        node_id: Some("n1".to_string()),
        ..empty_raw_body()
    };
    let out = match node.dispatch(&msg("c1", good_init)) {
        Dispatch::Reply(unit) => seq.sequence(unit),
        Dispatch::Run => panic!("expected a direct reply"),
    };
    assert_eq!(out.src, Some("n1".to_string()));
    assert_eq!(out.body.msg_type, "init_ok");
}

#[test]
fn ids_are_consecutive_from_one() {
    let mut seq = Sequencer::new();
    let units: Vec<SendMessage> = (0..5)
        .map(|i| SendMessage::Send {
            dest: format!("c{}", i),
            in_reply_to: Some(i),
            body: Body::new("echo_ok".to_string()),
        })
        .collect();
    let outs = seq.sequence_all(units);

    let ids: Vec<Option<u64>> = outs.iter().map(|o| o.body.msg_id).collect();
    assert_eq!(ids, vec![Some(1), Some(2), Some(3), Some(4), Some(5)]);
    assert_eq!(seq.last_msg_id, 5);

    // The counter is never reset: later messages continue the sequence.
    let out = seq.sequence(SendMessage::Send {
        dest: "c9".to_string(),
        in_reply_to: None,
        body: Body::new("echo_ok".to_string()),
    });
    assert_eq!(out.body.msg_id, Some(6));
    assert_eq!(out.body.in_reply_to, None);
}

#[test]
fn id_counter_reaches_its_cap() {
    let mut seq = Sequencer {
        node_id: Some("n1".to_string()),
        last_msg_id: u64::MAX - 1,
    };
    let out = seq.sequence(SendMessage::Send {
        dest: "c1".to_string(),
        in_reply_to: None,
        body: Body::new("read_ok".to_string()),
    });
    assert_eq!(out.body.msg_id, Some(u64::MAX));
    assert_eq!(seq.last_msg_id, u64::MAX);
}

#[test]
fn sequencer_stamps_correlation_and_body() {
    let mut seq = Sequencer::new();
    let mut body = Body::new("read_ok".to_string());
    body.messages = Some(vec![4, 2]);
    let out = seq.sequence(SendMessage::Send {
        dest: "c1".to_string(),
        in_reply_to: Some(9),
        body,
    });
    assert_eq!(out.dest, "c1");
    assert_eq!(out.body.msg_type, "read_ok");
    assert_eq!(out.body.messages, Some(vec![4, 2]));
    assert_eq!(out.body.in_reply_to, Some(9));
    assert_eq!(out.body.msg_id, Some(1));
}
