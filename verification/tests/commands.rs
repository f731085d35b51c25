use maelstrom::command::Command;
use maelstrom::handler::BroadcastHandler;
use maelstrom::protocol::{Message, RawBody, RawMessage};

fn empty_raw_body() -> RawBody {
    RawBody {
        msg_type: None,
        msg_id: None,
        in_reply_to: None,
        node_id: None,
        message: None,
        messages: None,
        neighbors: None,
    }
}

fn msg(src: &str, body: RawBody) -> Message {
    Message::from_raw(RawMessage {
        src: Some(src.to_string()),
        dest: Some("n1".to_string()),
        body: Some(body),
    })
    .unwrap()
}

#[test]
fn parses_every_command() {
    let topology = RawBody {
        msg_type: Some("topology".to_string()),
        neighbors: Some(vec!["n2".to_string()]),
        ..empty_raw_body()
    };
    assert_eq!(
        Command::from_message(&msg("c1", topology)).unwrap(),
        Command::Topology(vec!["n2".to_string()])
    );

    let broadcast = RawBody {
        msg_type: Some("broadcast".to_string()),
        message: Some(42),
        ..empty_raw_body()
    };
    assert_eq!(
        Command::from_message(&msg("c1", broadcast)).unwrap(),
        Command::Broadcast(42)
    );

    let read = RawBody {
        msg_type: Some("read".to_string()),
        ..empty_raw_body()
    };
    assert_eq!(Command::from_message(&msg("c1", read)).unwrap(), Command::Read);

    let replicate = RawBody {
        msg_type: Some("replicate".to_string()),
        messages: Some(vec![1, 2]),
        ..empty_raw_body()
    };
    assert_eq!(
        Command::from_message(&msg("n3", replicate)).unwrap(),
        Command::Replicate(vec![1, 2])
    );

    let replicate_ok = RawBody {
        msg_type: Some("replicate_ok".to_string()),
        messages: Some(vec![1]),
        ..empty_raw_body()
    };
    assert_eq!(
        Command::from_message(&msg("n3", replicate_ok)).unwrap(),
        Command::ReplicateOk("n3".to_string(), vec![1])
    );
}

#[test]
fn gossip_without_values_means_the_empty_list() {
    let replicate = RawBody {
        msg_type: Some("replicate".to_string()),
        ..empty_raw_body()
    };
    assert_eq!(
        Command::from_message(&msg("n3", replicate)).unwrap(),
        Command::Replicate(vec![])
    );
}

#[test]
fn missing_required_fields_are_malformed() {
    let topology = RawBody {
        msg_type: Some("topology".to_string()),
        ..empty_raw_body()
    };
    let err = Command::from_message(&msg("c1", topology)).unwrap_err();
    assert_eq!(err.code, 13);

    let broadcast = RawBody {
        msg_type: Some("broadcast".to_string()),
        ..empty_raw_body()
    };
    let err = Command::from_message(&msg("c1", broadcast)).unwrap_err();
    assert_eq!(err.code, 13);
}

#[test]
fn unknown_command_is_not_supported() {
    let body = RawBody {
        msg_type: Some("frobnicate".to_string()),
        ..empty_raw_body()
    };
    let err = Command::from_message(&msg("c1", body)).unwrap_err();
    assert_eq!(err.code, 10);
    assert_eq!(
        err.text.unwrap(),
        "message type not supported: frobnicate"
    );
}

#[test]
fn handler_applies_commands_to_its_state() {
    let mut h = BroadcastHandler::new();

    let e = h.handle(Command::Topology(vec!["n2".to_string(), "n3".to_string()]));
    assert_eq!(e.reply.unwrap().msg_type, "topology_ok");

    let e = h.handle(Command::Broadcast(42));
    assert_eq!(e.reply.unwrap().msg_type, "broadcast_ok");
    assert_eq!(e.sends.len(), 2);

    let e = h.handle(Command::ReplicateOk("n2".to_string(), vec![42]));
    assert!(e.reply.is_none());

    let e = h.handle(Command::Read);
    assert_eq!(e.reply.unwrap().messages, Some(vec![42]));

    let e = h.handle(Command::Replicate(vec![42, 7]));
    let reply = e.reply.unwrap();
    assert_eq!(reply.msg_type, "replicate_ok");
    assert_eq!(reply.messages, Some(vec![42, 7]));
    // n2 had acknowledged 42, so its retransmission re-pends it with 7;
    // n3 still had 42 pending and only gains 7.
    assert_eq!(e.sends.len(), 2);
    assert_eq!(h.state.seen, vec![42, 7]);
}

#[test]
fn error_bodies_match_the_wire_format() {
    let e = maelstrom::Error::not_supported("frobnicate");
    let b = e.to_body();
    assert_eq!(b.msg_type, "error");
    assert_eq!(b.code, Some(10));
    assert_eq!(
        b.text,
        Some("message type not supported: frobnicate".to_string())
    );

    let e = maelstrom::Error::malformed_request("init message with missing node_id");
    let b = e.to_body();
    assert_eq!(b.code, Some(13));
    assert_eq!(b.text, Some("init message with missing node_id".to_string()));
}
