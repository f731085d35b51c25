use maelstrom::protocol::{Message, MessageId, NodeIdRef, RawBody, RawMessage};

fn empty_raw_body() -> RawBody {
    RawBody {
        msg_type: None,
        msg_id: None,
        in_reply_to: None,
        node_id: None,
        message: None,
        messages: None,
        neighbors: None,
    }
}

fn raw_body(msg_type: &str) -> RawBody {
    RawBody {
        msg_type: Some(msg_type.to_string()),
        ..empty_raw_body()
    }
}

fn raw(src: &str, dest: &str, body: RawBody) -> RawMessage {
    RawMessage {
        src: Some(src.to_string()),
        dest: Some(dest.to_string()),
        body: Some(body),
    }
}

#[test]
fn protocol_parse() {
    let body = RawBody {
        msg_id: Some(1),
        ..raw_body("echo")
    };
    let message = Message::from_raw(raw("c1", "n1", body)).unwrap();

    assert_eq!(NodeIdRef::new(message.src()).as_str(), "c1");
    assert_eq!(NodeIdRef::new(message.dest()).as_str(), "n1");
    assert_eq!(message.msg_type(), "echo");
    assert_eq!(message.msg_id().map(MessageId), Some(MessageId(1)));
}

#[test]
fn message_parse() {
    let body = RawBody {
        msg_id: Some(1),
        ..raw_body("echo")
    };
    let message = Message::from_raw(raw("c1", "n1", body)).unwrap();

    assert_eq!(message.src(), "c1");
    assert_eq!(message.dest(), "n1");
    assert_eq!(message.msg_type(), "echo");
    assert_eq!(message.msg_id(), Some(1));
    assert_eq!(message.in_reply_to(), None);
    assert_eq!(message.body().msg_type, "echo");
}

#[test]
fn all_missing_fields_are_reported() {
    let err = Message::from_raw(RawMessage {
        src: None,
        dest: None,
        body: None,
    })
    .unwrap_err();
    assert_eq!(err.keys, vec!["src", "dest", "body"]);
}

#[test]
fn missing_type_is_reported() {
    let err = Message::from_raw(raw("c1", "n1", empty_raw_body())).unwrap_err();
    assert_eq!(err.keys, vec!["body.type"]);
}

#[test]
fn missing_src_is_reported() {
    let err = Message::from_raw(RawMessage {
        src: None,
        dest: Some("n1".to_string()),
        body: Some(raw_body("echo")),
    })
    .unwrap_err();
    assert_eq!(err.keys, vec!["src"]);
}

#[test]
fn empty_fields_are_rejected() {
    let err = Message::from_raw(RawMessage {
        src: Some(String::new()),
        dest: Some("n1".to_string()),
        body: Some(raw_body("")),
    })
    .unwrap_err();
    assert_eq!(err.keys, vec!["src", "body.type"]);
}

#[test]
fn accessors_return_supplied_values() {
    let body = RawBody {
        msg_type: Some("topology".to_string()),
        msg_id: Some(5),
        in_reply_to: Some(4),
        node_id: Some("n9".to_string()),
        message: Some(17),
        messages: Some(vec![1, 2, 3]),
        neighbors: Some(vec!["n2".to_string(), "n3".to_string()]),
    };
    let message = Message::from_raw(raw("c1", "n1", body)).unwrap();

    assert_eq!(message.src(), "c1");
    assert_eq!(message.dest(), "n1");
    assert_eq!(message.msg_type(), "topology");
    assert_eq!(message.msg_id(), Some(5));
    assert_eq!(message.in_reply_to(), Some(4));
    let b = message.body();
    assert_eq!(b.node_id, Some("n9".to_string()));
    assert_eq!(b.message, Some(17));
    assert_eq!(b.messages, Some(vec![1, 2, 3]));
    assert_eq!(b.neighbors, Some(vec!["n2".to_string(), "n3".to_string()]));
    assert_eq!(b.code, None);
    assert_eq!(b.text, None);
}
