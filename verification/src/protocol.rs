//! The wire message envelope.
//!
//! Every message exchanged with the test harness is a JSON document with a
//! `src` node id, a `dest` node id, and a `body` object whose `type` names the
//! request.  The embedding program decodes each JSON document into a
//! [`RawMessage`], the protocol-relevant projection of the document onto plain
//! values; [`Message::from_raw`] then validates that projection.  A [`Message`]
//! whose `src`, `dest` or `body.type` is missing or empty cannot be
//! constructed: validation fails with a [`MessageValidationError`] listing
//! every offending field, not just the first.

use vstd::prelude::*;

verus! {

/// A reference to a maelstrom node id.
#[derive(Debug)]
pub struct NodeIdRef<'a>(&'a str);

impl<'a> NodeIdRef<'a> {
    /// Wraps a node id string.
    pub fn new(id: &'a str) -> (r: NodeIdRef<'a>)
        ensures
            r@ == id@,
    {
        NodeIdRef(id)
    }

    /// The node id as a string slice.
    pub fn as_str(&self) -> (r: &'a str)
        ensures
            r@ == self@,
    {
        self.0
    }
}

impl<'a> View for NodeIdRef<'a> {
    type V = Seq<char>;

    closed spec fn view(&self) -> Seq<char> {
        self.0@
    }
}

/// A maelstrom message id.
#[derive(Debug, Clone, Copy, PartialEq, Eq, Structural)]
pub struct MessageId(pub u64);

impl MessageId {
    /// The numeric value of this message id.
    pub fn value(&self) -> (r: u64)
        ensures
            r == self.0,
    {
        self.0
    }
}

/// The body of a wire message as decoded from JSON, before validation.
///
/// A field is `None` when the document lacks it or holds it with the wrong
/// JSON type.  `messages` keeps only the array elements that are unsigned
/// integers, and `neighbors` only the elements of this node's topology entry
/// that are strings, mirroring how the document is read.
#[derive(Debug, Clone)]
pub struct RawBody {
    pub msg_type: Option<String>,
    pub msg_id: Option<u64>,
    pub in_reply_to: Option<u64>,
    pub node_id: Option<String>,
    pub message: Option<u64>,
    pub messages: Option<Vec<u64>>,
    pub neighbors: Option<Vec<String>>,
}

/// A wire message as decoded from JSON, before validation.
///
/// `body` is `None` when the document's `body` is not a JSON object.
#[derive(Debug, Clone)]
pub struct RawMessage {
    pub src: Option<String>,
    pub dest: Option<String>,
    pub body: Option<RawBody>,
}

/// A validated message body.
///
/// `code` and `text` appear only on outbound `error` bodies; an inbound body
/// always carries `None` for both.
#[derive(Debug, Clone, PartialEq, Eq)]
pub struct Body {
    pub msg_type: String,
    pub msg_id: Option<u64>,
    pub in_reply_to: Option<u64>,
    pub node_id: Option<String>,
    pub message: Option<u64>,
    pub messages: Option<Vec<u64>>,
    pub neighbors: Option<Vec<String>>,
    pub code: Option<u32>,
    pub text: Option<String>,
}

impl Body {
    /// A body holding nothing but its type.
    pub fn new(msg_type: String) -> (b: Body)
        ensures
            b == (Body {
                msg_type,
                msg_id: None,
                in_reply_to: None,
                node_id: None,
                message: None,
                messages: None,
                neighbors: None,
                code: None,
                text: None,
            }),
    {
        Body {
            msg_type,
            msg_id: None,
            in_reply_to: None,
            node_id: None,
            message: None,
            messages: None,
            neighbors: None,
            code: None,
            text: None,
        }
    }
}

/// A body that carries nothing but its type.
pub open spec fn plain_body(b: Body, msg_type: Seq<char>) -> bool {
    &&& b.msg_type@ == msg_type
    &&& b.msg_id is None
    &&& b.in_reply_to is None
    &&& b.node_id is None
    &&& b.message is None
    &&& b.messages is None
    &&& b.neighbors is None
    &&& b.code is None
    &&& b.text is None
}

/// A body that carries its type and a list of values, nothing else.
pub open spec fn values_body(b: Body, msg_type: Seq<char>, values: Seq<u64>) -> bool {
    &&& b.msg_type@ == msg_type
    &&& b.msg_id is None
    &&& b.in_reply_to is None
    &&& b.node_id is None
    &&& b.message is None
    &&& b.messages matches Some(ms) && ms@ == values
    &&& b.neighbors is None
    &&& b.code is None
    &&& b.text is None
}

/// An `error` body with the given code and text.
pub open spec fn error_body(b: Body, code: u32, text: Seq<char>) -> bool {
    &&& b.msg_type@ == "error"@
    &&& b.msg_id is None
    &&& b.in_reply_to is None
    &&& b.node_id is None
    &&& b.message is None
    &&& b.messages is None
    &&& b.neighbors is None
    &&& b.code == Some(code)
    &&& b.text matches Some(t) && t@ == text
}

/// Whether an optional string field is present with a non-empty value.
pub open spec fn str_present(f: Option<String>) -> bool {
    f matches Some(s) && s@.len() > 0
}

/// Whether a raw message satisfies the envelope invariant: `src`, `dest` and
/// `body.type` are present, non-empty strings and `body` is an object.
pub open spec fn raw_valid(raw: RawMessage) -> bool {
    &&& str_present(raw.src)
    &&& str_present(raw.dest)
    &&& raw.body matches Some(b) && str_present(b.msg_type)
}

/// The keys that envelope validation reports for a raw message, in the order
/// they are checked: `src`, `dest`, then `body` (not an object) or
/// `body.type` (missing or empty).
pub open spec fn missing_keys(raw: RawMessage) -> Seq<Seq<char>> {
    let s0 = Seq::<Seq<char>>::empty();
    let s1 = if str_present(raw.src) {
        s0
    } else {
        s0.push("src"@)
    };
    let s2 = if str_present(raw.dest) {
        s1
    } else {
        s1.push("dest"@)
    };
    match raw.body {
        Some(b) => if str_present(b.msg_type) {
            s2
        } else {
            s2.push("body.type"@)
        },
        None => s2.push("body"@),
    }
}

/// The error type for [`Message::from_raw`]: the list of envelope fields that
/// were missing or invalid, every one of them.
#[derive(Debug, Clone)]
pub struct MessageValidationError {
    pub keys: Vec<String>,
}

/// A validated maelstrom message: `src`, `dest` and `body.type` are known to
/// be non-empty strings.  Values of this type can only be built by
/// [`Message::from_raw`], so the invariant [`Message::wf`] holds of every one.
#[derive(Debug, Clone)]
pub struct Message {
    src: String,
    dest: String,
    body: Body,
}

impl Message {
    /// The source node id.
    pub closed spec fn spec_src(self) -> Seq<char> {
        self.src@
    }

    /// The destination node id.
    pub closed spec fn spec_dest(self) -> Seq<char> {
        self.dest@
    }

    /// The validated body.
    pub closed spec fn spec_body(self) -> Body {
        self.body
    }

    /// The envelope invariant: non-empty source, destination and type.
    pub open spec fn wf(self) -> bool {
        &&& self.spec_src().len() > 0
        &&& self.spec_dest().len() > 0
        &&& self.spec_body().msg_type@.len() > 0
    }

    /// Validates a decoded document, building a message exactly when `src`,
    /// `dest` and `body.type` are present, non-empty strings; otherwise
    /// reports every missing or invalid field.
    pub fn from_raw(raw: RawMessage) -> (r: Result<Message, MessageValidationError>)
        ensures
            r is Ok <==> raw_valid(raw),
            r matches Ok(m) ==> {
                &&& m.wf()
                &&& raw.src matches Some(s) && m.spec_src() == s@
                &&& raw.dest matches Some(d) && m.spec_dest() == d@
                &&& raw.body matches Some(b) && {
                    &&& b.msg_type matches Some(t) && m.spec_body().msg_type == t
                    &&& m.spec_body().msg_id == b.msg_id
                    &&& m.spec_body().in_reply_to == b.in_reply_to
                    &&& m.spec_body().node_id == b.node_id
                    &&& m.spec_body().message == b.message
                    &&& m.spec_body().messages == b.messages
                    &&& m.spec_body().neighbors == b.neighbors
                    &&& m.spec_body().code is None
                    &&& m.spec_body().text is None
                }
            },
            r matches Err(e) ==> e.keys.deep_view() == missing_keys(raw),
    {
        let mut keys: Vec<String> = Vec::new();

        let src_ok = match &raw.src {
            Some(s) => !s.as_str().is_empty(),
            None => false,
        };
        if !src_ok {
            keys.push("src".to_owned());
        }

        let dest_ok = match &raw.dest {
            Some(d) => !d.as_str().is_empty(),
            None => false,
        };
        if !dest_ok {
            keys.push("dest".to_owned());
        }

        let type_ok = match &raw.body {
            Some(b) => {
                let t_ok = match &b.msg_type {
                    Some(t) => !t.as_str().is_empty(),
                    None => false,
                };
                if !t_ok {
                    keys.push("body.type".to_owned());
                }
                t_ok
            },
            None => {
                keys.push("body".to_owned());
                false
            },
        };

        if src_ok && dest_ok && type_ok {
            let src = raw.src.unwrap();
            let dest = raw.dest.unwrap();
            let b = raw.body.unwrap();
            let msg_type = b.msg_type.unwrap();
            let body = Body {
                msg_type,
                msg_id: b.msg_id,
                in_reply_to: b.in_reply_to,
                node_id: b.node_id,
                message: b.message,
                messages: b.messages,
                neighbors: b.neighbors,
                code: None,
                text: None,
            };
            Ok(Message { src, dest, body })
        } else {
            proof {
                assert(keys.deep_view() =~~= missing_keys(raw));
            }
            Err(MessageValidationError { keys })
        }
    }

    /// The source of this message.
    pub fn src(&self) -> (r: &str)
        ensures
            r@ == self.spec_src(),
    {
        self.src.as_str()
    }

    /// The destination of this message.
    pub fn dest(&self) -> (r: &str)
        ensures
            r@ == self.spec_dest(),
    {
        self.dest.as_str()
    }

    /// The type of this message.
    pub fn msg_type(&self) -> (r: &str)
        ensures
            r@ == self.spec_body().msg_type@,
    {
        self.body.msg_type.as_str()
    }

    /// The id of this message, if any.
    pub fn msg_id(&self) -> (r: Option<u64>)
        ensures
            r == self.spec_body().msg_id,
    {
        self.body.msg_id
    }

    /// The id of the message this message is a reply to, if any.
    pub fn in_reply_to(&self) -> (r: Option<u64>)
        ensures
            r == self.spec_body().in_reply_to,
    {
        self.body.in_reply_to
    }

    /// The validated body of this message.
    pub fn body(&self) -> (r: &Body)
        ensures
            *r == self.spec_body(),
    {
        &self.body
    }
}

} // verus!
