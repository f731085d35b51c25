//! Protocol error bodies.
//!
//! A recognized message whose type is unsupported, or whose required fields
//! are missing where strictness is called for, is answered with a structured
//! `error` body carrying a numeric code and a human-readable text.

use vstd::prelude::*;
use vstd::string::StringExecFns;
use crate::protocol::Body;

verus! {

/// Error code for a message type this node does not support.
pub const CODE_NOT_SUPPORTED: u32 = 10;

/// Error code for a recognized message missing a required field.
pub const CODE_MALFORMED_REQUEST: u32 = 13;

/// An error destined for the body of an `error` reply.
#[derive(Debug, Clone, PartialEq, Eq)]
pub struct Error {
    pub code: u32,
    pub text: Option<String>,
}

impl Error {
    /// Creates a new error with a `code` and optional `text`.
    fn new(code: u32, text: Option<String>) -> (e: Error)
        ensures
            e.code == code,
            e.text == text,
    {
        Error { code, text }
    }

    /// Creates a `not-supported` error for the given message type.
    pub fn not_supported(msg_type: &str) -> (e: Error)
        ensures
            e.code == CODE_NOT_SUPPORTED,
            e.text matches Some(t) && t@ == "message type not supported: "@ + msg_type@,
    {
        let text = "message type not supported: ".to_owned().concat(msg_type);
        Self::new(CODE_NOT_SUPPORTED, Some(text))
    }

    /// Creates a `malformed-request` error with the given text.
    pub fn malformed_request(text: &str) -> (e: Error)
        ensures
            e.code == CODE_MALFORMED_REQUEST,
            e.text matches Some(t) && t@ == text@,
    {
        Self::new(CODE_MALFORMED_REQUEST, Some(text.to_owned()))
    }

    /// Converts this error into an `error` message body matching the wire
    /// error specification.
    pub fn to_body(self) -> (b: Body)
        ensures
            b.msg_type@ == "error"@,
            b.code == Some(self.code),
            b.text == self.text,
            b.msg_id is None,
            b.in_reply_to is None,
            b.node_id is None,
            b.message is None,
            b.messages is None,
            b.neighbors is None,
    {
        Body {
            msg_type: "error".to_owned(),
            msg_id: None,
            in_reply_to: None,
            node_id: None,
            message: None,
            messages: None,
            neighbors: None,
            code: Some(self.code),
            text: self.text,
        }
    }
}

} // verus!
