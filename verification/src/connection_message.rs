//! The first message a client sends after connecting.

use crate::client_type::ClientType;
use crate::handshake;
use crate::text::string_from_chars;
use vstd::prelude::*;

verus! {

/// The typed content of a handshake frame: the role the client declares
/// and the topic it connects to.
///
/// The wire form is one line of JSON,
/// `{"method": "publish" | "subscribe", "topic": "<name>"}`,
/// terminated by the frame delimiter. The topic may be any string,
/// including the empty one; an empty name is an ordinary, distinct
/// topic.
#[derive(Debug, PartialEq, Eq)]
pub struct ConnectionMessage {
    pub client_type: ClientType,
    pub topic: String,
}

impl ConnectionMessage {
    /// Parse one handshake line (frame delimiter already stripped),
    /// exactly as the grammar [`handshake::handshake_parse`] states.
    pub fn parse(line: &str) -> (r: Option<ConnectionMessage>)
        ensures
            match handshake::handshake_parse(line@) {
                Some((ct, topic)) => {
                    r matches Some(m) && m.client_type == ct && m.topic@ == topic
                },
                None => r is None,
            },
    {
        match handshake::parse_handshake_line(line) {
            Some((client_type, topic_chars)) => {
                let topic = string_from_chars(&topic_chars);
                Some(ConnectionMessage { client_type, topic })
            },
            None => None,
        }
    }
}

} // verus!
