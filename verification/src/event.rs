//! The events that a feed connection produces.

use vstd::prelude::*;
use vstd::string::StringExecFns;

use crate::text::{byte_list, debug_quoted, format_bytes, quote};

verus! {

/// One message received over the connection.
#[derive(Clone, Debug, PartialEq, Eq)]
pub enum Message {
    /// A binary payload.
    Binary(Vec<u8>),
    /// A text payload.
    Text(String),
    /// A payload of a kind that the transport could not classify.
    Unknown(String),
    /// A keep-alive request.
    Ping(Vec<u8>),
    /// A keep-alive reply.
    Pong(Vec<u8>),
}

/// Something that happened on the connection.
#[derive(Clone, Debug, PartialEq, Eq)]
pub enum Event {
    /// The connection was established.
    Opened,
    /// A message arrived.
    Message(Message),
    /// The connection reported an error.
    Error(String),
    /// The connection was closed.
    Closed,
}

/// `name`, then `payload` in round brackets.
pub open spec fn tagged(name: Seq<char>, payload: Seq<char>) -> Seq<char> {
    name + seq!['('] + payload + seq![')']
}

fn tag(name: &str, payload: &str) -> (label: String)
    ensures
        label@ == tagged(name@, payload@),
{
    proof {
        reveal_strlit("(");
        reveal_strlit(")");
    }
    let mut label = String::from_str(name);
    label.append("(");
    label.append(payload);
    label.append(")");
    assert("("@ =~= seq!['(']);
    assert(")"@ =~= seq![')']);
    assert(label@ =~= tagged(name@, payload@));
    label
}

impl Message {
    /// How the message is written out when it is shown as it is: the name of
    /// its kind, then its payload in round brackets. Bytes are listed in
    /// decimal, text is quoted.
    pub open spec fn described(self) -> Seq<char> {
        match self {
            Message::Binary(bytes) => tagged("Binary"@, byte_list(bytes@)),
            Message::Text(text) => tagged("Text"@, debug_quoted(text@)),
            Message::Unknown(text) => tagged("Unknown"@, debug_quoted(text@)),
            Message::Ping(bytes) => tagged("Ping"@, byte_list(bytes@)),
            Message::Pong(bytes) => tagged("Pong"@, byte_list(bytes@)),
        }
    }

    /// Writes the message out: the name of its kind, then its payload.
    pub fn describe(&self) -> (text: String)
        ensures
            text@ == self.described(),
    {
        match self {
            Message::Binary(bytes) => tag("Binary", format_bytes(bytes).as_str()),
            Message::Text(text) => tag("Text", quote(text.as_str()).as_str()),
            Message::Unknown(text) => tag("Unknown", quote(text.as_str()).as_str()),
            Message::Ping(bytes) => tag("Ping", format_bytes(bytes).as_str()),
            Message::Pong(bytes) => tag("Pong", format_bytes(bytes).as_str()),
        }
    }
}

impl Event {
    /// How the event is written out when it is shown as it is: the name of
    /// its kind, followed for a message or an error by what it carries.
    pub open spec fn described(self) -> Seq<char> {
        match self {
            Event::Opened => "Opened"@,
            Event::Message(message) => tagged("Message"@, message.described()),
            Event::Error(reason) => tagged("Error"@, debug_quoted(reason@)),
            Event::Closed => "Closed"@,
        }
    }

    /// Writes the event out: the name of its kind, then what it carries.
    pub fn describe(&self) -> (text: String)
        ensures
            text@ == self.described(),
    {
        match self {
            Event::Opened => String::from_str("Opened"),
            Event::Message(message) => tag("Message", message.describe().as_str()),
            Event::Error(reason) => tag("Error", quote(reason.as_str()).as_str()),
            Event::Closed => String::from_str("Closed"),
        }
    }

    /// The text payload of the event, if it is a text message.
    pub open spec fn text(self) -> Option<Seq<char>> {
        match self {
            Event::Message(Message::Text(payload)) => Some(payload@),
            _ => None,
        }
    }

    /// Returns the payload of a text message, and `None` for any other event.
    pub fn as_text(&self) -> (payload: Option<&String>)
        ensures
            match payload {
                Some(s) => self.text() == Some(s@),
                None => self.text().is_none(),
            },
    {
        match self {
            Event::Message(Message::Text(payload)) => Some(payload),
            _ => None,
        }
    }
}

} // verus!
