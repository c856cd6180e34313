//! WebSocket messages as plain values.
use vstd::prelude::*;

use bytes::Bytes;
use vstd::utf8::encode_utf8;

use crate::buffer::{bytes_from_string, bytes_of};

verus! {

/// Close code sent when a caller closes without giving one.
pub const NORMAL_CLOSE: u16 = 1000;

/// The code and reason of a close frame.
#[derive(Clone, Debug, PartialEq, Eq)]
pub struct CloseFrame {
    pub code: u16,
    pub reason: String,
}

/// One WebSocket message.
#[derive(Clone, Debug, PartialEq, Eq)]
pub enum Message {
    Text(String),
    Binary(Bytes),
    Ping(Bytes),
    Pong(Bytes),
    Close(Option<CloseFrame>),
}

/// The payload bytes of a message; a close message has none.
pub open spec fn payload_of(m: Message) -> Option<Seq<u8>> {
    match m {
        Message::Text(t) => Some(encode_utf8(t@)),
        Message::Binary(b) => Some(bytes_of(b)),
        Message::Ping(b) => Some(bytes_of(b)),
        Message::Pong(b) => Some(bytes_of(b)),
        Message::Close(_) => None,
    }
}

impl Message {
    /// The payload as bytes: the UTF-8 of a text, the bytes of a binary, ping
    /// or pong message; `None` for a close message.
    pub fn data(&self) -> (r: Option<Bytes>)
        ensures
            match r {
                Some(b) => payload_of(*self) == Some(bytes_of(b)),
                None => payload_of(*self) is None,
            },
    {
        match self {
            Message::Text(text) => Some(bytes_from_string(text.clone())),
            Message::Binary(bytes) => Some(bytes.clone()),
            Message::Ping(bytes) => Some(bytes.clone()),
            Message::Pong(bytes) => Some(bytes.clone()),
            Message::Close(_) => None,
        }
    }

    /// The text of a text message.
    pub fn text(&self) -> (r: Option<&str>)
        ensures
            match *self {
                Message::Text(t) => r is Some && r->0@ == t@,
                _ => r is None,
            },
    {
        match self {
            Message::Text(text) => Some(text.as_str()),
            _ => None,
        }
    }

    /// The bytes of a binary message.
    pub fn binary(&self) -> (r: Option<&Bytes>)
        ensures
            match *self {
                Message::Binary(b) => r == Some(&b),
                _ => r is None,
            },
    {
        match self {
            Message::Binary(bytes) => Some(bytes),
            _ => None,
        }
    }

    /// The bytes of a ping message.
    pub fn ping(&self) -> (r: Option<&Bytes>)
        ensures
            match *self {
                Message::Ping(b) => r == Some(&b),
                _ => r is None,
            },
    {
        match self {
            Message::Ping(bytes) => Some(bytes),
            _ => None,
        }
    }

    /// The bytes of a pong message.
    pub fn pong(&self) -> (r: Option<&Bytes>)
        ensures
            match *self {
                Message::Pong(b) => r == Some(&b),
                _ => r is None,
            },
    {
        match self {
            Message::Pong(bytes) => Some(bytes),
            _ => None,
        }
    }

    /// The code and reason of a close message that carries a frame.
    pub fn close(&self) -> (r: Option<(u16, Option<&str>)>)
        ensures
            match *self {
                Message::Close(Some(f)) => match r {
                    Some((code, Some(why))) => code == f.code && why@ == f.reason@,
                    _ => false,
                },
                _ => r is None,
            },
    {
        match self {
            Message::Close(Some(frame)) => Some((frame.code, Some(frame.reason.as_str()))),
            _ => None,
        }
    }

    pub fn from_text(text: String) -> (r: Message)
        ensures
            r == Message::Text(text),
    {
        Message::Text(text)
    }

    pub fn from_binary(data: Bytes) -> (r: Message)
        ensures
            r == Message::Binary(data),
    {
        Message::Binary(data)
    }

    pub fn from_ping(data: Bytes) -> (r: Message)
        ensures
            r == Message::Ping(data),
    {
        Message::Ping(data)
    }

    pub fn from_pong(data: Bytes) -> (r: Message)
        ensures
            r == Message::Pong(data),
    {
        Message::Pong(data)
    }

    /// A close message with the given code; its reason is "Goodbye" when none
    /// is given.
    pub fn from_close(code: u16, reason: Option<String>) -> (r: Message)
        ensures
            match reason {
                Some(text) => r == Message::Close(Some(CloseFrame { code, reason: text })),
                None => r is Close && r->Close_0 is Some && r->Close_0->0.code == code
                    && r->Close_0->0.reason@ == "Goodbye"@,
            },
    {
        let reason = match reason {
            Some(text) => text,
            None => "Goodbye".to_owned(),
        };
        Message::Close(Some(CloseFrame { code, reason }))
    }
}

} // verus!
