//! Messages exchanged between a peer's client and its server.

use crate::frame::{Bing2BingFrame, FrameView};
use crate::payload::bytes_contents;
use bytes::Bytes;
use vstd::prelude::*;

verus! {

/// A message between a [`Client`](crate::client::Client) and its server,
/// in either direction.
#[derive(Debug)]
pub enum ClientServerMessage {
    /// `(from, message)`: a chat message.
    Say((String, String)),
    /// `(from, to, message)`: a direct message.
    Whisper((String, String, String)),
    /// `(from, to, sent_at)`: a latency probe; only ever goes from client to server.
    Ping((String, String, u64)),
    /// `(from, sent_at)`: the answer to our ping; only ever goes from server to client.
    Pong((String, u64)),
    /// `(from, extension_id, payload)`: an extension message.
    Extension((String, u64, Bing2BingFrame)),
    /// `(from, to, data)`: data for one peer.
    Deliver((String, String, Vec<u8>)),
    /// `(from, data)`: data for everyone.
    Broadcast((String, Bytes)),
}

/// The value of a [`ClientServerMessage`].
pub enum MessageView {
    Say(Seq<char>, Seq<char>),
    Whisper(Seq<char>, Seq<char>, Seq<char>),
    Ping(Seq<char>, Seq<char>, u64),
    Pong(Seq<char>, u64),
    Extension(Seq<char>, u64, FrameView),
    Deliver(Seq<char>, Seq<char>, Seq<u8>),
    Broadcast(Seq<char>, Seq<u8>),
}

impl View for ClientServerMessage {
    type V = MessageView;

    open spec fn view(&self) -> MessageView {
        match self {
            ClientServerMessage::Say((f, m)) => MessageView::Say(f@, m@),
            ClientServerMessage::Whisper((f, t, m)) => MessageView::Whisper(f@, t@, m@),
            ClientServerMessage::Ping((f, t, s)) => MessageView::Ping(f@, t@, *s),
            ClientServerMessage::Pong((f, s)) => MessageView::Pong(f@, *s),
            ClientServerMessage::Extension((f, i, p)) => MessageView::Extension(f@, *i, p@),
            ClientServerMessage::Deliver((f, t, d)) => MessageView::Deliver(f@, t@, d@),
            ClientServerMessage::Broadcast((f, d)) => MessageView::Broadcast(f@, bytes_contents(*d)),
        }
    }
}

} // verus!
