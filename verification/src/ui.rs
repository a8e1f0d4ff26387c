//! The simple text interface: what each line the user types asks for, and
//! the lines it prints.

use crate::text::{chars_of, concat4, has_prefix, starts_with, str_equal, string_of_range};
use vstd::prelude::*;

verus! {

/// Messages that can be sent from the UI to the client.
#[derive(Debug, Clone)]
pub enum UiClientMessage {
    /// Send a chat message.
    Say(String),
    /// Send a private message to a specific user: `(to, message)`.
    Whisper(String, String),
    /// Ping a user: `(to, sent_at_millis)`.
    Ping(String, u64),
    /// Send an extension message: `(extension_id, payload)`.
    Extension(u64, String),
    /// Deliver raw bytes to a specific user: `(to, data)`.
    Deliver(String, Vec<u8>),
    /// Broadcast raw bytes to all connected users: `(from, data)`.
    Broadcast(String, Vec<u8>),
}

/// The value of a [`UiClientMessage`].
pub enum UiMessageView {
    Say(Seq<char>),
    Whisper(Seq<char>, Seq<char>),
    Ping(Seq<char>, u64),
    Extension(u64, Seq<char>),
    Deliver(Seq<char>, Seq<u8>),
    Broadcast(Seq<char>, Seq<u8>),
}

impl View for UiClientMessage {
    type V = UiMessageView;

    open spec fn view(&self) -> UiMessageView {
        match self {
            UiClientMessage::Say(m) => UiMessageView::Say(m@),
            UiClientMessage::Whisper(t, m) => UiMessageView::Whisper(t@, m@),
            UiClientMessage::Ping(t, s) => UiMessageView::Ping(t@, *s),
            UiClientMessage::Extension(i, p) => UiMessageView::Extension(*i, p@),
            UiClientMessage::Deliver(t, d) => UiMessageView::Deliver(t@, d@),
            UiClientMessage::Broadcast(f, d) => UiMessageView::Broadcast(f@, d@),
        }
    }
}

/// What one line of input asks for.
#[derive(Debug)]
pub enum UiInput {
    /// Stop reading input.
    Quit,
    /// Hand a message to the client.
    Send(UiClientMessage),
}

/// The value of a [`UiInput`].
pub enum UiInputView {
    Quit,
    Send(UiMessageView),
}

impl View for UiInput {
    type V = UiInputView;

    open spec fn view(&self) -> UiInputView {
        match self {
            UiInput::Quit => UiInputView::Quit,
            UiInput::Send(m) => UiInputView::Send(m@),
        }
    }
}

/// What a line of input asks for, in the simple interface, which answers only
/// `/say` and `/quit`:
///
/// * `/quit` stops;
/// * `/say <message>` says the message;
/// * any other line is said as it is.
pub open spec fn ui_line(line: Seq<char>) -> UiInputView {
    if line == "/quit"@ {
        UiInputView::Quit
    } else if has_prefix(line, "/say "@) {
        UiInputView::Send(UiMessageView::Say(line.skip(5)))
    } else {
        UiInputView::Send(UiMessageView::Say(line))
    }
}

/// What a line of input asks for; see [`ui_line`].
pub fn parse_ui_line(line: &str) -> (r: UiInput)
    ensures
        r@ == ui_line(line@),
{
    let v = chars_of(line);
    proof {
        reveal_strlit("/say ");
    }
    if str_equal(&v, "/quit") {
        UiInput::Quit
    } else if starts_with(&v, "/say ") {
        UiInput::Send(UiClientMessage::Say(string_of_range(&v, 5, v.len())))
    } else {
        UiInput::Send(UiClientMessage::Say(line.to_string()))
    }
}

/// The line the interface prints for a chat message from `from`, received
/// at the time `now`: `"[now] from: message\n"`.
pub fn say_line(now: &str, from: &str, message: &str) -> (r: String)
    ensures
        r@ == "["@ + now@ + "] "@ + from@ + ": "@ + message@ + "\n"@,
{
    let head = concat4("[", now, "] ", from);
    concat4(head.as_str(), ": ", message, "\n")
}

/// The line the interface prints for a whisper from `from`, received at the
/// time `now`: `"[now] from whispered to you: message\n"`.
pub fn whisper_line(now: &str, from: &str, message: &str) -> (r: String)
    ensures
        r@ == "["@ + now@ + "] "@ + from@ + " whispered to you: "@ + message@ + "\n"@,
{
    let head = concat4("[", now, "] ", from);
    concat4(head.as_str(), " whispered to you: ", message, "\n")
}

} // verus!
