//! The client side of a peer: what its user's requests become.

use crate::frame::{Bing2BingFrame, FrameView};
use crate::message::{ClientServerMessage, MessageView};
use crate::payload::bytes_from_vec;
use crate::ui::{UiClientMessage, UiMessageView};
use std::sync::Arc;
use vstd::prelude::*;

verus! {

/// The way a user interacts with its peer's server, and thus the rest of the
/// network.  Each request becomes a [`ClientServerMessage`] for the server,
/// sent on behalf of the client's name.
#[derive(Debug, Clone)]
pub struct Client {
    shared: Arc<Shared>,
}

/// The state a `Client` shares between its copies.
#[derive(Debug)]
struct Shared {
    name: String,
}

impl View for Shared {
    type V = Seq<char>;

    /// The client's name.
    closed spec fn view(&self) -> Seq<char> {
        self.name@
    }
}

impl Shared {
    /// The shared state of the client `name`.
    pub fn new(name: String) -> (r: Self)
        ensures
            r@ == name@,
    {
        Self { name }
    }
}

impl View for Client {
    type V = Seq<char>;

    /// The client's name.
    closed spec fn view(&self) -> Seq<char> {
        self.shared.name@
    }
}

/// The message for the server that a request of the UI becomes, for the
/// client `name`.
pub open spec fn ui_request(name: Seq<char>, m: UiMessageView) -> MessageView {
    match m {
        UiMessageView::Whisper(to, message) => MessageView::Whisper(name, to, message),
        UiMessageView::Say(message) => MessageView::Say(name, message),
        UiMessageView::Ping(to, sent_at) => MessageView::Ping(name, to, sent_at),
        UiMessageView::Extension(id, payload) => MessageView::Extension(name, id, FrameView::Text(payload)),
        UiMessageView::Deliver(to, data) => MessageView::Deliver(name, to, data),
        UiMessageView::Broadcast(_, data) => MessageView::Broadcast(name, data),
    }
}

/// A request of the UI keeps its fields where they belong: the message is
/// sent on behalf of the client; a whisper, delivery or ping goes to the
/// request's first field (`to`) and carries its second (the text, the data,
/// the time); a say carries the request's text; an extension request keeps
/// its id and carries its payload as `Text`; a broadcast carries the
/// request's data.
pub proof fn lemma_ui_request_keeps_fields(name: Seq<char>, m: UiMessageView)
    ensures
        ({
            let r = ui_request(name, m);
            match m {
                UiMessageView::Whisper(to, message) => r is Whisper && r->Whisper_0 == name
                    && r->Whisper_1 == to && r->Whisper_2 == message,
                UiMessageView::Deliver(to, data) => r is Deliver && r->Deliver_0 == name
                    && r->Deliver_1 == to && r->Deliver_2 == data,
                UiMessageView::Ping(to, sent_at) => r is Ping && r->Ping_0 == name && r->Ping_1 == to
                    && r->Ping_2 == sent_at,
                UiMessageView::Say(message) => r is Say && r->Say_0 == name && r->Say_1 == message,
                UiMessageView::Extension(id, payload) => r is Extension && r->Extension_0 == name
                    && r->Extension_1 == id && r->Extension_2 == FrameView::Text(payload),
                UiMessageView::Broadcast(_, data) => r is Broadcast && r->Broadcast_0 == name
                    && r->Broadcast_1 == data,
            }
        }),
{
}

impl Client {
    /// The client of the user `name`.
    pub fn new(name: String) -> (r: Client)
        ensures
            r@ == name@,
    {
        Self { shared: Arc::new(Shared::new(name)) }
    }

    /// Another handle on the same client.
    pub fn duplicate(&self) -> (r: Client)
        ensures
            r@ == self@,
    {
        Client { shared: self.shared.clone() }
    }

    /// The client's name.
    pub fn name(&self) -> (r: &String)
        ensures
            r@ == self@,
    {
        &self.shared.name
    }

    /// A chat message that will spread through the network.
    pub fn say(&self, message: &str) -> (r: ClientServerMessage)
        ensures
            r@ == MessageView::Say(self@, message@),
    {
        ClientServerMessage::Say((self.shared.name.clone(), message.to_string()))
    }

    /// A private message for `to`.
    pub fn whisper(&self, to: &str, message: &str) -> (r: ClientServerMessage)
        ensures
            r@ == MessageView::Whisper(self@, to@, message@),
    {
        ClientServerMessage::Whisper((self.shared.name.clone(), to.to_string(), message.to_string()))
    }

    /// A ping of `to`, sent at `sent_at_millis` milliseconds.
    pub fn ping(&self, to: &str, sent_at_millis: u64) -> (r: ClientServerMessage)
        ensures
            r@ == MessageView::Ping(self@, to@, sent_at_millis),
    {
        ClientServerMessage::Ping((self.shared.name.clone(), to.to_string(), sent_at_millis))
    }

    /// A message for the extension `extension_id`.
    pub fn send_extension(&self, extension_id: u64, payload: Bing2BingFrame) -> (r: ClientServerMessage)
        ensures
            r@ == MessageView::Extension(self@, extension_id, payload@),
    {
        ClientServerMessage::Extension((self.shared.name.clone(), extension_id, payload))
    }

    /// Data for the user `to` alone.
    pub fn deliver(&self, to: &str, data: Vec<u8>) -> (r: ClientServerMessage)
        ensures
            r@ == MessageView::Deliver(self@, to@, data@),
    {
        ClientServerMessage::Deliver((self.shared.name.clone(), to.to_string(), data))
    }

    /// Data for every user.
    pub fn broadcast(&self, data: Vec<u8>) -> (r: ClientServerMessage)
        ensures
            r@ == MessageView::Broadcast(self@, data@),
    {
        ClientServerMessage::Broadcast((self.shared.name.clone(), bytes_from_vec(data)))
    }

    /// The message that a request of the UI becomes: an extension request
    /// carries its payload as `Text`, and a broadcast goes out on behalf of
    /// this client whatever sender the request names.
    pub fn ui_request(&self, message: UiClientMessage) -> (r: ClientServerMessage)
        ensures
            r@ == ui_request(self@, message@),
    {
        match message {
            UiClientMessage::Whisper(to, message) => self.whisper(to.as_str(), message.as_str()),
            UiClientMessage::Say(message) => self.say(message.as_str()),
            UiClientMessage::Ping(to, sent_at) => self.ping(to.as_str(), sent_at),
            UiClientMessage::Extension(id, payload) => self.send_extension(id, Bing2BingFrame::Text(payload)),
            UiClientMessage::Deliver(to, data) => self.deliver(to.as_str(), data),
            UiClientMessage::Broadcast(_from, data) => self.broadcast(data),
        }
    }
}

} // verus!
