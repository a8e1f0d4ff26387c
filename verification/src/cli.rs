//! Messages of the command-line program's interface.

use vstd::prelude::*;

verus! {

/// Messages that can be sent from the UI to the client.
#[derive(Debug)]
pub enum UiClientMessage {
    /// Send a chat message.
    Say(String),
    /// Send a private message to a specific user.
    Whisper(String, String),
    /// Ping a user with a specific ID.
    Ping(String, u64),
    /// Send an extension message with an ID and content.
    Extension(u64, String),
    /// Deliver raw bytes to a specific user.
    Deliver(String, Vec<u8>),
}

} // verus!
