//! The commands of the protocol.

pub mod announce;
pub mod broadcast;
pub mod deliver;
pub mod extension;
pub mod ping;
pub mod pong;
pub mod register;
pub mod say;
pub mod whisper;
