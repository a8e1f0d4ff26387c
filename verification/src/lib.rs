//! Core protocol logic of a peer-to-peer chat network: frames, parsing,
//! commands, and the decisions that peers, clients and the text UI make.

pub mod frame;
pub mod text;
pub mod payload;
pub mod parser;
pub mod cmd;
pub mod command;
pub mod message;
pub mod util;
pub mod server;
pub mod ui;
pub mod cli;
pub mod client;
