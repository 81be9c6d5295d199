//! Client side of an ACP agent connection: the decisions behind its handlers.

pub mod approval;
pub mod connection;
pub mod error;
pub mod files;
pub mod handshake;
pub mod location;
pub mod path;
pub mod process;
pub mod rpc;
pub mod terminal;
pub mod terminal_call;
pub mod terminal_create;
pub mod text;
