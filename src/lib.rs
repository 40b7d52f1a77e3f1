//! A real-time chat relay: the message type and its wire form, the hub that
//! fans messages out, the server connection handler and the client session
//! actor, each as verified logic that an async driver runs.

pub mod connection;
pub mod hub;
pub mod message;
pub mod presentation;
pub mod session;
pub mod wire;

pub use message::{ChatMessage, MessageModel};
