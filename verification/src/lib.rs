//! The decisions of a small peer-to-peer chat: reading the commands a user
//! types, choosing the address to dial at start-up, settling the name a peer
//! claims, and showing the messages that arrive.

pub mod fields;
pub mod command;
pub mod chat;
pub mod address;
pub mod laws;
pub mod listing;
