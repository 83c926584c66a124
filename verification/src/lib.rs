//! Conversation backend for a locally running language-model server.
//!
//! The library holds the verified core of a chat application: normalizing
//! raw UI messages into role-tagged chat messages, assembling a completion
//! request out of a message list, keeping an ordered conversation history,
//! and mapping the model server's replies and errors back to the caller.
//! The network round trip itself is left to the embedding application.

pub mod history;
pub mod invoker;
pub mod message;
pub mod models;
