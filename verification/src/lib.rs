//! Core of a chat-moderation bot: a per-chat set of restricted external
//! sources, a command router, and an admin gate.
//!
//! The transport layer and the document store are kept outside; this crate
//! holds the decisions: what a command means, who may issue it, how the
//! restriction set changes, and which reply is owed.

pub mod commands;
pub mod handlers;
pub mod replies;
pub mod seed;
pub mod store;
pub mod text;
