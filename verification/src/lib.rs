//! A chat-moderation bot core: a typed entity model for inbound platform
//! events, a long-poll update stream with a monotone acknowledgment cursor,
//! and a timestamp classifier with its action-decision engine.

pub mod text;
pub mod classify;
pub mod types;
pub mod engine;
pub mod api;
