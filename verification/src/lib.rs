//! A message-driven dialogue engine: each conversation, addressed by an
//! identifier, advances through a finite-state machine one inbound message at
//! a time. A pluggable serializer turns state values into bytes, a storage
//! backend keeps one serialized state per conversation, and the dialogue
//! cycle ties them together with exact atomicity guarantees.
//!
//! The crate also offers helpers for composing Markdown-styled messages.
pub mod dialogue;
pub mod errors;
pub mod markdown;
pub mod serializer;
pub mod state;
pub mod storage;
pub mod types;
