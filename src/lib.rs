//! A bounded, single-consumer channel that never blocks its senders: when the
//! buffer is full the oldest unread message is dropped to make room for the
//! newest, and the next message read is tagged so the receiver learns of the
//! loss.
pub mod common;
pub mod unsync;

pub use common::{Async, Item, SendError};
