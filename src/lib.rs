//! Smarts: a uniform interface to locally hosted language models.
//!
//! A `Smarts` handle names a model; it hands out `ConversationBuilder`s that
//! collect role-tagged messages, validate them and format them into a prompt.
pub mod conversation;
pub mod error;
pub mod models;
pub mod text;

pub use conversation::{ConversationBuilder, Message};
pub use error::{Result, SmartsError};
pub use models::Smarts;
