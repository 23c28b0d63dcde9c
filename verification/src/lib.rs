//! Navigation and view state for a two-pane mailbox viewer.
//!
//! A mailbox is an ordered, fixed sequence of messages. The viewer keeps a
//! selected message, an active pane and a scroll offset, and moves between
//! messages either by position or along reply threads that are inferred from
//! the messages' identifier and reply-reference headers.

pub mod message;
pub mod thread;
pub mod app;
pub mod render;
pub mod laws;

pub use crate::app::{Action, App, Command, Key, Pane, Size, ViewState};
pub use crate::message::{HeaderKind, HeaderValue, Message, Part};
pub use crate::render::RenderPlan;
