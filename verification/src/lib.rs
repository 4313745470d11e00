//! The core of a chat automation agent: a registry of custom commands that
//! many dispatches share, a moderation filter, the interpreter of `!cmd`
//! messages, and the dispatcher that takes each message through its stages.
//! The gateway, the message log and the HTTP client stay with the caller,
//! who performs the actions that the dispatcher names.

pub mod command;
pub mod dispatch;
pub mod event;
pub mod filter;
pub mod registry;
pub mod text;
