//! A command processor for a file-serving chat actor.
//!
//! Chat text carries command blocks in a small markup. The library finds the
//! blocks, checks each command against the session's permissions, says which
//! calls on the file resource a command needs and what to report once they
//! have been answered, and follows the message chain that the text comes
//! from.

pub mod chain;
pub mod command;
pub mod dispatch;
pub mod executor;
pub mod extract;
pub mod json;
pub mod loader;
pub mod markup;
pub mod permission;
pub mod session;
pub mod text;
pub mod wording;
