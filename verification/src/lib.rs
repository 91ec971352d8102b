//! Relays code snippets from chat commands to a remote playground: the
//! extraction of the code from a command's argument, the program that is
//! submitted, and the bounded message that reports what came back.

pub mod command;
pub mod extract;
pub mod format;
pub mod link;
pub mod text;
