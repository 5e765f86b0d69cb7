//! Command routing for a chat bot: how an incoming message is read as a
//! command, and what the bot does in answer, as plain values that the
//! program around the library acts upon.

pub mod command;
pub mod channel;
pub mod handler;
