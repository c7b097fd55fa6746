//! Plain data for what the chat service sends to the bot and what the bot
//! sends back: the part of an interaction that the handlers read, and the
//! commands, components and embeds that they build.

pub mod builder;
pub mod interaction;
