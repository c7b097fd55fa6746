//! The ledger's queries and mutations, and the bot's own commands.

pub mod currency;
pub mod manage;
pub mod meta;
pub mod ping;
pub mod query;
pub mod version;
