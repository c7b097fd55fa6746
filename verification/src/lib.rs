//! Verified core of a virtual-currency ledger bot: currency valuation, the
//! end-of-day record worker, and the command front end's rules.

pub mod commands;
pub mod discord;
pub mod dispatch;
pub mod handlers;
pub mod response;
pub mod types;
pub mod utils;
pub mod workers;

pub use crate::response::CommandResponseObject;
