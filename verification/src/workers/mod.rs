//! Background workers.

pub mod chart;
pub mod clock;
pub mod laws;
pub mod records;
pub mod snapshot;
