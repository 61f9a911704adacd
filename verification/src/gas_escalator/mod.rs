//! Bumping the fees of transactions that are stuck.

pub mod monitored;
pub mod outcome;
pub mod price_laws;
pub mod round;
pub mod round_laws;
pub mod sending;
pub mod task;
