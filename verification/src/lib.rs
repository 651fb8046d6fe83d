//! Accounting records for liquidation swaps: block windows, log decoding,
//! asset lookup, fee and amount formatting, and the rows that a sink writes.

pub mod bot;
pub mod config;
pub mod constants;
pub mod primitives;
pub mod scanner;
pub mod sink;
pub mod units;
