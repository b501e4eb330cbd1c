//! Cross-exchange arbitrage watcher: tracks the best bid and ask of one
//! trading pair on two venues and reports whenever one venue's best bid
//! exceeds the other's best ask.
//!
//! Prices are exact scaled integers (a fixed number of decimal places chosen
//! by the caller), never binary floating point, so comparisons and profit
//! arithmetic are exact.

pub mod book;
pub mod cycle;
pub mod detect;
pub mod market;
pub mod state;
