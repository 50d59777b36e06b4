//! Bookkeeping of the market-state indicators: rolling windows of recent
//! observations and the queue of fills awaiting their markout.

pub mod trade_flow;
pub mod window;
