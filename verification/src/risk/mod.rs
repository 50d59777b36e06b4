//! Pre-quote guards and the loss kill switch.

pub mod guards;
pub mod risk_manager;
