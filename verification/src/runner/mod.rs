//! Run configuration of the backtest runner.

pub mod backtest;
