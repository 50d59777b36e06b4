//! Verified core of a GLFT market-making toolkit: historical-data layout
//! rules, timestamp handling, configuration values, risk state machines and
//! pre-quote guards.

pub mod aggressor;
pub mod config;
pub mod convert;
pub mod data;
pub mod deltas;
pub mod engine;
pub mod hist_parser;
pub mod logging;
pub mod market_state;
pub mod model;
pub mod rfc3339;
pub mod risk;
pub mod runner;
pub mod strategies;
pub mod text;
pub mod timestamp;
