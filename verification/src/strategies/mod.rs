//! Trading strategies.

pub mod glft;
