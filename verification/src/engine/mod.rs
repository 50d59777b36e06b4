//! Simulated execution engine types.

pub mod event;
