//! Bookkeeping of the online GLFT parameter estimator.

pub mod estimator;
