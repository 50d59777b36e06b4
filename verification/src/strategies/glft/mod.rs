//! Decisions of the GLFT market-making strategy.

pub mod quoter;
pub mod risk;
