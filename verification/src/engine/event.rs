//! Market and order event vocabulary.

use vstd::prelude::*;

verus! {

/// Side of a market trade.
#[derive(Debug, Clone, Copy, PartialEq, Eq)]
pub enum TradeSide {
    Buy,
    Sell,
}

/// Side of one of our orders.
#[derive(Debug, Clone, Copy, PartialEq, Eq)]
pub enum OrderSide {
    Buy,
    Sell,
}

} // verus!
