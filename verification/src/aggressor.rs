//! Which side of a trade took liquidity.

use vstd::prelude::*;

verus! {

/// The aggressor of a trade, as the data catalog records it.
#[derive(Debug, Clone, Copy, PartialEq, Eq)]
pub enum AggressorKind {
    NoAggressor,
    Buyer,
    Seller,
}

} // verus!
