//! Which sides the GLFT quoter quotes.

use vstd::prelude::*;
use crate::strategies::glft::risk::{RiskState, quoting_allowed};

verus! {

/// The sign of the current inventory.
#[derive(Debug, Clone, Copy, PartialEq, Eq)]
pub enum InventorySign {
    Long,
    Short,
    Flat,
}

/// Whether to quote at all, and on which sides.
#[derive(Debug, Clone, Copy, PartialEq, Eq)]
pub struct QuoteSides {
    pub should_quote: bool,
    pub bid: bool,
    pub ask: bool,
}

/// The sides quoted in a risk state: none unless quoting is allowed; beyond
/// the inventory limit only the side that reduces the position; else both.
pub open spec fn spec_quote_sides(state: RiskState, inventory: InventorySign) -> QuoteSides {
    if !quoting_allowed(state) {
        QuoteSides { should_quote: false, bid: false, ask: false }
    } else if state == RiskState::InventoryBreached && inventory == InventorySign::Long {
        QuoteSides { should_quote: true, bid: false, ask: true }
    } else if state == RiskState::InventoryBreached && inventory == InventorySign::Short {
        QuoteSides { should_quote: true, bid: true, ask: false }
    } else {
        QuoteSides { should_quote: true, bid: true, ask: true }
    }
}

/// Decides which sides to quote.
pub fn quote_sides(state: RiskState, inventory: InventorySign) -> (r: QuoteSides)
    ensures
        r == spec_quote_sides(state, inventory),
{
    match state {
        RiskState::Normal => QuoteSides { should_quote: true, bid: true, ask: true },
        RiskState::InventoryBreached => match inventory {
            InventorySign::Long => QuoteSides { should_quote: true, bid: false, ask: true },
            InventorySign::Short => QuoteSides { should_quote: true, bid: true, ask: false },
            InventorySign::Flat => QuoteSides { should_quote: true, bid: true, ask: true },
        },
        _ => QuoteSides { should_quote: false, bid: false, ask: false },
    }
}

/// Beyond the inventory limit the quoter never adds to the position: a long
/// book gets no bid and a short book no ask.
pub proof fn lemma_breach_only_reduces(inventory: InventorySign)
    ensures
        inventory == InventorySign::Long ==> !spec_quote_sides(RiskState::InventoryBreached, inventory).bid,
        inventory == InventorySign::Short ==> !spec_quote_sides(RiskState::InventoryBreached, inventory).ask,
        spec_quote_sides(RiskState::InventoryBreached, inventory).should_quote,
{
}

/// While paused or in a volatility spike, nothing is quoted.
pub proof fn lemma_blocked_states_quote_nothing(inventory: InventorySign)
    ensures
        !spec_quote_sides(RiskState::Paused, inventory).should_quote,
        !spec_quote_sides(RiskState::HighVolatility, inventory).should_quote,
        !spec_quote_sides(RiskState::Paused, inventory).bid && !spec_quote_sides(RiskState::Paused, inventory).ask,
        !spec_quote_sides(RiskState::HighVolatility, inventory).bid
            && !spec_quote_sides(RiskState::HighVolatility, inventory).ask,
{
}

/// In the normal state both sides are quoted, whatever the inventory; a
/// quoting state drops a side only beyond the inventory limit, and then only
/// the side that would grow the position; a flat book is quoted on both
/// sides in every quoting state.
pub proof fn lemma_sides_dropped_only_on_breach(state: RiskState, inventory: InventorySign)
    ensures
        spec_quote_sides(RiskState::Normal, inventory) == (QuoteSides { should_quote: true, bid: true, ask: true }),
        spec_quote_sides(state, inventory).should_quote <==> (state == RiskState::Normal || state == RiskState::InventoryBreached),
        spec_quote_sides(state, inventory).should_quote && !spec_quote_sides(state, inventory).bid
            ==> state == RiskState::InventoryBreached && inventory == InventorySign::Long,
        spec_quote_sides(state, inventory).should_quote && !spec_quote_sides(state, inventory).ask
            ==> state == RiskState::InventoryBreached && inventory == InventorySign::Short,
        spec_quote_sides(state, inventory).should_quote ==> spec_quote_sides(state, inventory).bid || spec_quote_sides(state, inventory).ask,
{
}

} // verus!
