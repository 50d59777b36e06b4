//! Pre-quote sanity guards.

use vstd::prelude::*;

verus! {

/// Age in whole milliseconds of data stamped `ts_ns` at time `now_ns`; data
/// stamped in the future is of age zero.
pub open spec fn age_ms(ts_ns: u64, now_ns: u64) -> int {
    if now_ns >= ts_ns { (now_ns - ts_ns) / 1_000_000 } else { 0 }
}

/// Passes unless the market snapshot, stamped `snapshot_ts_ns`, is more than
/// `stale_ms` milliseconds old at `now_ns`.
pub fn check_stale_data(snapshot_ts_ns: u64, now_ns: u64, stale_ms: u64) -> (r: (bool, &'static str))
    ensures
        r.0 == (age_ms(snapshot_ts_ns, now_ns) <= stale_ms),
        r.1@ == if r.0 { ""@ } else { "stale data"@ },
{
    let age_ms = now_ns.saturating_sub(snapshot_ts_ns) / 1_000_000;
    if age_ms > stale_ms {
        (false, "stale data")
    } else {
        (true, "")
    }
}

/// Passes unless either side of the ladder holds more than `max_per_side`
/// orders.
pub fn check_order_count(n_bids: usize, n_asks: usize, max_per_side: usize) -> (r: (bool, &'static str))
    ensures
        r.0 == (n_bids <= max_per_side && n_asks <= max_per_side),
        r.1@ == if r.0 { ""@ } else { "too many orders per side"@ },
{
    if n_bids > max_per_side || n_asks > max_per_side {
        (false, "too many orders per side")
    } else {
        (true, "")
    }
}

/// The limits the guards read from the risk configuration.
#[derive(Debug, Clone, Copy, PartialEq, Eq)]
pub struct GuardLimits {
    pub stale_data_ms: u64,
    pub max_orders_per_side: usize,
}

/// Runs every pre-quote guard in order — stale data, book spread, self-trade,
/// order count — and reports the first that fails. The book-spread and
/// self-trade checks compare prices and come in already evaluated.
pub fn run_all_guards(
    snapshot_ts_ns: u64,
    now_ns: u64,
    book_spread: (bool, &'static str),
    self_trade: (bool, &'static str),
    n_bids: usize,
    n_asks: usize,
    limits: &GuardLimits,
) -> (r: (bool, &'static str))
    ensures
        !(age_ms(snapshot_ts_ns, now_ns) <= limits.stale_data_ms) ==> !r.0 && r.1@ == "stale data"@,
        age_ms(snapshot_ts_ns, now_ns) <= limits.stale_data_ms && !book_spread.0 ==> r == book_spread,
        age_ms(snapshot_ts_ns, now_ns) <= limits.stale_data_ms && book_spread.0 && !self_trade.0
            ==> r == self_trade,
        age_ms(snapshot_ts_ns, now_ns) <= limits.stale_data_ms && book_spread.0 && self_trade.0
            && !(n_bids <= limits.max_orders_per_side && n_asks <= limits.max_orders_per_side)
            ==> !r.0 && r.1@ == "too many orders per side"@,
        r.0 == (age_ms(snapshot_ts_ns, now_ns) <= limits.stale_data_ms && book_spread.0 && self_trade.0
            && n_bids <= limits.max_orders_per_side && n_asks <= limits.max_orders_per_side),
        r.0 ==> r.1@ == ""@,
{
    let stale = check_stale_data(snapshot_ts_ns, now_ns, limits.stale_data_ms);
    let count = check_order_count(n_bids, n_asks, limits.max_orders_per_side);
    if !stale.0 {
        stale
    } else if !book_spread.0 {
        book_spread
    } else if !self_trade.0 {
        self_trade
    } else if !count.0 {
        count
    } else {
        (true, "")
    }
}

} // verus!
