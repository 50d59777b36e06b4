//! Arrival and fill counts per distance bucket, over a rolling window of
//! recent trades, from which the arrival parameters are fitted.

use vstd::prelude::*;
use std::collections::VecDeque;

verus! {

/// `x - 1`, or zero for zero.
pub open spec fn dec_sat(x: u64) -> u64 {
    if x > 0 { (x - 1) as u64 } else { 0 }
}

/// The counts after the oldest recorded event leaves the window: its bucket
/// loses an arrival (and a fill, for a fill), never going below zero.
pub open spec fn spec_evict(arrivals: Seq<u64>, fills: Seq<u64>, oldest: (usize, bool)) -> (Seq<u64>, Seq<u64>) {
    let b = oldest.0 as int;
    (
        arrivals.update(b, dec_sat(arrivals[b])),
        if oldest.1 { fills.update(b, dec_sat(fills[b])) } else { fills },
    )
}

/// Per-bucket arrival and fill counts over the recent trade history.
pub struct ArrivalCounts {
    n_arrivals: Vec<u64>,
    n_fills: Vec<u64>,
    history: VecDeque<(usize, bool)>,
    window: usize,
    min_trades: usize,
    total_trades: usize,
}

impl ArrivalCounts {
    #[verifier::type_invariant]
    spec fn inv(self) -> bool {
        &&& self.n_arrivals@.len() == self.n_fills@.len()
        &&& forall|k: int| 0 <= k < self.history@.len() ==> (#[trigger] self.history@[k]).0 < self.n_arrivals@.len()
        &&& forall|b: int| 0 <= b < self.n_arrivals@.len() ==> #[trigger] self.n_arrivals@[b] <= self.total_trades
    }

    /// Arrivals counted per bucket.
    pub closed spec fn arrivals(self) -> Seq<u64> {
        self.n_arrivals@
    }

    /// Fills counted per bucket.
    pub closed spec fn fills(self) -> Seq<u64> {
        self.n_fills@
    }

    /// Recorded events, oldest first: bucket and whether it was a fill.
    pub closed spec fn history(self) -> Seq<(usize, bool)> {
        self.history@
    }

    pub closed spec fn window(self) -> usize {
        self.window
    }

    pub closed spec fn min_trades(self) -> usize {
        self.min_trades
    }

    /// Trades recorded since the last reset.
    pub closed spec fn total_trades(self) -> usize {
        self.total_trades
    }

    /// Empty counts over `n_bins` buckets.
    pub fn new(n_bins: usize, window: usize, min_trades: usize) -> (r: Self)
        ensures
            r.arrivals() == Seq::new(n_bins as nat, |b: int| 0u64),
            r.fills() == Seq::new(n_bins as nat, |b: int| 0u64),
            r.history() == Seq::<(usize, bool)>::empty(),
            r.window() == window,
            r.min_trades() == min_trades,
            r.total_trades() == 0,
    {
        let mut n_arrivals: Vec<u64> = Vec::new();
        let mut n_fills: Vec<u64> = Vec::new();
        let mut b: usize = 0;
        while b < n_bins
            invariant
                b <= n_bins,
                n_arrivals@ == Seq::new(b as nat, |k: int| 0u64),
                n_fills@ == Seq::new(b as nat, |k: int| 0u64),
            decreases n_bins - b,
        {
            n_arrivals.push(0);
            n_fills.push(0);
            b = b + 1;
        }
        ArrivalCounts {
            n_arrivals,
            n_fills,
            history: VecDeque::new(),
            window,
            min_trades,
            total_trades: 0,
        }
    }

    pub fn n_bins(&self) -> (r: usize)
        ensures
            r == self.arrivals().len(),
    {
        self.n_arrivals.len()
    }

    /// Arrivals and fills counted in bucket `b`.
    pub fn bucket(&self, b: usize) -> (r: (u64, u64))
        requires
            b < self.arrivals().len(),
        ensures
            r == (self.arrivals()[b as int], self.fills()[b as int]),
    {
        proof { use_type_invariant(self); }
        (self.n_arrivals[b], self.n_fills[b])
    }

    pub fn total_trades_count(&self) -> (r: usize)
        ensures
            r == self.total_trades(),
    {
        self.total_trades
    }

    /// Enough trades have been seen to trust a fit.
    pub fn is_ready(&self) -> (r: bool)
        ensures
            r == (self.total_trades() >= self.min_trades()),
    {
        self.total_trades >= self.min_trades
    }

    /// Records a market trade in bucket `bucket`, or nothing when its
    /// distance falls outside every bucket. A full history first drops its
    /// oldest event and that event's counts.
    pub fn record_trade(&mut self, bucket: Option<usize>)
        requires
            bucket matches Some(b) ==> b < old(self).arrivals().len(),
            bucket is Some ==> old(self).total_trades() < usize::MAX,
        ensures
            final(self).window() == old(self).window(),
            final(self).min_trades() == old(self).min_trades(),
            bucket is None ==> *final(self) == *old(self),
            final(self).total_trades() == old(self).total_trades() + if bucket is Some { 1int } else { 0int },
            bucket matches Some(b) ==> {
                let full = old(self).history().len() >= old(self).window() && old(self).history().len() > 0;
                let counts = if full {
                    spec_evict(old(self).arrivals(), old(self).fills(), old(self).history()[0])
                } else {
                    (old(self).arrivals(), old(self).fills())
                };
                let hist = if full { old(self).history().drop_first() } else { old(self).history() };
                &&& final(self).history() == hist.push((b, false))
                &&& final(self).arrivals() == counts.0.update(b as int, (counts.0[b as int] + 1) as u64)
                &&& final(self).fills() == counts.1
                &&& final(self).total_trades() == old(self).total_trades() + 1
            },
    {
        proof { use_type_invariant(&*self); }
        if let Some(b) = bucket {
            let mut me = ArrivalCounts::new(0, 0, 0);
            std::mem::swap(&mut me, self);
            proof { use_type_invariant(&me); }
            let ArrivalCounts { n_arrivals: mut arrivals, n_fills: mut fills, mut history, window, min_trades, total_trades } = me;
            let ghost h0 = history@;
            if history.len() >= window {
                if let Some((old_b, is_fill)) = history.pop_front() {
                    assert(h0.subrange(1, h0.len() as int) =~= h0.drop_first());
                    let a = arrivals[old_b];
                    arrivals.set(old_b, if a > 0 { a - 1 } else { 0 });
                    if is_fill {
                        let f = fills[old_b];
                        fills.set(old_b, if f > 0 { f - 1 } else { 0 });
                    }
                }
            }
            history.push_back((b, false));
            let a = arrivals[b];
            assert(a <= total_trades);
            arrivals.set(b, a + 1);
            let total = total_trades + 1;
            assert forall|k: int| 0 <= k < arrivals@.len() implies #[trigger] arrivals@[k] <= total by {
                if k != b as int {
                    assert(arrivals@[k] <= old(self).n_arrivals@[k]);
                }
            }
            *self = ArrivalCounts {
                n_arrivals: arrivals,
                n_fills: fills,
                history,
                window,
                min_trades,
                total_trades: total,
            };
        }
    }

    /// Records one of our fills in bucket `bucket`, or nothing when its
    /// distance falls outside every bucket. Fills do not make room in the
    /// history.
    pub fn record_fill(&mut self, bucket: Option<usize>)
        requires
            bucket matches Some(b) ==> b < old(self).arrivals().len() && old(self).fills()[b as int] < u64::MAX,
        ensures
            final(self).window() == old(self).window(),
            final(self).min_trades() == old(self).min_trades(),
            final(self).arrivals() == old(self).arrivals(),
            final(self).total_trades() == old(self).total_trades(),
            bucket is None ==> final(self).fills() == old(self).fills()
                && final(self).history() == old(self).history(),
            bucket matches Some(b) ==> final(self).history() == old(self).history().push((b, true))
                && final(self).fills() == old(self).fills().update(b as int, (old(self).fills()[b as int] + 1) as u64),
    {
        proof { use_type_invariant(&*self); }
        if let Some(b) = bucket {
            let mut me = ArrivalCounts::new(0, 0, 0);
            std::mem::swap(&mut me, self);
            proof { use_type_invariant(&me); }
            let ArrivalCounts { n_arrivals, n_fills: mut fills, mut history, window, min_trades, total_trades } = me;
            history.push_back((b, true));
            let f = fills[b];
            fills.set(b, f + 1);
            *self = ArrivalCounts { n_arrivals, n_fills: fills, history, window, min_trades, total_trades };
        }
    }

    /// Forgets every count and the history.
    pub fn reset(&mut self)
        ensures
            final(self).arrivals() == Seq::new(old(self).arrivals().len(), |b: int| 0u64),
            final(self).fills() == Seq::new(old(self).fills().len(), |b: int| 0u64),
            final(self).history() == Seq::<(usize, bool)>::empty(),
            final(self).total_trades() == 0,
            final(self).window() == old(self).window(),
            final(self).min_trades() == old(self).min_trades(),
    {
        proof { use_type_invariant(&*self); }
        let n = self.n_arrivals.len();
        *self = ArrivalCounts::new(n, self.window, self.min_trades);
    }
}

} // verus!
