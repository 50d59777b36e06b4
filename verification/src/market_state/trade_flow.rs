//! Bookkeeping of the trade-flow indicators: fills waiting for their
//! markout horizon.

use vstd::prelude::*;
use std::collections::VecDeque;

verus! {

/// One update of the pending fills: every countdown goes down by one; the
/// fills whose countdown reaches zero or below leave, in order, and the
/// others stay, in order.
pub open spec fn spec_tick<T>(s: Seq<(T, i32)>) -> (Seq<(T, i32)>, Seq<T>)
    decreases s.len(),
{
    if s.len() == 0 {
        (Seq::empty(), Seq::empty())
    } else {
        let prev = spec_tick(s.drop_last());
        let e = s.last();
        let t = e.1 - 1;
        if t <= 0 {
            (prev.0, prev.1.push(e.0))
        } else {
            (prev.0.push((e.0, t as i32)), prev.1)
        }
    }
}

/// Fills waiting a fixed number of price updates before their markout is
/// taken.
pub struct MarkoutQueue<T: Copy> {
    horizon: i32,
    pending: Vec<(T, i32)>,
}

impl<T: Copy> MarkoutQueue<T> {
    #[verifier::type_invariant]
    spec fn inv(self) -> bool {
        forall|i: int| 0 <= i < self.pending@.len()
            ==> (#[trigger] self.pending@[i]).1 == self.horizon || self.pending@[i].1 > 0
    }

    /// The waiting fills, oldest first, each with the price updates it still
    /// waits for.
    pub closed spec fn pending(self) -> Seq<(T, i32)> {
        self.pending@
    }

    pub closed spec fn horizon(self) -> i32 {
        self.horizon
    }

    /// An empty queue whose fills wait `horizon` price updates.
    pub fn new(horizon: i32) -> (r: Self)
        ensures
            r.pending() == Seq::<(T, i32)>::empty(),
            r.horizon() == horizon,
    {
        MarkoutQueue { horizon, pending: Vec::new() }
    }

    /// Queues a fill.
    pub fn record_fill(&mut self, fill: T)
        ensures
            final(self).pending() == old(self).pending().push((fill, old(self).horizon())),
            final(self).horizon() == old(self).horizon(),
    {
        proof { use_type_invariant(&*self); }
        let h = self.horizon;
        let mut pending: Vec<(T, i32)> = Vec::new();
        std::mem::swap(&mut pending, &mut self.pending);
        pending.push((fill, h));
        self.pending = pending;
    }

    /// How many fills are waiting.
    pub fn pending_count(&self) -> (r: usize)
        ensures
            r == self.pending().len(),
    {
        self.pending.len()
    }

    /// Counts one price update: returns the fills whose wait is over, in
    /// order, and keeps the others. A fill still waiting its full horizon
    /// counts down from it, which must stay within `i32`.
    pub fn tick(&mut self) -> (done: Vec<T>)
        requires
            old(self).horizon() > i32::MIN || old(self).pending().len() == 0,
        ensures
            final(self).pending() == spec_tick(old(self).pending()).0,
            done@ == spec_tick(old(self).pending()).1,
            final(self).horizon() == old(self).horizon(),
    {
        proof { use_type_invariant(&*self); }
        let mut remaining: Vec<(T, i32)> = Vec::new();
        let mut done: Vec<T> = Vec::new();
        let n = self.pending.len();
        let mut i: usize = 0;
        proof {
            assert forall|k: int| 0 <= k < self.pending@.len() implies (#[trigger] self.pending@[k]).1 > i32::MIN by {
                assert(self.pending@[k].1 == self.horizon || self.pending@[k].1 > 0);
            }
        }
        while i < n
            invariant
                n == self.pending@.len(),
                i <= n,
                forall|k: int| 0 <= k < self.pending@.len() ==> (#[trigger] self.pending@[k]).1 > i32::MIN,
                (remaining@, done@) == spec_tick(self.pending@.take(i as int)),
                forall|k: int| 0 <= k < remaining@.len() ==> (#[trigger] remaining@[k]).1 > 0,
            decreases n - i,
        {
            let (fill, ticks) = self.pending[i];
            proof {
                let t = self.pending@.take(i + 1);
                assert(t.drop_last() =~= self.pending@.take(i as int));
                assert(t.last() == self.pending@[i as int]);
            }
            let t = ticks - 1;
            if t <= 0 {
                done.push(fill);
            } else {
                remaining.push((fill, t));
            }
            i = i + 1;
        }
        proof {
            assert(self.pending@.take(n as int) =~= self.pending@);
        }
        self.pending = remaining;
        done
    }

    /// Forgets every waiting fill.
    pub fn clear(&mut self)
        ensures
            final(self).pending() == Seq::<(T, i32)>::empty(),
            final(self).horizon() == old(self).horizon(),
    {
        proof { use_type_invariant(&*self); }
        self.pending = Vec::new();
    }
}

/// The markout average is trusted once it rests on a fifth of its window of
/// markouts, and on at least one.
pub open spec fn spec_markouts_initialized(n_markouts: usize, window: usize) -> bool {
    let need: int = if window / 5 >= 1 { (window / 5) as int } else { 1 };
    n_markouts >= need
}

/// Whether `n_markouts` recorded markouts suffice for a window of `window`.
pub fn markouts_initialized(n_markouts: usize, window: usize) -> (r: bool)
    ensures
        r == spec_markouts_initialized(n_markouts, window),
{
    let need = if window / 5 >= 1 { window / 5 } else { 1 };
    n_markouts >= need
}

/// Every fill leaves the queue exactly once: an update splits the waiting
/// fills into those that stay and those that are done, losing none.
pub proof fn lemma_tick_conserves<T>(s: Seq<(T, i32)>)
    ensures
        spec_tick(s).0.len() + spec_tick(s).1.len() == s.len(),
    decreases s.len(),
{
    if s.len() > 0 {
        lemma_tick_conserves(s.drop_last());
    }
}

/// A fill recorded with a horizon of `h` updates is done at the `h`-th
/// update after it, and waits before: with one fill queued, its countdown
/// just drops by one while it stays above zero.
pub proof fn lemma_tick_single<T>(f: T, t: i32)
    requires
        t > i32::MIN,
    ensures
        t - 1 <= 0 ==> spec_tick(seq![(f, t)]) == (Seq::<(T, i32)>::empty(), seq![f]),
        t - 1 > 0 ==> spec_tick(seq![(f, t)]) == (seq![(f, (t - 1) as i32)], Seq::<T>::empty()),
{
    let s = seq![(f, t)];
    assert(s.drop_last() =~= Seq::<(T, i32)>::empty());
    assert(spec_tick(s.drop_last()) == (Seq::<(T, i32)>::empty(), Seq::<T>::empty()));
    if t - 1 <= 0 {
        assert(spec_tick(s).1 =~= seq![f]);
    } else {
        assert(spec_tick(s).0 =~= seq![(f, (t - 1) as i32)]);
    }
}

/// The spans the arrival-rate spike test compares, once `2 *
/// spike_window` arrival times are held: the span of the recent half of the
/// times, the span of the older half, and the number of gaps each is
/// averaged over (at least one).
pub open spec fn spec_arrival_spans(times: Seq<u64>, spike_window: usize) -> Option<(u64, u64, usize)> {
    let n = times.len() as int;
    if n >= 2 * spike_window {
        let half = n / 2;
        Some((
            (times[n - 1] - times[n - half]) as u64,
            (times[half - 1] - times[0]) as u64,
            (if half - 1 >= 1 { half - 1 } else { 1 }) as usize,
        ))
    } else {
        None
    }
}

/// What the spike test needs of the arrival times: when it runs, at least
/// two of them, each half's span non-negative.
pub open spec fn arrival_spans_defined(times: Seq<u64>, spike_window: usize) -> bool {
    let n = times.len() as int;
    n >= 2 * spike_window ==> {
        let half = n / 2;
        &&& n >= 2
        &&& times[n - half] <= times[n - 1]
        &&& times[0] <= times[half - 1]
    }
}

/// Measures the recent and older spans of the arrival times held, oldest
/// first, or `None` before `2 * spike_window` of them are held.
pub fn arrival_spans(times: &VecDeque<u64>, spike_window: usize) -> (r: Option<(u64, u64, usize)>)
    requires
        spike_window <= usize::MAX / 2,
        arrival_spans_defined(times@, spike_window),
    ensures
        r == spec_arrival_spans(times@, spike_window),
{
    let n = times.len();
    if n >= spike_window * 2 {
        let half = n / 2;
        let recent = times[n - 1] - times[n - 1 - half + 1];
        let baseline = times[half - 1] - times[0];
        let gaps = if half - 1 >= 1 { half - 1 } else { 1 };
        Some((recent, baseline, gaps))
    } else {
        None
    }
}

} // verus!
