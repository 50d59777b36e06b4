//! A window over the most recent observations.

use vstd::prelude::*;
use std::collections::VecDeque;

verus! {

/// The most recent observations, oldest first, bounded by a capacity.
pub struct RollingWindow<T> {
    items: VecDeque<T>,
    capacity: usize,
}

/// The window after a push that first makes room: the oldest observation
/// goes when the window holds `capacity` or more.
pub open spec fn spec_push_evicting<T>(s: Seq<T>, capacity: usize, x: T) -> Seq<T> {
    (if s.len() >= capacity && s.len() > 0 { s.drop_first() } else { s }).push(x)
}

/// The window after a push that trims afterwards: the oldest observation
/// goes when the window then holds more than `capacity`.
pub open spec fn spec_push_trimming<T>(s: Seq<T>, capacity: usize, x: T) -> Seq<T> {
    let pushed = s.push(x);
    if pushed.len() > capacity { pushed.drop_first() } else { pushed }
}

impl<T> RollingWindow<T> {
    /// The observations held, oldest first.
    pub closed spec fn contents(self) -> Seq<T> {
        self.items@
    }

    pub closed spec fn spec_capacity(self) -> usize {
        self.capacity
    }

    /// An empty window of the given capacity.
    pub fn new(capacity: usize) -> (r: Self)
        ensures
            r.contents() == Seq::<T>::empty(),
            r.spec_capacity() == capacity,
    {
        RollingWindow { items: VecDeque::new(), capacity }
    }

    pub fn capacity(&self) -> (r: usize)
        ensures
            r == self.spec_capacity(),
    {
        self.capacity
    }

    pub fn len(&self) -> (r: usize)
        ensures
            r == self.contents().len(),
    {
        self.items.len()
    }

    pub fn is_empty(&self) -> (r: bool)
        ensures
            r == (self.contents().len() == 0),
    {
        self.items.len() == 0
    }

    /// The observations held, oldest first.
    pub fn items(&self) -> (r: &VecDeque<T>)
        ensures
            r@ == self.contents(),
    {
        &self.items
    }

    /// Adds an observation after dropping the oldest one if the window is
    /// full (holds `capacity` or more); returns the dropped one.
    pub fn push_evicting(&mut self, x: T) -> (evicted: Option<T>)
        ensures
            final(self).contents() == spec_push_evicting(old(self).contents(), old(self).spec_capacity(), x),
            final(self).spec_capacity() == old(self).spec_capacity(),
            evicted == if old(self).contents().len() >= old(self).spec_capacity() && old(self).contents().len() > 0 {
                Some(old(self).contents()[0])
            } else {
                None::<T>
            },
    {
        let evicted = if self.items.len() >= self.capacity {
            self.items.pop_front()
        } else {
            None
        };
        proof {
            let s = old(self).contents();
            if s.len() >= self.capacity && s.len() > 0 {
                assert(s.subrange(1, s.len() as int) =~= s.drop_first());
            }
        }
        self.items.push_back(x);
        evicted
    }

    /// Adds an observation, then drops the oldest one if the window holds
    /// more than `capacity`; returns the dropped one.
    pub fn push_trimming(&mut self, x: T) -> (evicted: Option<T>)
        ensures
            final(self).contents() == spec_push_trimming(old(self).contents(), old(self).spec_capacity(), x),
            final(self).spec_capacity() == old(self).spec_capacity(),
            evicted == if old(self).contents().len() + 1 > old(self).spec_capacity() {
                Some(old(self).contents().push(x)[0])
            } else {
                None::<T>
            },
    {
        self.items.push_back(x);
        if self.items.len() > self.capacity {
            let e = self.items.pop_front();
            proof {
                let p = old(self).contents().push(x);
                assert(p.subrange(1, p.len() as int) =~= p.drop_first());
            }
            e
        } else {
            None
        }
    }

    /// Forgets every observation.
    pub fn clear(&mut self)
        ensures
            final(self).contents() == Seq::<T>::empty(),
            final(self).spec_capacity() == old(self).spec_capacity(),
    {
        self.items.clear();
    }
}

/// A window that never held more than its capacity (at least one) still
/// does not after an evicting push, and holds the new observation last
/// after the same older observations, in the same order.
pub proof fn lemma_evicting_keeps_recent<T>(s: Seq<T>, capacity: usize, x: T)
    requires
        capacity >= 1,
        s.len() <= capacity,
    ensures
        spec_push_evicting(s, capacity, x).len() <= capacity,
        spec_push_evicting(s, capacity, x).last() == x,
        spec_push_evicting(s, capacity, x) == s.push(x).subrange(
            s.push(x).len() - spec_push_evicting(s, capacity, x).len(),
            s.push(x).len() as int,
        ),
{
    let p = s.push(x);
    let r = spec_push_evicting(s, capacity, x);
    assert(r =~= p.subrange(p.len() - r.len(), p.len() as int));
}

/// The same for a trimming push: it holds at most `capacity` observations,
/// the most recent ones in order.
pub proof fn lemma_trimming_keeps_recent<T>(s: Seq<T>, capacity: usize, x: T)
    requires
        s.len() <= capacity,
    ensures
        spec_push_trimming(s, capacity, x).len() <= capacity,
        spec_push_trimming(s, capacity, x) == s.push(x).subrange(
            s.push(x).len() - spec_push_trimming(s, capacity, x).len(),
            s.push(x).len() as int,
        ),
{
    let p = s.push(x);
    let r = spec_push_trimming(s, capacity, x);
    assert(r =~= p.subrange(p.len() - r.len(), p.len() as int));
}

} // verus!
