//! Layout of order-book delta batches: which delta stands for which input
//! level, with which action, sequence number and flags.

use vstd::prelude::*;

verus! {

/// What a delta does to the book.
#[derive(Debug, Clone, Copy, PartialEq, Eq)]
pub enum BookActionKind {
    Add,
    Update,
    Delete,
    Clear,
}

/// The input a delta stands for: the clearing of the book, or the level at
/// an index of the message's bids or asks.
#[derive(Debug, Clone, Copy, PartialEq, Eq)]
pub enum DeltaSource {
    Clear,
    Bid(usize),
    Ask(usize),
}

/// One delta of a batch, without its price and size.
#[derive(Debug, Clone, Copy, PartialEq, Eq)]
pub struct DeltaSlot {
    pub source: DeltaSource,
    pub action: BookActionKind,
    pub sequence: u64,
    /// The delta carries the snapshot flag.
    pub snapshot_flag: bool,
    /// The delta carries the last-in-batch flag.
    pub last_flag: bool,
}

/// The shape of one order-book message: whether it is a snapshot, and for
/// each bid and ask level whether its quantity counts as present (the
/// positive, or non-zero, test of the format at hand).
#[derive(Debug, Clone, PartialEq, Eq)]
pub struct BookMessage {
    pub is_snapshot: bool,
    pub bids: Vec<bool>,
    pub asks: Vec<bool>,
}

/// The source of the `j`-th level of a message, bids first.
pub open spec fn level_source(nbids: int, j: int) -> DeltaSource {
    if j < nbids { DeltaSource::Bid(j as usize) } else { DeltaSource::Ask((j - nbids) as usize) }
}

/// The present-quantity test of the `j`-th level of a message, bids first.
pub open spec fn level_present(bids: Seq<bool>, asks: Seq<bool>, j: int) -> bool {
    if j < bids.len() { bids[j] } else { asks[j - bids.len()] }
}

/// Number of deltas a message yields: a clearing delta for a snapshot, then
/// one per level.
pub open spec fn message_len(m: BookMessage) -> nat {
    (if m.is_snapshot { 1nat } else { 0nat }) + m.bids@.len() + m.asks@.len()
}

/// Exactly the last slot of a batch carries the last-in-batch flag.
pub open spec fn last_flag_only_on_last(slots: Seq<DeltaSlot>) -> bool {
    forall|i: int| 0 <= i < slots.len() ==> (#[trigger] slots[i].last_flag <==> i == slots.len() - 1)
}

/// A delta slot with the timestamp it is stamped with.
#[derive(Debug, Clone, Copy, PartialEq, Eq)]
pub struct TimedSlot {
    pub slot: DeltaSlot,
    pub ts: u64,
}

} // verus!
