//! Rules of the OKX-to-catalog converter.

use vstd::prelude::*;
use crate::aggressor::AggressorKind;
use crate::deltas::{
    BookActionKind, BookMessage, DeltaSlot, DeltaSource, TimedSlot, level_present, level_source,
    message_len,
};
use crate::text::{parse_u64, spec_parse_u64, str_equals, str_lowercase, to_lowercase};
use crate::timestamp::{next_timestamp, spec_next_timestamp, TimestampError, NANOS_PER_MILLI};

verus! {

/// Converts a millisecond timestamp written in decimal into nanoseconds.
pub fn to_ns(ms: &str) -> (r: Result<u64, TimestampError>)
    requires
        spec_parse_u64(ms@) matches Some(v) ==> v * 1_000_000 <= u64::MAX,
    ensures
        match spec_parse_u64(ms@) {
            Some(v) => r == Ok::<u64, TimestampError>((v * 1_000_000) as u64),
            None => r == Err::<u64, TimestampError>(TimestampError::InvalidInteger),
        },
{
    match parse_u64(ms) {
        Some(v) => Ok(v * NANOS_PER_MILLI),
        None => Err(TimestampError::InvalidInteger),
    }
}

/// The `i`-th delta of a converted order-book line. A snapshot clears the
/// book and then adds every level, all flagged as snapshot; an update
/// updates each level whose size is non-zero and deletes the others. The
/// sequence number is always zero and only the last delta carries the
/// last-in-batch flag.
pub open spec fn ob_line_slot(m: BookMessage, i: int) -> DeltaSlot {
    let last = i == message_len(m) - 1;
    if m.is_snapshot {
        if i == 0 {
            DeltaSlot {
                source: DeltaSource::Clear,
                action: BookActionKind::Clear,
                sequence: 0,
                snapshot_flag: true,
                last_flag: last,
            }
        } else {
            DeltaSlot {
                source: level_source(m.bids@.len() as int, i - 1),
                action: BookActionKind::Add,
                sequence: 0,
                snapshot_flag: true,
                last_flag: last,
            }
        }
    } else {
        DeltaSlot {
            source: level_source(m.bids@.len() as int, i),
            action: if level_present(m.bids@, m.asks@, i) {
                BookActionKind::Update
            } else {
                BookActionKind::Delete
            },
            sequence: 0,
            snapshot_flag: false,
            last_flag: last,
        }
    }
}

/// What a line needs so that stamping its deltas cannot run past `u64::MAX`.
pub open spec fn ob_line_fits(m: BookMessage, ts_base: u64, last_ts: u64) -> bool {
    message_len(m) > 0 ==> (last_ts < u64::MAX
        && spec_next_timestamp(ts_base, last_ts) + message_len(m) - 1 <= u64::MAX)
}

/// Lays out and stamps the deltas of one order-book line: `m.bids` and
/// `m.asks` tell for each level whether its size is non-zero. Delta `i` is
/// stamped `i` past the next timestamp of the series that `last_ts` ends.
pub fn layout_ob_line(m: &BookMessage, ts_base: u64, last_ts: &mut u64) -> (r: Vec<TimedSlot>)
    requires
        ob_line_fits(*m, ts_base, *old(last_ts)),
    ensures
        r@.len() == message_len(*m),
        forall|i: int| 0 <= i < r@.len() ==> (#[trigger] r@[i]).slot == ob_line_slot(*m, i)
            && r@[i].ts == spec_next_timestamp(ts_base, *old(last_ts)) + i,
        *final(last_ts) == if r@.len() == 0 {
            *old(last_ts) as int
        } else {
            spec_next_timestamp(ts_base, *old(last_ts)) + r@.len() - 1
        },
{
    let ghost l0 = *last_ts;
    let ghost t0 = spec_next_timestamp(ts_base, l0);
    let nb = m.bids.len() as u64;
    let na = m.asks.len() as u64;
    let head: u64 = if m.is_snapshot { 1 } else { 0 };
    let total: u64 = head + nb + na;
    let mut out: Vec<TimedSlot> = Vec::new();
    if m.is_snapshot {
        let ts = next_timestamp(ts_base, last_ts);
        out.push(TimedSlot {
            slot: DeltaSlot {
                source: DeltaSource::Clear,
                action: BookActionKind::Clear,
                sequence: 0,
                snapshot_flag: true,
                last_flag: total == 1,
            },
            ts,
        });
    }
    let mut j: u64 = 0;
    while j < nb + na
        invariant
            nb == m.bids@.len(),
            na == m.asks@.len(),
            nb == m.bids.len(),
            na == m.asks.len(),
            head == (if m.is_snapshot { 1int } else { 0int }),
            total == message_len(*m),
            j <= nb + na,
            ob_line_fits(*m, ts_base, l0),
            t0 == spec_next_timestamp(ts_base, l0),
            out@.len() == head + j,
            out@.len() > 0 ==> *last_ts == t0 + out@.len() - 1,
            out@.len() == 0 ==> *last_ts == l0,
            forall|i: int| 0 <= i < out@.len() ==> (#[trigger] out@[i]).slot == ob_line_slot(*m, i)
                && out@[i].ts == t0 + i,
        decreases nb + na - j,
    {
        let (source, present) = if j < nb {
            let idx = j as usize;
            (DeltaSource::Bid(idx), m.bids[idx])
        } else {
            let idx = (j - nb) as usize;
            (DeltaSource::Ask(idx), m.asks[idx])
        };
        let action = if m.is_snapshot {
            BookActionKind::Add
        } else if present {
            BookActionKind::Update
        } else {
            BookActionKind::Delete
        };
        let ghost i = out@.len() as int;
        let ts = next_timestamp(ts_base, last_ts);
        out.push(TimedSlot {
            slot: DeltaSlot {
                source,
                action,
                sequence: 0,
                snapshot_flag: m.is_snapshot,
                last_flag: head + j + 1 == total,
            },
            ts,
        });
        assert(out@[i].slot == ob_line_slot(*m, i));
        j = j + 1;
    }
    out
}

/// Stamped deltas of one line run strictly upwards, all past the last
/// timestamp handed out before.
pub proof fn lemma_ob_line_timestamps_increase(r: Seq<TimedSlot>, t0: int, last: int)
    requires
        t0 > last,
        forall|i: int| 0 <= i < r.len() ==> (#[trigger] r[i]).ts == t0 + i,
    ensures
        forall|i: int, j: int| 0 <= i < j < r.len() ==> r[i].ts < r[j].ts,
        forall|i: int| 0 <= i < r.len() ==> r[i].ts > last,
{
}

/// Reads the side word of a converted trade: `buy`, in any case, is a
/// buyer-initiated trade and every other word a seller-initiated one.
pub fn aggressor_from_lowercase(lower: &str) -> (r: AggressorKind)
    ensures
        r == if lower@ == "buy"@ { AggressorKind::Buyer } else { AggressorKind::Seller },
{
    if str_equals(lower, "buy") { AggressorKind::Buyer } else { AggressorKind::Seller }
}

/// Reads the side word of a converted trade, case-insensitively.
pub fn trade_aggressor(side: &str) -> (r: AggressorKind)
    ensures
        r == if str_lowercase(side@) == "buy"@ { AggressorKind::Buyer } else { AggressorKind::Seller },
{
    let lower = to_lowercase(side);
    aggressor_from_lowercase(lower.as_str())
}

/// Every level of a converted line yields one delta, bids first and then
/// asks, in order, after the clearing delta of a snapshot. In a snapshot each
/// level is added and flagged as snapshot; in an update a level whose size
/// is non-zero is updated and one whose size is zero is deleted, on either
/// side, and nothing is flagged as snapshot.
pub proof fn lemma_ob_line_levels(m: BookMessage)
    ensures
        forall|j: int| 0 <= j < m.bids@.len() ==> {
            let off: int = if m.is_snapshot { 1 } else { 0 };
            let d = ob_line_slot(m, off + j);
            &&& off + j < message_len(m)
            &&& d.source == DeltaSource::Bid(j as usize)
            &&& d.snapshot_flag == m.is_snapshot
            &&& (m.is_snapshot ==> d.action == BookActionKind::Add)
            &&& (!m.is_snapshot && #[trigger] m.bids@[j] ==> d.action == BookActionKind::Update)
            &&& (!m.is_snapshot && !m.bids@[j] ==> d.action == BookActionKind::Delete)
        },
        forall|j: int| 0 <= j < m.asks@.len() ==> {
            let off: int = if m.is_snapshot { 1 } else { 0 };
            let d = ob_line_slot(m, off + m.bids@.len() + j);
            &&& off + m.bids@.len() + j < message_len(m)
            &&& d.source == DeltaSource::Ask(j as usize)
            &&& d.snapshot_flag == m.is_snapshot
            &&& (m.is_snapshot ==> d.action == BookActionKind::Add)
            &&& (!m.is_snapshot && #[trigger] m.asks@[j] ==> d.action == BookActionKind::Update)
            &&& (!m.is_snapshot && !m.asks@[j] ==> d.action == BookActionKind::Delete)
        },
        m.is_snapshot ==> ob_line_slot(m, 0).action == BookActionKind::Clear
            && ob_line_slot(m, 0).source == DeltaSource::Clear,
{
}

} // verus!
