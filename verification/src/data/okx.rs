//! Loader rules for OKX order-book (NDJSON) and trade (CSV) files.

use vstd::prelude::*;
use crate::rfc3339::{parse_from_rfc3339, rfc3339_timestamp, timestamp_nanos_opt};
use crate::aggressor::AggressorKind;
use crate::deltas::{BookActionKind, DeltaSlot, DeltaSource};
use crate::text::{parse_u64, spec_parse_u64, str_equals, str_lowercase, to_lowercase};
use vstd::string::StringSliceAdditionalSpecFns;
use vstd::utf8::is_char_boundary;
use crate::timestamp::{nanos_as_u64, TimestampError, NANOS_PER_MILLI};

verus! {

/// The nanosecond timestamp of an OKX timestamp string: an unsigned count of
/// milliseconds since the epoch, or else an RFC 3339 date-time.
pub open spec fn spec_parse_ts_ms(s: Seq<char>) -> Option<u64> {
    match spec_parse_u64(s) {
        Some(v) => Some((v * 1_000_000) as u64),
        None => rfc3339_timestamp(s),
    }
}

/// Reads an OKX timestamp: an unsigned count of milliseconds since the
/// epoch, or else an RFC 3339 date-time; anything else is refused.
pub fn parse_ts_ms(s: &str) -> (r: Result<u64, TimestampError>)
    requires
        spec_parse_u64(s@) matches Some(v) ==> v * 1_000_000 <= u64::MAX,
    ensures
        r == match spec_parse_ts_ms(s@) {
            Some(t) => Ok::<u64, TimestampError>(t),
            None => Err::<u64, TimestampError>(TimestampError::InvalidDateTime),
        },
{
    match parse_u64(s) {
        Some(ms) => Ok(ms * NANOS_PER_MILLI),
        None => match parse_from_rfc3339(s) {
            Ok(dt) => Ok(nanos_as_u64(timestamp_nanos_opt(&dt))),
            Err(_) => Err(TimestampError::InvalidDateTime),
        },
    }
}

/// One bid or ask entry of an OKX book message, as far as the layout reads
/// it: shorter than two elements (skipped), a price or size that is not a
/// number, or a level whose size is (`true`) or is not positive.
#[derive(Debug, Clone, Copy, PartialEq, Eq)]
pub enum OkxEntry {
    Short,
    BadNumber,
    Level(bool),
}

/// One element of the `data` array of an OKX book line.
#[derive(Debug, Clone, PartialEq, Eq)]
pub struct OkxBookData {
    pub ts: String,
    pub seq_id: u64,
    pub bids: Vec<OkxEntry>,
    pub asks: Vec<OkxEntry>,
}

/// Why an OKX book line was refused.
#[derive(Debug, Clone, PartialEq, Eq)]
pub enum OkxBookError {
    /// The line's action is neither `snapshot` nor `update`.
    UnknownAction(String),
    InvalidTimestamp(TimestampError),
    /// A price or size is neither a numeric string nor a JSON number.
    InvalidNumber,
}

/// The deltas of one element of `data`, with the timestamp they all share.
#[derive(Debug, Clone, PartialEq, Eq)]
pub struct OkxBatch {
    pub ts: u64,
    pub slots: Vec<DeltaSlot>,
}

/// Some entry holds a price or size that is not a number.
pub open spec fn has_bad_number(entries: Seq<OkxEntry>) -> bool {
    exists|i: int| 0 <= i < entries.len() && entries[i] == OkxEntry::BadNumber
}

/// The levels kept from a side of a message, in order, with the action each
/// gets: added in a snapshot; in an update, updated when its size is
/// positive and deleted otherwise. Short entries are skipped.
pub open spec fn kept_levels(entries: Seq<OkxEntry>, bid: bool, snapshot: bool)
    -> Seq<(DeltaSource, BookActionKind)>
    decreases entries.len(),
{
    if entries.len() == 0 {
        Seq::empty()
    } else {
        let prev = kept_levels(entries.drop_last(), bid, snapshot);
        let k = (entries.len() - 1) as usize;
        let source = if bid { DeltaSource::Bid(k) } else { DeltaSource::Ask(k) };
        match entries.last() {
            OkxEntry::Level(positive) => prev.push((
                source,
                if snapshot {
                    BookActionKind::Add
                } else if positive {
                    BookActionKind::Update
                } else {
                    BookActionKind::Delete
                },
            )),
            _ => prev,
        }
    }
}

/// Source and action of every delta of an element: a snapshot starts by
/// clearing the book; then come the kept bids and the kept asks.
pub open spec fn okx_parts(d: OkxBookData, snapshot: bool) -> Seq<(DeltaSource, BookActionKind)> {
    (if snapshot {
        seq![(DeltaSource::Clear, BookActionKind::Clear)]
    } else {
        Seq::empty()
    }) + kept_levels(d.bids@, true, snapshot) + kept_levels(d.asks@, false, snapshot)
}

/// The deltas of an element: all numbered with its sequence id, all flagged
/// as snapshot in a snapshot, and only the last one flagged as last.
pub open spec fn okx_slots(d: OkxBookData, snapshot: bool) -> Seq<DeltaSlot> {
    let parts = okx_parts(d, snapshot);
    Seq::new(parts.len(), |i: int| DeltaSlot {
        source: parts[i].0,
        action: parts[i].1,
        sequence: d.seq_id,
        snapshot_flag: snapshot,
        last_flag: i == parts.len() - 1,
    })
}

/// The timestamp of an element can be read.
pub open spec fn okx_ts_ok(s: Seq<char>) -> bool {
    spec_parse_ts_ms(s) is Some
}

/// The timestamp of an element is small enough to be scaled to nanoseconds.
pub open spec fn okx_ts_fits(s: Seq<char>) -> bool {
    spec_parse_u64(s) matches Some(v) ==> v * 1_000_000 <= u64::MAX
}

/// The error an element yields, if any: its timestamp is read first, then
/// its levels.
pub open spec fn okx_item_error(d: OkxBookData) -> Option<OkxBookError> {
    if !okx_ts_ok(d.ts@) {
        Some(OkxBookError::InvalidTimestamp(TimestampError::InvalidDateTime))
    } else if has_bad_number(d.bids@) || has_bad_number(d.asks@) {
        Some(OkxBookError::InvalidNumber)
    } else {
        None
    }
}

/// An element's shared timestamp is the one its timestamp string reads as.
pub open spec fn okx_ts_matches(s: Seq<char>, ts: u64) -> bool {
    spec_parse_ts_ms(s) == Some(ts)
}

fn push_kept(
    out: &mut Vec<DeltaSlot>,
    entries: &Vec<OkxEntry>,
    bid: bool,
    snapshot: bool,
    seq: u64,
    Ghost(prefix): Ghost<Seq<(DeltaSource, BookActionKind)>>,
) -> (ok: bool)
    requires
        old(out)@.len() == prefix.len(),
        forall|i: int| 0 <= i < prefix.len() ==> (#[trigger] old(out)@[i]).source == prefix[i].0
            && old(out)@[i].action == prefix[i].1 && old(out)@[i].sequence == seq
            && old(out)@[i].snapshot_flag == snapshot && !old(out)@[i].last_flag,
    ensures
        ok == !has_bad_number(entries@),
        ok ==> {
            let all = prefix + kept_levels(entries@, bid, snapshot);
            &&& final(out)@.len() == all.len()
            &&& forall|i: int| 0 <= i < all.len() ==> (#[trigger] final(out)@[i]).source == all[i].0
                && final(out)@[i].action == all[i].1 && final(out)@[i].sequence == seq
                && final(out)@[i].snapshot_flag == snapshot && !final(out)@[i].last_flag
        },
{
    let mut k: usize = 0;
    while k < entries.len()
        invariant
            k <= entries@.len(),
            forall|i: int| 0 <= i < k ==> entries@[i] != OkxEntry::BadNumber,
            ({
                let all = prefix + kept_levels(entries@.take(k as int), bid, snapshot);
                &&& out@.len() == all.len()
                &&& forall|i: int| 0 <= i < all.len() ==> (#[trigger] out@[i]).source == all[i].0
                    && out@[i].action == all[i].1 && out@[i].sequence == seq
                    && out@[i].snapshot_flag == snapshot && !out@[i].last_flag
            }),
        decreases entries@.len() - k,
    {
        proof {
            let t = entries@.take(k + 1);
            assert(t.drop_last() =~= entries@.take(k as int));
            assert(t.last() == entries@[k as int]);
        }
        match entries[k] {
            OkxEntry::Short => {},
            OkxEntry::BadNumber => {
                return false;
            },
            OkxEntry::Level(positive) => {
                let source = if bid { DeltaSource::Bid(k) } else { DeltaSource::Ask(k) };
                let action = if snapshot {
                    BookActionKind::Add
                } else if positive {
                    BookActionKind::Update
                } else {
                    BookActionKind::Delete
                };
                out.push(DeltaSlot { source, action, sequence: seq, snapshot_flag: snapshot, last_flag: false });
            },
        }
        k = k + 1;
    }
    assert(entries@.take(entries@.len() as int) =~= entries@);
    true
}

/// Lays out one element of a book line (`snapshot` tells the line's
/// action), after reading its timestamp.
pub fn process_book_data(d: &OkxBookData, snapshot: bool) -> (r: Result<OkxBatch, OkxBookError>)
    requires
        okx_ts_fits(d.ts@),
    ensures
        match okx_item_error(*d) {
            Some(e) => r == Err::<OkxBatch, OkxBookError>(e),
            None => r matches Ok(b) && b.slots@ == okx_slots(*d, snapshot) && okx_ts_matches(d.ts@, b.ts),
        },
{
    let ts = match parse_ts_ms(d.ts.as_str()) {
        Ok(t) => t,
        Err(e) => {
            return Err(OkxBookError::InvalidTimestamp(e));
        },
    };
    let seq = d.seq_id;
    let mut out: Vec<DeltaSlot> = Vec::new();
    let ghost head: Seq<(DeltaSource, BookActionKind)> = if snapshot {
        seq![(DeltaSource::Clear, BookActionKind::Clear)]
    } else {
        Seq::empty()
    };
    if snapshot {
        out.push(DeltaSlot {
            source: DeltaSource::Clear,
            action: BookActionKind::Clear,
            sequence: seq,
            snapshot_flag: true,
            last_flag: false,
        });
    }
    if !push_kept(&mut out, &d.bids, true, snapshot, seq, Ghost(head)) {
        return Err(OkxBookError::InvalidNumber);
    }
    let ghost mid = head + kept_levels(d.bids@, true, snapshot);
    if !push_kept(&mut out, &d.asks, false, snapshot, seq, Ghost(mid)) {
        return Err(OkxBookError::InvalidNumber);
    }
    let ghost parts = okx_parts(*d, snapshot);
    assert(parts =~= mid + kept_levels(d.asks@, false, snapshot));
    let n = out.len();
    if n > 0 {
        let mut last = out[n - 1];
        last.last_flag = true;
        out.set(n - 1, last);
    }
    assert(out@ =~= okx_slots(*d, snapshot));
    Ok(OkxBatch { ts, slots: out })
}

/// The action word of a book line: `Some(true)` for `snapshot`,
/// `Some(false)` for `update`, `None` for anything else.
pub open spec fn book_action_kind(action: Seq<char>) -> Option<bool> {
    if action == "snapshot"@ {
        Some(true)
    } else if action == "update"@ {
        Some(false)
    } else {
        None
    }
}

/// Reads the action word of a book line.
pub fn classify_book_action(action: &str) -> (r: Option<bool>)
    ensures
        r == book_action_kind(action@),
{
    if str_equals(action, "snapshot") {
        Some(true)
    } else if str_equals(action, "update") {
        Some(false)
    } else {
        None
    }
}

/// Lays out every element of one OKX book line. An empty `data` array
/// yields nothing, whatever the action; otherwise an unknown action is
/// refused, and else the elements are laid out in order until the first
/// one that fails, whose error is the line's. Every element that is reached
/// must have a millisecond timestamp that scales to nanoseconds in a `u64`.
pub fn load_book_line(action: &str, data: &Vec<OkxBookData>) -> (r: Result<Vec<OkxBatch>, OkxBookError>)
    requires
        book_action_kind(action@) is Some ==> forall|k: int| 0 <= k < data@.len()
            && (forall|j: int| 0 <= j < k ==> (#[trigger] okx_item_error(data@[j])) is None)
            ==> okx_ts_fits((#[trigger] data@[k]).ts@),
    ensures
        data@.len() == 0 ==> (r matches Ok(v) && v@.len() == 0),
        data@.len() > 0 && book_action_kind(action@) is None ==> (r matches Err(OkxBookError::UnknownAction(a)) && a@ == action@),
        data@.len() > 0 ==> (book_action_kind(action@) matches Some(snapshot) ==> {
            &&& (r is Ok <==> forall|k: int| 0 <= k < data@.len() ==> (#[trigger] okx_item_error(data@[k])) is None)
            &&& (r matches Ok(v) ==> v@.len() == data@.len() && forall|k: int| 0 <= k < data@.len() ==>
                    (#[trigger] v@[k]).slots@ == okx_slots(data@[k], snapshot) && okx_ts_matches(data@[k].ts@, v@[k].ts))
            &&& forall|k: int| 0 <= k < data@.len() && okx_item_error(data@[k]) is Some
                    && (forall|j: int| 0 <= j < k ==> (#[trigger] okx_item_error(data@[j])) is None)
                    ==> r == Err::<Vec<OkxBatch>, OkxBookError>(okx_item_error(data@[k]).unwrap())
        }),
{
    let mut out: Vec<OkxBatch> = Vec::new();
    if data.len() == 0 {
        return Ok(out);
    }
    let snapshot = match classify_book_action(action) {
        Some(b) => b,
        None => {
            return Err(OkxBookError::UnknownAction(action.to_owned()));
        },
    };
    let mut k: usize = 0;
    while k < data.len()
        invariant
            k <= data@.len(),
            book_action_kind(action@) == Some(snapshot),
            forall|q: int| 0 <= q < data@.len()
                && (forall|j: int| 0 <= j < q ==> (#[trigger] okx_item_error(data@[j])) is None)
                ==> okx_ts_fits((#[trigger] data@[q]).ts@),
            forall|q: int| 0 <= q < k ==> (#[trigger] okx_item_error(data@[q])) is None,
            out@.len() == k,
            forall|q: int| 0 <= q < k ==> (#[trigger] out@[q]).slots@ == okx_slots(data@[q], snapshot)
                && okx_ts_matches(data@[q].ts@, out@[q].ts),
        decreases data@.len() - k,
    {
        match process_book_data(&data[k], snapshot) {
            Ok(b) => out.push(b),
            Err(e) => {
                proof {
                    assert forall|q: int| 0 <= q < data@.len() && okx_item_error(data@[q]) is Some
                        && (forall|j: int| 0 <= j < q ==> (#[trigger] okx_item_error(data@[j])) is None)
                        implies q == k by {
                        if q < k {
                        } else if q > k {
                            assert(okx_item_error(data@[k as int]) is None);
                        }
                    }
                }
                return Err(e);
            },
        }
        k = k + 1;
    }
    Ok(out)
}

/// Reads a lowercased OKX side word: `buy` and `sell` name the aggressor,
/// anything else leaves it unknown.
pub fn aggressor_from_lowercase(lower: &str) -> (r: AggressorKind)
    ensures
        r == if lower@ == "buy"@ {
            AggressorKind::Buyer
        } else if lower@ == "sell"@ {
            AggressorKind::Seller
        } else {
            AggressorKind::NoAggressor
        },
{
    if str_equals(lower, "buy") {
        AggressorKind::Buyer
    } else if str_equals(lower, "sell") {
        AggressorKind::Seller
    } else {
        AggressorKind::NoAggressor
    }
}

/// Reads the side word of an OKX trade, case-insensitively.
pub fn trade_aggressor(side: &str) -> (r: AggressorKind)
    ensures
        r == if str_lowercase(side@) == "buy"@ {
            AggressorKind::Buyer
        } else if str_lowercase(side@) == "sell"@ {
            AggressorKind::Seller
        } else {
            AggressorKind::NoAggressor
        },
{
    let lower = to_lowercase(side);
    aggressor_from_lowercase(lower.as_str())
}

/// Longest trade identifier the catalog keeps, in bytes.
pub const MAX_TRADE_ID_BYTES: usize = 36;

/// Cuts a trade identifier to its first 36 bytes; shorter ones are kept
/// whole. The cut must fall between two characters.
pub fn truncate_trade_id(id: &str) -> (r: &str)
    requires
        id.spec_bytes().len() > 36 ==> is_char_boundary(id.spec_bytes(), 36),
    ensures
        r.spec_bytes() == if id.spec_bytes().len() > 36 {
            id.spec_bytes().subrange(0, 36)
        } else {
            id.spec_bytes()
        },
{
    if id.as_bytes().len() > MAX_TRADE_ID_BYTES {
        let (head, _) = id.split_at(MAX_TRADE_ID_BYTES);
        head
    } else {
        id
    }
}

/// The position a level delta comes from on its side of the book; `-1` for
/// the clearing delta.
pub open spec fn source_index(src: DeltaSource) -> int {
    match src {
        DeltaSource::Bid(i) => i as int,
        DeltaSource::Ask(i) => i as int,
        DeltaSource::Clear => -1,
    }
}

/// The kept levels of one side of an element are its level entries, each
/// once and in order, skipping the short ones (and only those): each names
/// its own side and position, is added in a snapshot, and in an update is
/// updated when its size is positive and deleted when it is not.
pub proof fn lemma_kept_levels(entries: Seq<OkxEntry>, bid: bool, snapshot: bool)
    requires
        entries.len() <= usize::MAX,
    ensures
        forall|k: int| 0 <= k < kept_levels(entries, bid, snapshot).len() ==> {
            let e = #[trigger] kept_levels(entries, bid, snapshot)[k];
            let i = source_index(e.0);
            &&& 0 <= i < entries.len()
            &&& e.0 == (if bid { DeltaSource::Bid(i as usize) } else { DeltaSource::Ask(i as usize) })
            &&& entries[i] is Level
            &&& (snapshot ==> e.1 == BookActionKind::Add)
            &&& (!snapshot && entries[i] == OkxEntry::Level(true) ==> e.1 == BookActionKind::Update)
            &&& (!snapshot && entries[i] == OkxEntry::Level(false) ==> e.1 == BookActionKind::Delete)
        },
        forall|k1: int, k2: int| 0 <= k1 < k2 < kept_levels(entries, bid, snapshot).len() ==>
            source_index((#[trigger] kept_levels(entries, bid, snapshot)[k1]).0)
                < source_index((#[trigger] kept_levels(entries, bid, snapshot)[k2]).0),
        forall|i: int| 0 <= i < entries.len() && (#[trigger] entries[i]) is Level ==>
            exists|k: int| 0 <= k < kept_levels(entries, bid, snapshot).len()
                && source_index((#[trigger] kept_levels(entries, bid, snapshot)[k]).0) == i,
    decreases entries.len(),
{
    let kept = kept_levels(entries, bid, snapshot);
    if entries.len() > 0 {
        let pre = entries.drop_last();
        let prev = kept_levels(pre, bid, snapshot);
        lemma_kept_levels(pre, bid, snapshot);
        let n = entries.len() - 1;
        assert forall|i: int| 0 <= i < n implies entries[i] == pre[i] by {}
        if entries.last() is Level {
            assert(kept.len() == prev.len() + 1);
            assert forall|k: int| 0 <= k < prev.len() implies kept[k] == prev[k] by {}
            assert forall|k: int| 0 <= k < prev.len() implies source_index(#[trigger] kept[k].0) < n by {
                assert(kept[k] == prev[k]);
            }
            assert(n as usize as int == n);
            assert(source_index(kept[prev.len() as int].0) == n);
            assert forall|i: int| 0 <= i < entries.len() && (#[trigger] entries[i]) is Level implies
                exists|k: int| 0 <= k < kept.len() && source_index((#[trigger] kept[k]).0) == i by {
                if i < n {
                    assert(pre[i] is Level);
                    let k = choose|k: int| 0 <= k < prev.len() && source_index((#[trigger] prev[k]).0) == i;
                    assert(kept[k] == prev[k]);
                } else {
                    assert(source_index(kept[prev.len() as int].0) == i);
                }
            }
        } else {
            assert(kept == prev);
            assert forall|i: int| 0 <= i < entries.len() && (#[trigger] entries[i]) is Level implies
                exists|k: int| 0 <= k < kept.len() && source_index((#[trigger] kept[k]).0) == i by {
                assert(i < n);
                assert(pre[i] is Level);
            }
        }
    }
}

/// The deltas of an element: in a snapshot a clearing delta comes first, and
/// only there; every other delta comes from a level entry of its side at the
/// position it names, and is added in a snapshot, and in an update updated
/// when its size is positive and deleted when it is not. All carry the
/// element's sequence id and the snapshot flag of the line; only the last is
/// flagged as last.
pub proof fn lemma_okx_slots(d: OkxBookData, snapshot: bool)
    requires
        d.bids@.len() <= usize::MAX,
        d.asks@.len() <= usize::MAX,
    ensures
        forall|k: int| 0 <= k < okx_slots(d, snapshot).len() ==> {
            let sl = #[trigger] okx_slots(d, snapshot)[k];
            &&& sl.sequence == d.seq_id
            &&& sl.snapshot_flag == snapshot
            &&& (sl.last_flag <==> k == okx_slots(d, snapshot).len() - 1)
            &&& (sl.source == DeltaSource::Clear <==> snapshot && k == 0)
            &&& (sl.source == DeltaSource::Clear ==> sl.action == BookActionKind::Clear)
            &&& (sl.source matches DeltaSource::Bid(i) ==> {
                &&& i < d.bids@.len()
                &&& d.bids@[i as int] is Level
                &&& (snapshot ==> sl.action == BookActionKind::Add)
                &&& (!snapshot && d.bids@[i as int] == OkxEntry::Level(true) ==> sl.action == BookActionKind::Update)
                &&& (!snapshot && d.bids@[i as int] == OkxEntry::Level(false) ==> sl.action == BookActionKind::Delete)
            })
            &&& (sl.source matches DeltaSource::Ask(i) ==> {
                &&& i < d.asks@.len()
                &&& d.asks@[i as int] is Level
                &&& (snapshot ==> sl.action == BookActionKind::Add)
                &&& (!snapshot && d.asks@[i as int] == OkxEntry::Level(true) ==> sl.action == BookActionKind::Update)
                &&& (!snapshot && d.asks@[i as int] == OkxEntry::Level(false) ==> sl.action == BookActionKind::Delete)
            })
        },
{
    lemma_kept_levels(d.bids@, true, snapshot);
    lemma_kept_levels(d.asks@, false, snapshot);
    let kb = kept_levels(d.bids@, true, snapshot);
    let ka = kept_levels(d.asks@, false, snapshot);
    let h: int = if snapshot { 1 } else { 0 };
    let parts = okx_parts(d, snapshot);
    assert(parts.len() == h + kb.len() + ka.len());
    assert forall|k: int| 0 <= k < okx_slots(d, snapshot).len() implies {
        let sl = #[trigger] okx_slots(d, snapshot)[k];
        &&& (sl.source == DeltaSource::Clear <==> snapshot && k == 0)
        &&& (sl.source == DeltaSource::Clear ==> sl.action == BookActionKind::Clear)
        &&& (sl.source matches DeltaSource::Bid(i) ==> {
            &&& i < d.bids@.len()
            &&& d.bids@[i as int] is Level
            &&& (snapshot ==> sl.action == BookActionKind::Add)
            &&& (!snapshot && d.bids@[i as int] == OkxEntry::Level(true) ==> sl.action == BookActionKind::Update)
            &&& (!snapshot && d.bids@[i as int] == OkxEntry::Level(false) ==> sl.action == BookActionKind::Delete)
        })
        &&& (sl.source matches DeltaSource::Ask(i) ==> {
            &&& i < d.asks@.len()
            &&& d.asks@[i as int] is Level
            &&& (snapshot ==> sl.action == BookActionKind::Add)
            &&& (!snapshot && d.asks@[i as int] == OkxEntry::Level(true) ==> sl.action == BookActionKind::Update)
            &&& (!snapshot && d.asks@[i as int] == OkxEntry::Level(false) ==> sl.action == BookActionKind::Delete)
        })
    } by {
        if k < h {
            assert(parts[k] == (DeltaSource::Clear, BookActionKind::Clear));
        } else if k < h + kb.len() {
            assert(parts[k] == kb[k - h]);
            let e = kb[k - h];
            assert(e.0 == DeltaSource::Bid(source_index(e.0) as usize));
        } else {
            assert(parts[k] == ka[k - h - kb.len()]);
            let e = ka[k - h - kb.len()];
            assert(e.0 == DeltaSource::Ask(source_index(e.0) as usize));
        }
    }
}

} // verus!
