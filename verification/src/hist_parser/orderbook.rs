//! Order-book side of the historical converter.

use vstd::prelude::*;
use crate::text::find_byte;
use crate::deltas::{BookActionKind, BookMessage, DeltaSlot, DeltaSource, last_flag_only_on_last, level_present, level_source, message_len};
use vstd::string::StringSliceAdditionalSpecFns;
use vstd::utf8::encode_utf8;

verus! {

/// Number of bytes after the first `'.'` of the UTF-8 encoding `bytes`,
/// truncated to `u8`; zero when there is no `'.'`.
pub open spec fn spec_decimal_places(bytes: Seq<u8>) -> u8 {
    if exists|i: int| 0 <= i < bytes.len() && bytes[i] == 46u8 {
        let i = choose|i: int| 0 <= i < bytes.len() && bytes[i] == 46u8
            && forall|j: int| 0 <= j < i ==> bytes[j] != 46u8;
        ((bytes.len() - i - 1) % 256) as u8
    } else {
        0
    }
}

/// Number of decimal places written in a numeric string such as `"2345.67"`.
pub fn decimal_places(s: &str) -> (r: u8)
    ensures
        r == spec_decimal_places(s.spec_bytes()),
{
    let bytes = s.as_bytes();
    match find_byte(bytes, 46u8) {
        Some(pos) => {
            let n: usize = bytes.len() - pos - 1;
            proof {
                let bs = s.spec_bytes();
                let w = choose|i: int| 0 <= i < bs.len() && bs[i] == 46u8
                    && forall|j: int| 0 <= j < i ==> bs[j] != 46u8;
                assert(0 <= pos < bs.len() && bs[pos as int] == 46u8);
                assert(w == pos) by {
                    if w < pos { assert(bs[w] != 46u8); }
                    if w > pos { assert(bs[pos as int] != 46u8); }
                }
            }
            (n % 256) as u8
        },
        None => 0,
    }
}

} // verus!

verus! {

/// The `i`-th delta of a message whose first delta takes sequence `seq0`:
/// a snapshot starts with a clearing delta flagged as snapshot; a level is
/// added when the message is a snapshot or its quantity is positive, and
/// deleted otherwise; only the last delta carries the last-in-batch flag.
pub open spec fn message_slot(m: BookMessage, seq0: int, i: int) -> DeltaSlot {
    let off: int = if m.is_snapshot { 1 } else { 0 };
    let last = i == message_len(m) - 1;
    if m.is_snapshot && i == 0 {
        DeltaSlot {
            source: DeltaSource::Clear,
            action: BookActionKind::Clear,
            sequence: seq0 as u64,
            snapshot_flag: true,
            last_flag: last,
        }
    } else {
        let j = i - off;
        DeltaSlot {
            source: level_source(m.bids@.len() as int, j),
            action: if m.is_snapshot || level_present(m.bids@, m.asks@, j) {
                BookActionKind::Add
            } else {
                BookActionKind::Delete
            },
            sequence: (seq0 + i) as u64,
            snapshot_flag: false,
            last_flag: last,
        }
    }
}

/// All deltas of one message.
pub open spec fn message_slots(m: BookMessage, seq0: int) -> Seq<DeltaSlot> {
    Seq::new(message_len(m), |i: int| message_slot(m, seq0, i))
}

/// Sequence number of the first delta of message `k` of a file: the number
/// of deltas of the messages before it.
pub open spec fn file_seq_start(msgs: Seq<BookMessage>, k: int) -> int
    decreases k,
{
    if k <= 0 { 0 } else { file_seq_start(msgs, k - 1) + message_len(msgs[k - 1]) }
}

/// Lays out the deltas of one message, numbering them from `*sequence` on.
pub fn layout_message(m: &BookMessage, sequence: &mut u64) -> (r: Vec<DeltaSlot>)
    requires
        *old(sequence) + message_len(*m) <= u64::MAX,
    ensures
        r@ == message_slots(*m, *old(sequence) as int),
        *final(sequence) == *old(sequence) + message_len(*m),
{
    let ghost seq0 = *sequence as int;
    let nb = m.bids.len() as u64;
    let na = m.asks.len() as u64;
    let head: u64 = if m.is_snapshot { 1 } else { 0 };
    let total: u64 = head + nb + na;
    let mut out: Vec<DeltaSlot> = Vec::new();
    if m.is_snapshot {
        out.push(DeltaSlot {
            source: DeltaSource::Clear,
            action: BookActionKind::Clear,
            sequence: *sequence,
            snapshot_flag: true,
            last_flag: total == 1,
        });
        *sequence = *sequence + 1;
    }
    let mut j: u64 = 0;
    while j < nb + na
        invariant
            nb == m.bids@.len(),
            na == m.asks@.len(),
            nb == m.bids.len(),
            na == m.asks.len(),
            head == (if m.is_snapshot { 1int } else { 0int }),
            total == message_len(*m),
            j <= nb + na,
            seq0 + message_len(*m) <= u64::MAX,
            out@.len() == head + j,
            *sequence == seq0 + out@.len(),
            forall|i: int| 0 <= i < out@.len() ==> #[trigger] out@[i] == message_slot(*m, seq0, i),
        decreases nb + na - j,
    {
        let (source, present) = if j < nb {
            let idx = j as usize;
            assert(idx as int == j as int);
            (DeltaSource::Bid(idx), m.bids[idx])
        } else {
            let idx = (j - nb) as usize;
            assert(idx as int == j - nb);
            (DeltaSource::Ask(idx), m.asks[idx])
        };
        let action = if m.is_snapshot || present {
            BookActionKind::Add
        } else {
            BookActionKind::Delete
        };
        let ghost i = out@.len() as int;
        out.push(DeltaSlot {
            source,
            action,
            sequence: *sequence,
            snapshot_flag: false,
            last_flag: head + j + 1 == total,
        });
        assert(out@[i] == message_slot(*m, seq0, i));
        *sequence = *sequence + 1;
        j = j + 1;
    }
    assert(out@ =~= message_slots(*m, seq0));
    out
}

/// Lays out the deltas of a whole file: message `k` yields its deltas
/// numbered from `file_seq_start(k)` on, so the numbering runs on without a
/// gap from one message to the next.
pub fn layout_book_file(msgs: &Vec<BookMessage>) -> (r: Vec<Vec<DeltaSlot>>)
    requires
        file_seq_start(msgs@, msgs@.len() as int) <= u64::MAX,
    ensures
        r@.len() == msgs@.len(),
        forall|k: int| 0 <= k < msgs@.len() ==>
            (#[trigger] r@[k])@ == message_slots(msgs@[k], file_seq_start(msgs@, k)),
{
    let mut out: Vec<Vec<DeltaSlot>> = Vec::new();
    let mut sequence: u64 = 0;
    let mut k: usize = 0;
    while k < msgs.len()
        invariant
            k <= msgs@.len(),
            out@.len() == k,
            sequence == file_seq_start(msgs@, k as int),
            file_seq_start(msgs@, msgs@.len() as int) <= u64::MAX,
            forall|q: int| 0 <= q < k ==>
                (#[trigger] out@[q])@ == message_slots(msgs@[q], file_seq_start(msgs@, q)),
        decreases msgs@.len() - k,
    {
        proof { lemma_seq_start_monotone(msgs@, k as int + 1, msgs@.len() as int); }
        let batch = layout_message(&msgs[k], &mut sequence);
        out.push(batch);
        k = k + 1;
    }
    out
}

/// `file_seq_start` does not decrease along the file.
pub proof fn lemma_seq_start_monotone(msgs: Seq<BookMessage>, a: int, b: int)
    requires
        0 <= a <= b,
    ensures
        file_seq_start(msgs, a) <= file_seq_start(msgs, b),
    decreases b - a,
{
    if a < b {
        lemma_seq_start_monotone(msgs, a, b - 1);
    }
}

/// Within a message, only the last delta carries the last-in-batch flag.
pub proof fn lemma_message_last_flag(m: BookMessage, seq0: int)
    ensures
        last_flag_only_on_last(message_slots(m, seq0)),
{
}

/// Within a message, delta `i` takes sequence number `seq0 + i`.
pub proof fn lemma_message_sequences(m: BookMessage, seq0: int)
    requires
        0 <= seq0,
        seq0 + message_len(m) <= u64::MAX,
    ensures
        forall|i: int| 0 <= i < message_len(m) ==>
            (#[trigger] message_slots(m, seq0)[i]).sequence == seq0 + i,
{
}

/// A snapshot message starts by clearing the book and then adds every one of
/// its levels, whatever their quantity.
pub proof fn lemma_snapshot_clears_then_adds(m: BookMessage, seq0: int)
    requires
        m.is_snapshot,
    ensures
        message_slots(m, seq0)[0].action == BookActionKind::Clear,
        forall|i: int| 1 <= i < message_len(m) ==>
            (#[trigger] message_slots(m, seq0)[i]).action == BookActionKind::Add,
{
}

/// Every level of a message yields one delta, bids first and then asks, in
/// order: the `j`-th bid (ask) is the source of the delta right after the
/// clearing delta (if any) and the earlier levels, numbered on from `seq0`.
/// In a snapshot it is added; in an update it is added when its quantity is
/// positive and deleted when it is not, on either side.
pub proof fn lemma_message_levels(m: BookMessage, seq0: int)
    ensures
        forall|j: int| 0 <= j < m.bids@.len() ==> {
            let off: int = if m.is_snapshot { 1 } else { 0 };
            let d = message_slots(m, seq0)[off + j];
            &&& off + j < message_slots(m, seq0).len()
            &&& d.source == DeltaSource::Bid(j as usize)
            &&& d.sequence == (seq0 + off + j) as u64
            &&& !d.snapshot_flag
            &&& (m.is_snapshot ==> d.action == BookActionKind::Add)
            &&& (!m.is_snapshot && #[trigger] m.bids@[j] ==> d.action == BookActionKind::Add)
            &&& (!m.is_snapshot && !m.bids@[j] ==> d.action == BookActionKind::Delete)
        },
        forall|j: int| 0 <= j < m.asks@.len() ==> {
            let off: int = if m.is_snapshot { 1 } else { 0 };
            let d = message_slots(m, seq0)[off + m.bids@.len() + j];
            &&& off + m.bids@.len() + j < message_slots(m, seq0).len()
            &&& d.source == DeltaSource::Ask(j as usize)
            &&& d.sequence == (seq0 + off + m.bids@.len() + j) as u64
            &&& !d.snapshot_flag
            &&& (m.is_snapshot ==> d.action == BookActionKind::Add)
            &&& (!m.is_snapshot && #[trigger] m.asks@[j] ==> d.action == BookActionKind::Add)
            &&& (!m.is_snapshot && !m.asks@[j] ==> d.action == BookActionKind::Delete)
        },
{
}

/// One element of a JSON level array, as far as precision detection reads it.
#[derive(Debug, Clone, PartialEq, Eq)]
pub enum JsonItem {
    Str(String),
    Other,
}

/// One JSON level entry: an array of items, or anything else.
#[derive(Debug, Clone, PartialEq, Eq)]
pub enum LevelEntry {
    Array(Vec<JsonItem>),
    NotArray,
}

/// The level entries of one well-formed NDJSON order-book line.
#[derive(Debug, Clone, PartialEq, Eq)]
pub struct BookLineLevels {
    pub asks: Vec<LevelEntry>,
    pub bids: Vec<LevelEntry>,
}

/// The larger of two `u8`.
pub open spec fn max_u8(a: u8, b: u8) -> u8 {
    if a >= b { a } else { b }
}

/// Decimal places written in a string, counted on its UTF-8 bytes.
pub open spec fn string_places(s: String) -> u8 {
    spec_decimal_places(encode_utf8(s@))
}

/// Decimal places of an item: those of a string, zero for anything else.
pub open spec fn item_places(it: JsonItem) -> u8 {
    match it {
        JsonItem::Str(s) => string_places(s),
        JsonItem::Other => 0,
    }
}

/// Decimal places an entry contributes to the price (`price`) or size
/// precision: those of its first or second item, when it is an array of at
/// least two items.
pub open spec fn entry_places(e: LevelEntry, price: bool) -> u8 {
    match e {
        LevelEntry::Array(items) => if items@.len() >= 2 {
            item_places(if price { items@[0] } else { items@[1] })
        } else {
            0
        },
        LevelEntry::NotArray => 0,
    }
}

/// Largest contribution over a list of entries (zero when empty).
pub open spec fn entries_max(entries: Seq<LevelEntry>, price: bool) -> u8
    decreases entries.len(),
{
    if entries.len() == 0 {
        0
    } else {
        max_u8(entries_max(entries.drop_last(), price), entry_places(entries.last(), price))
    }
}

/// Largest contribution of one line; a line that did not parse gives zero.
#[verifier::opaque]
pub open spec fn line_places(line: Option<BookLineLevels>, price: bool) -> u8 {
    match line {
        Some(l) => max_u8(entries_max(l.asks@, price), entries_max(l.bids@, price)),
        None => 0,
    }
}

/// Largest contribution over a list of lines.
pub open spec fn lines_max(lines: Seq<Option<BookLineLevels>>, price: bool) -> u8
    decreases lines.len(),
{
    if lines.len() == 0 {
        0
    } else {
        max_u8(lines_max(lines.drop_last(), price), line_places(lines.last(), price))
    }
}

/// Number of lines the detection reads: `sample_lines` of them, but always
/// at least the first one.
pub open spec fn sampled_lines(n: nat, sample_lines: usize) -> nat {
    let want: nat = if sample_lines == 0 { 1 } else { sample_lines as nat };
    if n < want { n } else { want }
}

fn item_places_exec(it: &JsonItem) -> (r: u8)
    ensures
        r == item_places(*it),
{
    match it {
        JsonItem::Str(s) => decimal_places(s.as_str()),
        JsonItem::Other => 0,
    }
}

fn entries_max_exec(entries: &Vec<LevelEntry>, price: bool) -> (r: u8)
    ensures
        r == entries_max(entries@, price),
{
    let mut acc: u8 = 0;
    let mut i: usize = 0;
    while i < entries.len()
        invariant
            i <= entries@.len(),
            acc == entries_max(entries@.take(i as int), price),
        decreases entries@.len() - i,
    {
        assert(entries@.take(i + 1).drop_last() =~= entries@.take(i as int));
        let p: u8 = match &entries[i] {
            LevelEntry::Array(items) => if items.len() >= 2 {
                if price { item_places_exec(&items[0]) } else { item_places_exec(&items[1]) }
            } else {
                0
            },
            LevelEntry::NotArray => 0,
        };
        acc = if acc >= p { acc } else { p };
        i = i + 1;
    }
    assert(entries@.take(entries@.len() as int) =~= entries@);
    acc
}

fn line_places_exec(line: &Option<BookLineLevels>, price: bool) -> (r: u8)
    ensures
        r == line_places(*line, price),
{
    reveal(line_places);
    match line {
        Some(ob) => {
            let a = entries_max_exec(&ob.asks, price);
            let b = entries_max_exec(&ob.bids, price);
            if a >= b { a } else { b }
        },
        None => 0,
    }
}

/// Detects the price and size precisions of an order-book file from the
/// decimal places written in its string levels. `lines` holds its non-empty
/// lines in order, each parsed or `None` where it is not a valid order-book
/// line. The first `sample_lines` lines are read (always at least one); an
/// override, where given, wins over what was detected.
pub fn detect_precisions(
    lines: &Vec<Option<BookLineLevels>>,
    override_price: Option<u8>,
    override_size: Option<u8>,
    sample_lines: usize,
) -> (r: (u8, u8))
    ensures
        r.0 == match override_price {
            Some(p) => p,
            None => lines_max(lines@.take(sampled_lines(lines@.len(), sample_lines) as int), true),
        },
        r.1 == match override_size {
            Some(p) => p,
            None => lines_max(lines@.take(sampled_lines(lines@.len(), sample_lines) as int), false),
        },
{
    if override_price.is_some() && override_size.is_some() {
        return (override_price.unwrap(), override_size.unwrap());
    }
    let mut price_prec: u8 = 0;
    let mut size_prec: u8 = 0;
    let mut seen: usize = 0;
    let ghost n = sampled_lines(lines@.len(), sample_lines);
    while seen < lines.len()
        invariant_except_break
            seen == 0 || seen < sample_lines,
        invariant
            seen <= lines@.len(),
            seen <= n,
            n == sampled_lines(lines@.len(), sample_lines),
            price_prec == lines_max(lines@.take(seen as int), true),
            size_prec == lines_max(lines@.take(seen as int), false),
        ensures
            seen == n,
            price_prec == lines_max(lines@.take(seen as int), true),
            size_prec == lines_max(lines@.take(seen as int), false),
        decreases lines@.len() - seen,
    {
        let p = line_places_exec(&lines[seen], true);
        let q = line_places_exec(&lines[seen], false);
        proof {
            let t = lines@.take(seen + 1);
            assert(t.drop_last() =~= lines@.take(seen as int));
            assert(t.last() == lines@[seen as int]);
            assert(lines_max(t, true) == max_u8(price_prec, p));
            assert(lines_max(t, false) == max_u8(size_prec, q));
        }
        price_prec = if price_prec >= p { price_prec } else { p };
        size_prec = if size_prec >= q { size_prec } else { q };
        seen = seen + 1;
        if seen >= sample_lines {
            break;
        }
    }
    (
        match override_price { Some(p) => p, None => price_prec },
        match override_size { Some(p) => p, None => size_prec },
    )
}

} // verus!
