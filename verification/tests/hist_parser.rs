use glft_mm_rust::deltas::{BookActionKind, BookMessage, DeltaSlot, DeltaSource};
use glft_mm_rust::hist_parser::orderbook::{
    decimal_places, detect_precisions, layout_book_file, layout_message, BookLineLevels, JsonItem,
    LevelEntry,
};
use glft_mm_rust::hist_parser::trades::{self, TradeRow};
use glft_mm_rust::aggressor::AggressorKind;

#[test]
fn decimal_places_counts_digits_after_the_point() {
    assert_eq!(decimal_places("2345.67"), 2);
    assert_eq!(decimal_places("0.00010"), 5);
    assert_eq!(decimal_places("100"), 0);
    assert_eq!(decimal_places(""), 0);
    assert_eq!(decimal_places("12."), 0);
    assert_eq!(decimal_places(".5"), 1);
    // only the first point counts
    assert_eq!(decimal_places("1.2.345"), 5);
}

#[test]
fn decimal_places_wraps_like_a_byte_cast() {
    let s = format!("0.{}", "1".repeat(300));
    assert_eq!(decimal_places(&s), (300 % 256) as u8);
}

fn level(p: &str, q: &str) -> LevelEntry {
    LevelEntry::Array(vec![JsonItem::Str(p.to_string()), JsonItem::Str(q.to_string()), JsonItem::Str("1".to_string())])
}

#[test]
fn orderbook_precisions_take_the_largest_seen() {
    let lines = vec![
        Some(BookLineLevels { asks: vec![level("2345.6", "1.5")], bids: vec![level("2345.55", "0.001")] }),
        None,
        Some(BookLineLevels { asks: vec![LevelEntry::NotArray, LevelEntry::Array(vec![JsonItem::Other, JsonItem::Other])], bids: vec![] }),
    ];
    assert_eq!(detect_precisions(&lines, None, None, 200), (2, 3));
}

#[test]
fn orderbook_precisions_overrides_win() {
    let lines = vec![Some(BookLineLevels { asks: vec![level("1.234", "1.5")], bids: vec![] })];
    assert_eq!(detect_precisions(&lines, Some(1), Some(7), 200), (1, 7));
    assert_eq!(detect_precisions(&lines, Some(9), None, 200), (9, 1));
    assert_eq!(detect_precisions(&lines, None, Some(0), 200), (3, 0));
}

#[test]
fn orderbook_precisions_sample_is_bounded_but_reads_the_first_line() {
    let lines = vec![
        Some(BookLineLevels { asks: vec![level("1.2", "1")], bids: vec![] }),
        Some(BookLineLevels { asks: vec![level("1.2345", "1.25")], bids: vec![] }),
    ];
    assert_eq!(detect_precisions(&lines, None, None, 1), (1, 0));
    assert_eq!(detect_precisions(&lines, None, None, 0), (1, 0));
    assert_eq!(detect_precisions(&lines, None, None, 2), (4, 2));
    assert_eq!(detect_precisions(&Vec::new(), None, None, 5), (0, 0));
}

fn row(price: &str, size: &str) -> TradeRow {
    TradeRow {
        instrument_name: None,
        trade_id: "1".to_string(),
        side: "buy".to_string(),
        size: size.to_string(),
        price: price.to_string(),
        created_time: 0,
    }
}

#[test]
fn trades_precisions_take_the_first_rows() {
    let rows = vec![row("10.5", "0.25"), row("10.125", "1")];
    assert_eq!(trades::detect_precisions(&rows, None, None, 200), (3, 2));
    assert_eq!(trades::detect_precisions(&rows, None, None, 1), (1, 2));
    // a sample of zero reads no row
    assert_eq!(trades::detect_precisions(&rows, None, None, 0), (0, 0));
    assert_eq!(trades::detect_precisions(&rows, Some(4), None, 0), (4, 0));
}

#[test]
fn trade_side_is_read_case_insensitively() {
    assert_eq!(trades::parse_trade_side("BUY"), Ok(AggressorKind::Buyer));
    assert_eq!(trades::parse_trade_side("Sell"), Ok(AggressorKind::Seller));
    let err = trades::parse_trade_side("Hold").unwrap_err();
    assert_eq!(err.side, "hold");
    assert_eq!(trades::trade_side_from_lowercase("buy"), Ok(AggressorKind::Buyer));
    assert!(trades::trade_side_from_lowercase("BUY").is_err());
}

fn slot(source: DeltaSource, action: BookActionKind, sequence: u64, snapshot_flag: bool, last_flag: bool) -> DeltaSlot {
    DeltaSlot { source, action, sequence, snapshot_flag, last_flag }
}

#[test]
fn snapshot_message_clears_then_adds_every_level() {
    let m = BookMessage { is_snapshot: true, bids: vec![true, false], asks: vec![false] };
    let mut seq = 7;
    let out = layout_message(&m, &mut seq);
    assert_eq!(seq, 11);
    assert_eq!(out, vec![
        slot(DeltaSource::Clear, BookActionKind::Clear, 7, true, false),
        slot(DeltaSource::Bid(0), BookActionKind::Add, 8, false, false),
        slot(DeltaSource::Bid(1), BookActionKind::Add, 9, false, false),
        slot(DeltaSource::Ask(0), BookActionKind::Add, 10, false, true),
    ]);
}

#[test]
fn update_message_deletes_empty_levels() {
    let m = BookMessage { is_snapshot: false, bids: vec![true], asks: vec![false, true] };
    let mut seq = 0;
    let out = layout_message(&m, &mut seq);
    assert_eq!(seq, 3);
    assert_eq!(out, vec![
        slot(DeltaSource::Bid(0), BookActionKind::Add, 0, false, false),
        slot(DeltaSource::Ask(0), BookActionKind::Delete, 1, false, false),
        slot(DeltaSource::Ask(1), BookActionKind::Add, 2, false, true),
    ]);
    let empty = BookMessage { is_snapshot: false, bids: vec![], asks: vec![] };
    assert!(layout_message(&empty, &mut seq).is_empty());
    assert_eq!(seq, 3);
}

#[test]
fn file_sequences_run_on_without_gaps() {
    let msgs = vec![
        BookMessage { is_snapshot: true, bids: vec![true], asks: vec![true] },
        BookMessage { is_snapshot: false, bids: vec![], asks: vec![] },
        BookMessage { is_snapshot: false, bids: vec![false, true], asks: vec![] },
    ];
    let batches = layout_book_file(&msgs);
    assert_eq!(batches.len(), 3);
    let seqs: Vec<u64> = batches.iter().flatten().map(|s| s.sequence).collect();
    assert_eq!(seqs, vec![0, 1, 2, 3, 4]);
    for b in &batches {
        let lasts: Vec<bool> = b.iter().map(|s| s.last_flag).collect();
        if let Some((last, rest)) = lasts.split_last() {
            assert!(*last);
            assert!(rest.iter().all(|f| !f));
        }
    }
}
