use glft_mm_rust::data::okx::{
    aggressor_from_lowercase, classify_book_action, load_book_line, process_book_data, trade_aggressor,
    truncate_trade_id, OkxBookData, OkxBookError, OkxEntry,
};
use glft_mm_rust::deltas::{BookActionKind, DeltaSource};
use glft_mm_rust::aggressor::AggressorKind;
use glft_mm_rust::timestamp::TimestampError;

fn data(ts: &str, seq: u64, bids: Vec<OkxEntry>, asks: Vec<OkxEntry>) -> OkxBookData {
    OkxBookData { ts: ts.to_string(), seq_id: seq, bids, asks }
}

#[test]
fn snapshot_skips_short_entries_and_flags_everything() {
    let d = data("1000", 42, vec![OkxEntry::Level(true), OkxEntry::Short], vec![OkxEntry::Level(false)]);
    let b = process_book_data(&d, true).unwrap();
    assert_eq!(b.ts, 1_000_000_000);
    let parts: Vec<(DeltaSource, BookActionKind)> = b.slots.iter().map(|s| (s.source, s.action)).collect();
    assert_eq!(parts, vec![
        (DeltaSource::Clear, BookActionKind::Clear),
        (DeltaSource::Bid(0), BookActionKind::Add),
        (DeltaSource::Ask(0), BookActionKind::Add),
    ]);
    assert!(b.slots.iter().all(|s| s.sequence == 42 && s.snapshot_flag));
    assert_eq!(b.slots.iter().map(|s| s.last_flag).collect::<Vec<_>>(), vec![false, false, true]);
}

#[test]
fn update_updates_positive_sizes_and_deletes_others() {
    let d = data("5", 1, vec![OkxEntry::Short, OkxEntry::Level(false)], vec![OkxEntry::Level(true)]);
    let b = process_book_data(&d, false).unwrap();
    let parts: Vec<(DeltaSource, BookActionKind)> = b.slots.iter().map(|s| (s.source, s.action)).collect();
    assert_eq!(parts, vec![(DeltaSource::Bid(1), BookActionKind::Delete), (DeltaSource::Ask(0), BookActionKind::Update)]);
    assert!(b.slots.iter().all(|s| !s.snapshot_flag));
    assert!(!b.slots[0].last_flag && b.slots[1].last_flag);
    let nothing = data("5", 1, vec![OkxEntry::Short], vec![]);
    assert!(process_book_data(&nothing, false).unwrap().slots.is_empty());
}

#[test]
fn book_data_errors() {
    let bad_ts = data("soon", 1, vec![OkxEntry::BadNumber], vec![]);
    assert_eq!(process_book_data(&bad_ts, true), Err(OkxBookError::InvalidTimestamp(TimestampError::InvalidDateTime)));
    let bad_num = data("5", 1, vec![OkxEntry::Level(true)], vec![OkxEntry::BadNumber]);
    assert_eq!(process_book_data(&bad_num, false), Err(OkxBookError::InvalidNumber));
}

#[test]
fn book_lines_dispatch_on_their_action() {
    assert_eq!(classify_book_action("snapshot"), Some(true));
    assert_eq!(classify_book_action("update"), Some(false));
    assert_eq!(classify_book_action("Snapshot"), None);
    let ok = vec![data("1", 1, vec![OkxEntry::Level(true)], vec![]), data("2", 2, vec![], vec![])];
    let out = load_book_line("update", &ok).unwrap();
    assert_eq!(out.len(), 2);
    assert_eq!(out[0].slots[0].action, BookActionKind::Update);
    assert!(out[1].slots.is_empty());
    assert_eq!(load_book_line("delete", &ok), Err(OkxBookError::UnknownAction("delete".to_string())));
    // an empty data array is no error, whatever the action
    assert_eq!(load_book_line("delete", &Vec::new()), Ok(Vec::new()));
    // the first failing element decides
    let mixed = vec![
        data("1", 1, vec![], vec![]),
        data("x", 2, vec![], vec![]),
        data("3", 3, vec![OkxEntry::BadNumber], vec![]),
    ];
    assert_eq!(load_book_line("snapshot", &mixed), Err(OkxBookError::InvalidTimestamp(TimestampError::InvalidDateTime)));
}

#[test]
fn okx_trade_sides_and_ids() {
    assert_eq!(trade_aggressor("BUY"), AggressorKind::Buyer);
    assert_eq!(trade_aggressor("sell"), AggressorKind::Seller);
    assert_eq!(trade_aggressor("auction"), AggressorKind::NoAggressor);
    assert_eq!(aggressor_from_lowercase("SELL"), AggressorKind::NoAggressor);
    assert_eq!(truncate_trade_id("123456"), "123456");
    let long = "abcdefghijklmnopqrstuvwxyz0123456789XYZ";
    assert_eq!(truncate_trade_id(long), "abcdefghijklmnopqrstuvwxyz0123456789");
    assert_eq!(truncate_trade_id(&long[..36]), &long[..36]);
}

#[test]
fn book_elements_past_the_first_error_are_not_read() {
    // this millisecond count does not scale into a u64 of nanoseconds
    let huge = "18446744073709551615";
    let line = vec![data("1", 1, vec![OkxEntry::BadNumber], vec![]), data(huge, 2, vec![], vec![])];
    assert_eq!(load_book_line("update", &line), Err(OkxBookError::InvalidNumber));
    let line = vec![data(huge, 1, vec![], vec![])];
    assert_eq!(load_book_line("delete", &line), Err(OkxBookError::UnknownAction("delete".to_string())));
}
