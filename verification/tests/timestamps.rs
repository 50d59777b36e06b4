use glft_mm_rust::convert::{aggressor_from_lowercase, layout_ob_line, to_ns, trade_aggressor};
use glft_mm_rust::data::{chronological_order, parse_unix_nanos};
use glft_mm_rust::data::okx::parse_ts_ms;
use glft_mm_rust::deltas::{BookActionKind, BookMessage, DeltaSource};
use glft_mm_rust::aggressor::AggressorKind;
use glft_mm_rust::timestamp::{nanos_as_u64, next_timestamp, TimestampError};

#[test]
fn to_ns_scales_milliseconds() {
    assert_eq!(to_ns("1700000000123"), Ok(1_700_000_000_123_000_000));
    assert_eq!(to_ns("+5"), Ok(5_000_000));
    assert_eq!(to_ns("0"), Ok(0));
    assert_eq!(to_ns("12a"), Err(TimestampError::InvalidInteger));
    assert_eq!(to_ns(""), Err(TimestampError::InvalidInteger));
    assert_eq!(to_ns("-5"), Err(TimestampError::InvalidInteger));
    assert_eq!(to_ns(" 5"), Err(TimestampError::InvalidInteger));
}

#[test]
fn okx_timestamps_accept_milliseconds_or_rfc3339() {
    assert_eq!(parse_ts_ms("1700000000000"), Ok(1_700_000_000_000_000_000));
    assert_eq!(parse_ts_ms("2024-01-01T00:00:00Z"), Ok(1_704_067_200_000_000_000));
    assert_eq!(parse_ts_ms("2024-01-01T01:00:00.5+01:00"), Ok(1_704_067_200_500_000_000));
    assert_eq!(parse_ts_ms("yesterday"), Err(TimestampError::InvalidDateTime));
    // a date before the epoch wraps around as a cast does
    assert_eq!(parse_ts_ms("1969-12-31T23:59:59Z"), Ok(u64::MAX - 1_000_000_000 + 1));
}

#[test]
fn quote_timestamps_accept_signed_milliseconds_or_rfc3339() {
    assert_eq!(parse_unix_nanos("42"), Ok(42_000_000));
    assert_eq!(parse_unix_nanos("2024-01-01T00:00:00Z"), Ok(1_704_067_200_000_000_000));
    assert_eq!(parse_unix_nanos("not a time"), Err(TimestampError::InvalidDateTime));
}

#[test]
fn nanos_conversion_wraps_negatives_and_defaults_to_zero() {
    assert_eq!(nanos_as_u64(None), 0);
    assert_eq!(nanos_as_u64(Some(17)), 17);
    assert_eq!(nanos_as_u64(Some(-1)), u64::MAX);
    assert_eq!(nanos_as_u64(Some(i64::MIN)), 1u64 << 63);
}

#[test]
fn timestamps_strictly_increase() {
    let mut last = 0u64;
    assert_eq!(next_timestamp(100, &mut last), 100);
    assert_eq!(next_timestamp(100, &mut last), 101);
    assert_eq!(next_timestamp(50, &mut last), 102);
    assert_eq!(next_timestamp(500, &mut last), 500);
    assert_eq!(last, 500);
}

#[test]
fn converted_snapshot_is_stamped_upwards() {
    let m = BookMessage { is_snapshot: true, bids: vec![true], asks: vec![false] };
    let mut last = 1_000u64;
    let out = layout_ob_line(&m, 900, &mut last);
    let ts: Vec<u64> = out.iter().map(|t| t.ts).collect();
    assert_eq!(ts, vec![1_001, 1_002, 1_003]);
    assert_eq!(last, 1_003);
    assert_eq!(out[0].slot.source, DeltaSource::Clear);
    assert!(out.iter().all(|t| t.slot.snapshot_flag && t.slot.sequence == 0));
    assert_eq!(out[1].slot.action, BookActionKind::Add);
    assert_eq!(out[2].slot.action, BookActionKind::Add);
    assert_eq!(out.iter().map(|t| t.slot.last_flag).collect::<Vec<_>>(), vec![false, false, true]);
}

#[test]
fn converted_update_deletes_zero_sizes() {
    let m = BookMessage { is_snapshot: false, bids: vec![false], asks: vec![true] };
    let mut last = 5u64;
    let out = layout_ob_line(&m, 2_000, &mut last);
    assert_eq!(out.len(), 2);
    assert_eq!(out[0].slot.action, BookActionKind::Delete);
    assert_eq!(out[0].slot.source, DeltaSource::Bid(0));
    assert_eq!(out[1].slot.action, BookActionKind::Update);
    assert_eq!(out[1].slot.source, DeltaSource::Ask(0));
    assert_eq!((out[0].ts, out[1].ts), (2_000, 2_001));
    assert!(!out[0].slot.snapshot_flag && !out[0].slot.last_flag && out[1].slot.last_flag);
    let empty = BookMessage { is_snapshot: false, bids: vec![], asks: vec![] };
    assert!(layout_ob_line(&empty, 9_999, &mut last).is_empty());
    assert_eq!(last, 2_001);
    let bare_snapshot = BookMessage { is_snapshot: true, bids: vec![], asks: vec![] };
    let out = layout_ob_line(&bare_snapshot, 0, &mut last);
    assert_eq!(out.len(), 1);
    assert!(out[0].slot.last_flag && out[0].slot.snapshot_flag);
}

#[test]
fn converted_trade_sides() {
    assert_eq!(trade_aggressor("BUY"), AggressorKind::Buyer);
    assert_eq!(trade_aggressor("sell"), AggressorKind::Seller);
    assert_eq!(trade_aggressor("whatever"), AggressorKind::Seller);
    assert_eq!(aggressor_from_lowercase("Buy"), AggressorKind::Seller);
}

#[test]
fn chronological_order_is_stable() {
    let ts = vec![30, 10, 20, 10, 30];
    let order = chronological_order(&ts);
    assert_eq!(order, vec![(10, 1), (10, 3), (20, 2), (30, 0), (30, 4)]);
    assert!(chronological_order(&Vec::new()).is_empty());
}
