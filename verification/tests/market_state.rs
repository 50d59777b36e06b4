use std::collections::VecDeque;
use glft_mm_rust::market_state::trade_flow::{arrival_spans, markouts_initialized, MarkoutQueue};
use glft_mm_rust::market_state::window::RollingWindow;
use glft_mm_rust::model::estimator::ArrivalCounts;

#[test]
fn evicting_window_keeps_the_most_recent() {
    let mut w = RollingWindow::new(3);
    for x in 1..=5 {
        w.push_evicting(x);
    }
    assert_eq!(w.items().iter().copied().collect::<Vec<_>>(), vec![3, 4, 5]);
    assert_eq!(w.push_evicting(6), Some(3));
    let mut z = RollingWindow::new(0);
    z.push_evicting(1);
    assert_eq!(z.push_evicting(2), Some(1));
    assert_eq!(z.len(), 1);
}

#[test]
fn trimming_window_keeps_the_most_recent() {
    let mut w = RollingWindow::new(2);
    assert_eq!(w.push_trimming(1), None);
    assert_eq!(w.push_trimming(2), None);
    assert_eq!(w.push_trimming(3), Some(1));
    assert_eq!(w.items().iter().copied().collect::<Vec<_>>(), vec![2, 3]);
    let mut z = RollingWindow::new(0);
    assert_eq!(z.push_trimming(7), Some(7));
    assert!(z.is_empty());
    w.clear();
    assert!(w.is_empty());
    assert_eq!(w.capacity(), 2);
}

#[test]
fn markout_queue_releases_fills_after_their_horizon() {
    let mut q = MarkoutQueue::new(2);
    q.record_fill(('a', 1));
    assert!(q.tick().is_empty());
    q.record_fill(('b', 2));
    assert_eq!(q.tick(), vec![('a', 1)]);
    assert_eq!(q.tick(), vec![('b', 2)]);
    assert!(q.tick().is_empty());
    let mut now = MarkoutQueue::new(0);
    now.record_fill(1u8);
    now.record_fill(2u8);
    assert_eq!(now.tick(), vec![1, 2]);
    now.record_fill(3u8);
    now.clear();
    assert!(now.tick().is_empty());
}

#[test]
fn markouts_initialize_at_a_fifth_of_the_window() {
    assert!(!markouts_initialized(9, 50));
    assert!(markouts_initialized(10, 50));
    assert!(!markouts_initialized(0, 3));
    assert!(markouts_initialized(1, 3));
}

#[test]
fn arrival_spans_compare_halves() {
    let times: VecDeque<u64> = vec![0, 10, 20, 30, 35, 40].into_iter().collect();
    assert_eq!(arrival_spans(&times, 3), Some((40 - 30, 20 - 0, 2)));
    assert_eq!(arrival_spans(&times, 4), None);
    let two: VecDeque<u64> = vec![5, 9].into_iter().collect();
    assert_eq!(arrival_spans(&two, 1), Some((0, 0, 1)));
}

#[test]
fn arrival_counts_roll_over_the_window() {
    let mut c = ArrivalCounts::new(3, 2, 2);
    assert_eq!(c.n_bins(), 3);
    assert!(!c.is_ready());
    c.record_trade(Some(0));
    c.record_fill(Some(0));
    c.record_trade(None);
    assert_eq!(c.total_trades_count(), 1);
    assert_eq!(c.bucket(0), (1, 1));
    // the history holds two events, so this trade evicts the oldest (a trade in bucket 0)
    c.record_trade(Some(1));
    assert_eq!(c.bucket(0), (0, 1));
    assert_eq!(c.bucket(1), (1, 0));
    // now the oldest is the fill in bucket 0: both its counts drop
    c.record_trade(Some(1));
    assert_eq!(c.bucket(0), (0, 0));
    assert_eq!(c.bucket(1), (2, 0));
    assert_eq!(c.total_trades_count(), 3);
    assert!(c.is_ready());
    c.reset();
    assert_eq!(c.bucket(1), (0, 0));
    assert_eq!(c.total_trades_count(), 0);
}

#[test]
fn markout_queue_with_the_lowest_horizon_ticks_while_empty() {
    let mut q: MarkoutQueue<u8> = MarkoutQueue::new(i32::MIN);
    assert_eq!(q.pending_count(), 0);
    assert!(q.tick().is_empty());
    q.record_fill(7);
    assert_eq!(q.pending_count(), 1);
}
