use glft_mm_rust::risk::guards::{check_order_count, check_stale_data, run_all_guards, GuardLimits};
use glft_mm_rust::risk::risk_manager::{KillSwitch, LadderAdjustment, PositionTier};
use glft_mm_rust::strategies::glft::quoter::{quote_sides, InventorySign, QuoteSides};
use glft_mm_rust::strategies::glft::risk::{RiskManager, RiskObservation, RiskState};

#[test]
fn stale_data_guard() {
    assert_eq!(check_stale_data(1_000_000_000, 1_005_000_000, 5), (true, ""));
    assert_eq!(check_stale_data(1_000_000_000, 1_005_999_999, 5), (true, ""));
    assert_eq!(check_stale_data(1_000_000_000, 1_006_000_000, 5), (false, "stale data"));
    // data stamped in the future is fresh
    assert_eq!(check_stale_data(2_000_000_000, 1_000_000_000, 0), (true, ""));
}

#[test]
fn order_count_guard() {
    assert_eq!(check_order_count(5, 5, 5), (true, ""));
    assert_eq!(check_order_count(6, 0, 5), (false, "too many orders per side"));
    assert_eq!(check_order_count(0, 6, 5), (false, "too many orders per side"));
}

#[test]
fn guards_report_the_first_failure() {
    let limits = GuardLimits { stale_data_ms: 5000, max_orders_per_side: 2 };
    let ok = (true, "");
    assert_eq!(run_all_guards(0, 0, ok, ok, 2, 2, &limits), (true, ""));
    assert_eq!(run_all_guards(0, 10_000_000_000, (false, "crossed book"), ok, 9, 9, &limits), (false, "stale data"));
    assert_eq!(run_all_guards(0, 0, (false, "crossed book"), (false, "self-trade risk"), 9, 9, &limits), (false, "crossed book"));
    assert_eq!(run_all_guards(0, 0, ok, (false, "self-trade risk"), 9, 9, &limits), (false, "self-trade risk"));
    assert_eq!(run_all_guards(0, 0, ok, ok, 3, 0, &limits), (false, "too many orders per side"));
}

#[test]
fn kill_switch_latches_until_reset() {
    let mut k = KillSwitch::new();
    assert!(!k.is_kill_switch_active());
    assert_eq!(k.check(false, "x".to_string(), PositionTier::WithinLimits, true), Ok(LadderAdjustment::Keep));
    let e = k.check(true, "Daily loss limit breached: -250.00 < -200.00".to_string(), PositionTier::WithinLimits, true).unwrap_err();
    assert_eq!(e.0, "Daily loss limit breached: -250.00 < -200.00");
    assert!(k.is_kill_switch_active());
    let e = k.check(false, "unused".to_string(), PositionTier::WithinLimits, false).unwrap_err();
    assert_eq!(e.0, "Kill switch active");
    assert!(k.is_kill_switch_active());
    k.reset();
    assert!(!k.is_kill_switch_active());
    assert_eq!(k.check(false, String::new(), PositionTier::AtLimit, false), Ok(LadderAdjustment::DropAsks));
}

#[test]
fn position_tiers_drop_the_growing_side() {
    let mut k = KillSwitch::new();
    assert_eq!(k.check(false, String::new(), PositionTier::AtLimit, true), Ok(LadderAdjustment::DropBids));
    assert_eq!(k.check(false, String::new(), PositionTier::Reducing, true), Ok(LadderAdjustment::DropBids));
    assert_eq!(k.check(false, String::new(), PositionTier::Reducing, false), Ok(LadderAdjustment::DropAsks));
    assert_eq!(k.check(false, String::new(), PositionTier::WithinLimits, false), Ok(LadderAdjustment::Keep));
}

fn obs(ready: bool, breached: bool, above: bool, above_new: bool, expired: bool) -> RiskObservation {
    RiskObservation {
        pause_expired: expired,
        indicators_ready: ready,
        inventory_breached: breached,
        vol_above_base: above,
        vol_above_new_base: above_new,
    }
}

#[test]
fn rejections_pause_for_ten_seconds() {
    let mut r = RiskManager::new();
    for _ in 0..5 {
        r.on_rejection();
    }
    let (state, acts) = r.check_risk(obs(false, false, false, false, false));
    assert_eq!(state, RiskState::Paused);
    assert_eq!(acts.start_pause_secs, Some(10));
    assert!(!r.is_quoting_allowed());
    // still paused while the pause runs
    let (state, acts) = r.check_risk(obs(false, false, false, false, false));
    assert_eq!(state, RiskState::Paused);
    assert_eq!(acts.start_pause_secs, None);
    // once it runs out the count starts afresh
    let (state, acts) = r.check_risk(obs(false, false, false, false, true));
    assert_eq!(state, RiskState::Normal);
    assert!(acts.clear_pause);
    assert_eq!(r.consecutive_rejections(), 0);
    assert!(r.is_quoting_allowed());
}

#[test]
fn inventory_breach_is_reduce_only() {
    let mut r = RiskManager::new();
    let (state, _) = r.check_risk(obs(true, true, false, false, false));
    assert_eq!(state, RiskState::InventoryBreached);
    assert!(r.is_quoting_allowed());
    assert!(r.is_reduce_only());
    r.on_rejection();
    r.on_fill();
    assert_eq!(r.consecutive_rejections(), 0);
}

#[test]
fn base_volatility_calibrates_at_the_fiftieth_ready_check() {
    let mut r = RiskManager::new();
    for _ in 0..49 {
        let (state, acts) = r.check_risk(obs(true, false, true, true, false));
        assert_eq!(state, RiskState::Normal);
        assert!(!acts.calibrate_base);
    }
    let (state, acts) = r.check_risk(obs(true, false, true, false, false));
    assert!(acts.calibrate_base);
    assert_eq!(state, RiskState::Normal);
    let (state, acts) = r.check_risk(obs(true, false, true, false, false));
    assert!(!acts.calibrate_base);
    assert_eq!(state, RiskState::HighVolatility);
    assert_eq!(acts.start_pause_secs, Some(30));
    assert!(!r.is_quoting_allowed());
}

#[test]
fn quoter_sides_follow_the_risk_state() {
    let both = QuoteSides { should_quote: true, bid: true, ask: true };
    let none = QuoteSides { should_quote: false, bid: false, ask: false };
    assert_eq!(quote_sides(RiskState::Normal, InventorySign::Long), both);
    assert_eq!(quote_sides(RiskState::InventoryBreached, InventorySign::Long), QuoteSides { should_quote: true, bid: false, ask: true });
    assert_eq!(quote_sides(RiskState::InventoryBreached, InventorySign::Short), QuoteSides { should_quote: true, bid: true, ask: false });
    assert_eq!(quote_sides(RiskState::InventoryBreached, InventorySign::Flat), both);
    assert_eq!(quote_sides(RiskState::Paused, InventorySign::Flat), none);
    assert_eq!(quote_sides(RiskState::HighVolatility, InventorySign::Short), none);
}

#[test]
fn paused_and_unready_checks_do_not_count_toward_calibration() {
    let mut r = RiskManager::new();
    // 20 ready checks count
    for _ in 0..20 {
        assert!(!r.check_risk(obs(true, false, false, false, false)).1.calibrate_base);
    }
    // unready checks do not
    for _ in 0..10 {
        assert!(!r.check_risk(obs(false, false, false, false, false)).1.calibrate_base);
    }
    // a rejection pause: the check that starts it counts, the paused ones do not
    for _ in 0..5 {
        r.on_rejection();
    }
    let (state, acts) = r.check_risk(obs(true, false, false, false, false));
    assert_eq!(state, RiskState::Paused);
    assert!(!acts.calibrate_base);
    for _ in 0..40 {
        let (state, acts) = r.check_risk(obs(true, false, false, false, false));
        assert_eq!(state, RiskState::Paused);
        assert!(!acts.calibrate_base);
    }
    // 21 counted so far; the check that ends the pause is the 22nd, then
    // 27 more, and the fiftieth calibrates
    assert!(!r.check_risk(obs(true, false, false, false, true)).1.calibrate_base);
    for _ in 0..27 {
        assert!(!r.check_risk(obs(true, false, false, false, false)).1.calibrate_base);
    }
    assert!(r.check_risk(obs(true, false, false, false, false)).1.calibrate_base);
    for _ in 0..10 {
        assert!(!r.check_risk(obs(true, false, false, false, false)).1.calibrate_base);
    }
}
