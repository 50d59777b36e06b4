//! Risk state machine of the GLFT strategy: pauses after repeated order
//! rejections or a volatility spike, and reduce-only quoting beyond the
//! inventory limit.

use vstd::prelude::*;

verus! {

/// Consecutive rejections that pause quoting.
pub const MAX_CONSECUTIVE_REJECTIONS: u32 = 5;
/// Ready observations after which the base volatility is calibrated.
pub const CALIBRATION_OBSERVATIONS: u32 = 50;
/// Length of the pause after too many rejections, in seconds.
pub const REJECTION_PAUSE_SECS: u64 = 10;
/// Length of the pause after a volatility spike, in seconds.
pub const HIGH_VOLATILITY_PAUSE_SECS: u64 = 30;

/// Where the strategy stands with respect to risk.
#[derive(Debug, Clone, Copy, PartialEq, Eq)]
pub enum RiskState {
    Normal,
    HighVolatility,
    InventoryBreached,
    Paused,
}

/// What one risk check observes. The comparisons of prices and volatility
/// come in evaluated.
#[derive(Debug, Clone, Copy, PartialEq, Eq)]
pub struct RiskObservation {
    /// The pending pause, if any, has run out.
    pub pause_expired: bool,
    /// The indicators have enough data.
    pub indicators_ready: bool,
    /// The absolute position is at or beyond the inventory limit.
    pub inventory_breached: bool,
    /// The volatility exceeds the calibrated base times the regime
    /// multiplier, for the base held before this check.
    pub vol_above_base: bool,
    /// The same comparison for a base calibrated in this check from the
    /// current volatility.
    pub vol_above_new_base: bool,
}

/// What a risk check asks of its caller besides the new state.
#[derive(Debug, Clone, Copy, PartialEq, Eq)]
pub struct RiskActions {
    /// Record the current volatility as the base.
    pub calibrate_base: bool,
    /// Forget the pending pause: it has run out.
    pub clear_pause: bool,
    /// Start a pause of this many seconds.
    pub start_pause_secs: Option<u64>,
}

/// The risk manager's state as plain values.
pub struct RiskSnapshot {
    pub state: RiskState,
    pub base_calibrated: bool,
    pub vol_observations: u32,
    pub consecutive_rejections: u32,
    pub pause_pending: bool,
}

/// One risk check: from the state before and an observation, the state
/// after and the actions for the caller.
pub open spec fn spec_check_risk(s: RiskSnapshot, o: RiskObservation) -> (RiskSnapshot, RiskActions) {
    let none = RiskActions { calibrate_base: false, clear_pause: false, start_pause_secs: None };
    if s.pause_pending && !o.pause_expired {
        (RiskSnapshot { state: RiskState::Paused, ..s }, none)
    } else {
        let cleared = s.pause_pending;
        let rej: u32 = if cleared { 0 } else { s.consecutive_rejections };
        let counting = !s.base_calibrated && o.indicators_ready;
        let obs: u32 = if counting { (s.vol_observations + 1) as u32 } else { s.vol_observations };
        let calibrate_now = counting && obs >= CALIBRATION_OBSERVATIONS;
        let calibrated = s.base_calibrated || calibrate_now;
        let base = RiskSnapshot {
            state: s.state,
            base_calibrated: calibrated,
            vol_observations: obs,
            consecutive_rejections: rej,
            pause_pending: false,
        };
        let acts = RiskActions { calibrate_base: calibrate_now, clear_pause: cleared, start_pause_secs: None };
        if rej >= MAX_CONSECUTIVE_REJECTIONS {
            (
                RiskSnapshot { state: RiskState::Paused, pause_pending: true, ..base },
                RiskActions { start_pause_secs: Some(REJECTION_PAUSE_SECS), ..acts },
            )
        } else if o.inventory_breached {
            (RiskSnapshot { state: RiskState::InventoryBreached, ..base }, acts)
        } else if calibrated && (if calibrate_now { o.vol_above_new_base } else { o.vol_above_base }) {
            (
                RiskSnapshot { state: RiskState::HighVolatility, pause_pending: true, ..base },
                RiskActions { start_pause_secs: Some(HIGH_VOLATILITY_PAUSE_SECS), ..acts },
            )
        } else {
            (RiskSnapshot { state: RiskState::Normal, ..base }, acts)
        }
    }
}

/// The states in which quotes may be placed.
pub open spec fn quoting_allowed(state: RiskState) -> bool {
    state == RiskState::Normal || state == RiskState::InventoryBreached
}

/// Risk manager of the GLFT strategy.
pub struct RiskManager {
    state: RiskState,
    base_calibrated: bool,
    vol_observations: u32,
    consecutive_rejections: u32,
    pause_pending: bool,
}

impl RiskManager {
    #[verifier::type_invariant]
    spec fn inv(self) -> bool {
        &&& self.vol_observations <= CALIBRATION_OBSERVATIONS
        &&& (!self.base_calibrated ==> self.vol_observations < CALIBRATION_OBSERVATIONS)
    }

    /// The manager's state as plain values.
    pub closed spec fn snapshot(self) -> RiskSnapshot {
        RiskSnapshot {
            state: self.state,
            base_calibrated: self.base_calibrated,
            vol_observations: self.vol_observations,
            consecutive_rejections: self.consecutive_rejections,
            pause_pending: self.pause_pending,
        }
    }

    /// A manager in the normal state, not yet calibrated, with no pause and
    /// no rejection counted.
    pub fn new() -> (r: Self)
        ensures
            r.snapshot() == (RiskSnapshot {
                state: RiskState::Normal,
                base_calibrated: false,
                vol_observations: 0,
                consecutive_rejections: 0,
                pause_pending: false,
            }),
    {
        RiskManager {
            state: RiskState::Normal,
            base_calibrated: false,
            vol_observations: 0,
            consecutive_rejections: 0,
            pause_pending: false,
        }
    }

    pub fn state(&self) -> (r: RiskState)
        ensures
            r == self.snapshot().state,
    {
        self.state
    }

    pub fn consecutive_rejections(&self) -> (r: u32)
        ensures
            r == self.snapshot().consecutive_rejections,
    {
        self.consecutive_rejections
    }

    /// Checks the risk situation and moves to the resulting state. A pending
    /// pause that has not run out keeps the manager paused; once it has, the
    /// rejection count starts afresh. The base volatility is calibrated at
    /// the fiftieth ready observation. Too many rejections pause quoting for
    /// ten seconds; otherwise an inventory breach allows only reducing
    /// quotes; otherwise a volatility spike over the calibrated base pauses
    /// quoting for thirty seconds; otherwise all is normal.
    pub fn check_risk(&mut self, o: RiskObservation) -> (r: (RiskState, RiskActions))
        ensures
            (final(self).snapshot(), r.1) == spec_check_risk(old(self).snapshot(), o),
            r.0 == final(self).snapshot().state,
    {
        proof { use_type_invariant(&*self); }
        let none = RiskActions { calibrate_base: false, clear_pause: false, start_pause_secs: None };
        let cleared = self.pause_pending;
        if self.pause_pending {
            if o.pause_expired {
                self.pause_pending = false;
                self.consecutive_rejections = 0;
            } else {
                self.state = RiskState::Paused;
                return (self.state, none);
            }
        }
        let mut calibrate_now = false;
        if !self.base_calibrated && o.indicators_ready {
            let obs = self.vol_observations + 1;
            if obs >= CALIBRATION_OBSERVATIONS {
                self.base_calibrated = true;
                calibrate_now = true;
            }
            self.vol_observations = obs;
        }
        let acts = RiskActions { calibrate_base: calibrate_now, clear_pause: cleared, start_pause_secs: None };
        if self.consecutive_rejections >= MAX_CONSECUTIVE_REJECTIONS {
            self.state = RiskState::Paused;
            self.pause_pending = true;
            return (self.state, RiskActions { start_pause_secs: Some(REJECTION_PAUSE_SECS), ..acts });
        }
        if o.inventory_breached {
            self.state = RiskState::InventoryBreached;
            return (self.state, acts);
        }
        if self.base_calibrated {
            let above = if calibrate_now { o.vol_above_new_base } else { o.vol_above_base };
            if above {
                self.state = RiskState::HighVolatility;
                self.pause_pending = true;
                return (self.state, RiskActions { start_pause_secs: Some(HIGH_VOLATILITY_PAUSE_SECS), ..acts });
            }
        }
        self.state = RiskState::Normal;
        (self.state, acts)
    }

    /// Whether new quotes may be placed.
    pub fn is_quoting_allowed(&self) -> (r: bool)
        ensures
            r == quoting_allowed(self.snapshot().state),
    {
        match self.state {
            RiskState::Normal | RiskState::InventoryBreached => true,
            _ => false,
        }
    }

    /// Whether only inventory-reducing quotes may be placed.
    pub fn is_reduce_only(&self) -> (r: bool)
        ensures
            r == (self.snapshot().state == RiskState::InventoryBreached),
    {
        match self.state {
            RiskState::InventoryBreached => true,
            _ => false,
        }
    }

    /// Counts one more consecutive rejection.
    pub fn on_rejection(&mut self)
        requires
            old(self).snapshot().consecutive_rejections < u32::MAX,
        ensures
            final(self).snapshot() == (RiskSnapshot {
                consecutive_rejections: (old(self).snapshot().consecutive_rejections + 1) as u32,
                ..old(self).snapshot()
            }),
    {
        proof { use_type_invariant(&*self); }
        self.consecutive_rejections = self.consecutive_rejections + 1;
    }

    /// A fill ends the run of rejections.
    pub fn on_fill(&mut self)
        ensures
            final(self).snapshot() == (RiskSnapshot { consecutive_rejections: 0, ..old(self).snapshot() }),
    {
        proof { use_type_invariant(&*self); }
        self.consecutive_rejections = 0;
    }
}

/// A pause that has not run out keeps the manager paused and changes
/// nothing else.
pub proof fn lemma_pending_pause_holds(s: RiskSnapshot, o: RiskObservation)
    requires
        s.pause_pending,
        !o.pause_expired,
    ensures
        spec_check_risk(s, o).0 == (RiskSnapshot { state: RiskState::Paused, ..s }),
        spec_check_risk(s, o).1 == (RiskActions { calibrate_base: false, clear_pause: false, start_pause_secs: None }),
{
}

/// With no pause pending, five or more consecutive rejections pause quoting
/// for ten seconds.
pub proof fn lemma_rejections_pause(s: RiskSnapshot, o: RiskObservation)
    requires
        !s.pause_pending,
        s.consecutive_rejections >= MAX_CONSECUTIVE_REJECTIONS,
    ensures
        spec_check_risk(s, o).0.state == RiskState::Paused,
        spec_check_risk(s, o).0.pause_pending,
        spec_check_risk(s, o).1.start_pause_secs == Some(REJECTION_PAUSE_SECS),
{
}

/// When a pause runs out, the rejection count starts afresh and the manager
/// does not stay paused.
pub proof fn lemma_expired_pause_resumes(s: RiskSnapshot, o: RiskObservation)
    requires
        s.pause_pending,
        o.pause_expired,
    ensures
        spec_check_risk(s, o).0.consecutive_rejections == 0,
        spec_check_risk(s, o).1.clear_pause,
        spec_check_risk(s, o).0.state != RiskState::Paused,
{
}

/// The base volatility is calibrated once: a check calibrates only an
/// uncalibrated manager, and a calibrated one stays calibrated.
pub proof fn lemma_calibration_once(s: RiskSnapshot, o: RiskObservation)
    ensures
        spec_check_risk(s, o).1.calibrate_base ==> !s.base_calibrated && spec_check_risk(s, o).0.base_calibrated,
        s.base_calibrated ==> spec_check_risk(s, o).0.base_calibrated && !spec_check_risk(s, o).1.calibrate_base,
{
}

/// A check that starts a pause leaves quoting blocked with the pause
/// pending; a check that allows quoting starts no pause.
pub proof fn lemma_pause_blocks_quoting(s: RiskSnapshot, o: RiskObservation)
    ensures
        spec_check_risk(s, o).1.start_pause_secs is Some ==>
            !quoting_allowed(spec_check_risk(s, o).0.state) && spec_check_risk(s, o).0.pause_pending,
        quoting_allowed(spec_check_risk(s, o).0.state) ==> spec_check_risk(s, o).1.start_pause_secs is None,
{
}

/// An inventory breach allows only reducing quotes whenever no pause holds
/// the check back and fewer than five rejections count: with no pause
/// pending and few rejections, or right after a pause has run out (which
/// starts the count afresh).
pub proof fn lemma_breach_reduce_only(s: RiskSnapshot, o: RiskObservation)
    requires
        s.pause_pending ==> o.pause_expired,
        !s.pause_pending ==> s.consecutive_rejections < MAX_CONSECUTIVE_REJECTIONS,
        o.inventory_breached,
    ensures
        spec_check_risk(s, o).0.state == RiskState::InventoryBreached,
        quoting_allowed(spec_check_risk(s, o).0.state),
{
}

/// The state after a sequence of risk checks, in order.
pub open spec fn run_checks(s: RiskSnapshot, obs: Seq<RiskObservation>) -> RiskSnapshot
    decreases obs.len(),
{
    if obs.len() == 0 {
        s
    } else {
        spec_check_risk(run_checks(s, obs.drop_last()), obs.last()).0
    }
}

/// A check that counts toward calibration: no pending pause cuts it short,
/// and the indicators are ready.
pub open spec fn counts_toward_calibration(s: RiskSnapshot, o: RiskObservation) -> bool {
    !(s.pause_pending && !o.pause_expired) && o.indicators_ready
}

/// How many checks of a sequence count toward calibration.
pub open spec fn counted_checks(s: RiskSnapshot, obs: Seq<RiskObservation>) -> nat
    decreases obs.len(),
{
    if obs.len() == 0 {
        0
    } else {
        counted_checks(s, obs.drop_last())
            + if counts_toward_calibration(run_checks(s, obs.drop_last()), obs.last()) { 1nat } else { 0nat }
    }
}

/// From an uncalibrated manager with no observation counted (as `new`
/// makes it), a sequence of checks leaves the base calibrated exactly when
/// fifty or more of them counted, with the count held at fifty.
pub proof fn lemma_calibration_count(s: RiskSnapshot, obs: Seq<RiskObservation>)
    requires
        !s.base_calibrated,
        s.vol_observations == 0,
    ensures
        run_checks(s, obs).base_calibrated == (counted_checks(s, obs) >= CALIBRATION_OBSERVATIONS),
        run_checks(s, obs).vol_observations
            == if counted_checks(s, obs) >= CALIBRATION_OBSERVATIONS { CALIBRATION_OBSERVATIONS as nat } else { counted_checks(s, obs) },
    decreases obs.len(),
{
    if obs.len() > 0 {
        lemma_calibration_count(s, obs.drop_last());
    }
}

/// The base volatility is calibrated by the fiftieth check that counts
/// toward calibration, and by no other check of the sequence.
pub proof fn lemma_calibrates_at_fiftieth(s: RiskSnapshot, obs: Seq<RiskObservation>, k: int)
    requires
        !s.base_calibrated,
        s.vol_observations == 0,
        0 <= k < obs.len(),
    ensures
        spec_check_risk(run_checks(s, obs.take(k)), obs[k]).1.calibrate_base
            == (counts_toward_calibration(run_checks(s, obs.take(k)), obs[k])
                && counted_checks(s, obs.take(k)) + 1 == CALIBRATION_OBSERVATIONS),
{
    lemma_calibration_count(s, obs.take(k));
}

/// Which state a check ends in, read off the observation: paused while a
/// pause holds or once five rejections count (the count starting afresh
/// when a pause runs out); else reduce-only on an inventory breach; else a
/// volatility spike over a calibrated base; else normal.
pub proof fn lemma_check_outcome(s: RiskSnapshot, o: RiskObservation)
    ensures
        ({
            let held = s.pause_pending && !o.pause_expired;
            let rejections: int = if s.pause_pending { 0 } else { s.consecutive_rejections as int };
            let r = spec_check_risk(s, o).0;
            &&& (held || rejections >= 5 <==> r.state == RiskState::Paused)
            &&& (!held && rejections < 5 && o.inventory_breached <==> r.state == RiskState::InventoryBreached)
            &&& (r.state == RiskState::Normal ==> !o.inventory_breached && !held && rejections < 5)
            &&& (r.state == RiskState::HighVolatility ==> r.base_calibrated && !o.inventory_breached)
        }),
{
}

} // verus!
