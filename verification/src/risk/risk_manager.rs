//! Daily-loss kill switch and position-limit decisions.

use vstd::prelude::*;
use vstd::string::StrSliceExecFns;

verus! {

/// Why quoting was stopped.
#[derive(Debug, Clone, PartialEq, Eq)]
pub struct KillSwitchError(pub String);

/// Where the net position stands against its limits: under the
/// reduce-only threshold, between the threshold and the maximum, or at or
/// beyond the maximum.
#[derive(Debug, Clone, Copy, PartialEq, Eq)]
pub enum PositionTier {
    WithinLimits,
    Reducing,
    AtLimit,
}

/// What the risk filter does to the quote ladder.
#[derive(Debug, Clone, Copy, PartialEq, Eq)]
pub enum LadderAdjustment {
    Keep,
    DropBids,
    DropAsks,
}

/// The ladder adjustment for a position tier. From the reduce-only
/// threshold on, only quotes that reduce the inventory are kept: a long
/// position (`long`) loses its bids, any other its asks. Under the threshold
/// the ladder is kept whole.
pub open spec fn spec_adjustment(tier: PositionTier, long: bool) -> LadderAdjustment {
    match tier {
        PositionTier::WithinLimits => LadderAdjustment::Keep,
        _ => if long { LadderAdjustment::DropBids } else { LadderAdjustment::DropAsks },
    }
}

/// One application of the risk filter to a switch whose tripped state is
/// `active`: the switch's state afterwards, and the adjustment or the
/// refusal message.
pub open spec fn spec_check(
    active: bool,
    loss_limit_breached: bool,
    breach_message: Seq<char>,
    tier: PositionTier,
    long: bool,
) -> (bool, Result<LadderAdjustment, Seq<char>>) {
    if active {
        (true, Err("Kill switch active"@))
    } else if loss_limit_breached {
        (true, Err(breach_message))
    } else {
        (false, Ok(spec_adjustment(tier, long)))
    }
}

/// The view of a risk-filter result: the adjustment or the refusal message.
pub open spec fn check_result_view(r: Result<LadderAdjustment, KillSwitchError>) -> Result<LadderAdjustment, Seq<char>> {
    match r {
        Ok(a) => Ok(a),
        Err(e) => Err(e.0@),
    }
}

/// The latching kill switch of the risk manager.
pub struct KillSwitch {
    active: bool,
}

impl KillSwitch {
    /// The switch has tripped.
    pub closed spec fn active(self) -> bool {
        self.active
    }

    /// An untripped switch.
    pub fn new() -> (r: Self)
        ensures
            !r.active(),
    {
        KillSwitch { active: false }
    }

    pub fn is_kill_switch_active(&self) -> (r: bool)
        ensures
            r == self.active(),
    {
        self.active
    }

    /// Applies the risk filter. A tripped switch refuses every ladder. An
    /// untripped one trips, and refuses with `breach_message`, when the daily
    /// loss limit is breached; otherwise it passes the ladder with the
    /// adjustment its position tier calls for.
    pub fn check(
        &mut self,
        loss_limit_breached: bool,
        breach_message: String,
        tier: PositionTier,
        long: bool,
    ) -> (r: Result<LadderAdjustment, KillSwitchError>)
        ensures
            (final(self).active(), check_result_view(r))
                == spec_check(old(self).active(), loss_limit_breached, breach_message@, tier, long),
    {
        if self.active {
            return Err(KillSwitchError(String::from_str("Kill switch active")));
        }
        if loss_limit_breached {
            self.active = true;
            return Err(KillSwitchError(breach_message));
        }
        Ok(match tier {
            PositionTier::WithinLimits => LadderAdjustment::Keep,
            _ => if long { LadderAdjustment::DropBids } else { LadderAdjustment::DropAsks },
        })
    }

    /// Re-arms the switch.
    pub fn reset(&mut self)
        ensures
            !final(self).active(),
    {
        self.active = false;
    }
}

/// Once tripped, the switch refuses every ladder and stays tripped,
/// whatever the losses and positions, until it is reset.
pub proof fn lemma_kill_switch_latches(
    loss_limit_breached: bool,
    breach_message: Seq<char>,
    tier: PositionTier,
    long: bool,
)
    ensures
        spec_check(true, loss_limit_breached, breach_message, tier, long).0,
        spec_check(true, loss_limit_breached, breach_message, tier, long).1 is Err,
{
}

/// A breach of the daily loss limit trips the switch and refuses the ladder.
pub proof fn lemma_loss_breach_trips(
    active: bool,
    breach_message: Seq<char>,
    tier: PositionTier,
    long: bool,
)
    ensures
        spec_check(active, true, breach_message, tier, long).0,
        spec_check(active, true, breach_message, tier, long).1 is Err,
{
}

/// An untripped switch that sees no breach passes the ladder and stays
/// untripped; what it does to the ladder depends only on the position.
pub proof fn lemma_no_breach_passes(
    breach_message: Seq<char>,
    tier: PositionTier,
    long: bool,
)
    ensures
        !spec_check(false, false, breach_message, tier, long).0,
        spec_check(false, false, breach_message, tier, long).1 == Ok::<LadderAdjustment, Seq<char>>(spec_adjustment(tier, long)),
{
}

/// From the reduce-only threshold on, an untripped switch that sees no
/// breach keeps only the quotes that reduce the inventory: a long position
/// quotes no bids, any other no asks.
pub proof fn lemma_reduce_only_from_threshold(breach_message: Seq<char>, tier: PositionTier, long: bool)
    requires
        tier != PositionTier::WithinLimits,
    ensures
        long ==> spec_check(false, false, breach_message, tier, long).1
            == Ok::<LadderAdjustment, Seq<char>>(LadderAdjustment::DropBids),
        !long ==> spec_check(false, false, breach_message, tier, long).1
            == Ok::<LadderAdjustment, Seq<char>>(LadderAdjustment::DropAsks),
{
}

/// Under the reduce-only threshold an untripped switch that sees no breach
/// keeps the whole ladder, long or short.
pub proof fn lemma_within_limits_keeps(breach_message: Seq<char>, long: bool)
    ensures
        spec_check(false, false, breach_message, PositionTier::WithinLimits, long)
            == (false, Ok::<LadderAdjustment, Seq<char>>(LadderAdjustment::Keep)),
{
}

} // verus!
