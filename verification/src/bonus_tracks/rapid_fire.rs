use vstd::prelude::*;

use super::{BonusTrack, PushContext, Reward, Tier};

verus! {

/// bonus for pushing multiple times in quick succession
pub struct RapidFire;

/// time window in seconds for rapid fire bonus
pub const RAPID_FIRE_WINDOW_SECS: u64 = 15 * 60;

/// the earliest timestamp that still counts as recent at `now`
pub open spec fn rapid_fire_cutoff(now: u64) -> u64 {
    if now >= RAPID_FIRE_WINDOW_SECS { (now - RAPID_FIRE_WINDOW_SECS) as u64 } else { 0 }
}

impl BonusTrack for RapidFire {
    open spec fn spec_tiers(&self) -> Seq<Tier> {
        super::multiplier_tiers()
    }

    open spec fn applies_requires(&self, ctx: PushContext) -> bool {
        true
    }

    open spec fn spec_applies(&self, ctx: PushContext) -> u32 {
        if ctx.commits().len() == 0 {
            0
        } else if exists|i: int|
            0 <= i < ctx.entries().len() && #[trigger] ctx.entries()[i].timestamp >= rapid_fire_cutoff(
                ctx.clock.now,
            ) {
            1
        } else {
            0
        }
    }

    fn id(&self) -> (r: &'static str)
        ensures
            r@ == "rapid_fire"@,
    {
        "rapid_fire"
    }

    fn name(&self) -> (r: &'static str)
        ensures
            r@ == "Rapid Fire"@,
    {
        "Rapid Fire"
    }

    fn description(&self) -> (r: &'static str)
        ensures
            r@ == "Bonus for pushing twice within 15 minutes."@,
    {
        "Bonus for pushing twice within 15 minutes."
    }

    fn tiers(&self) -> (r: Vec<Tier>) {
        super::make_multiplier_tiers()
    }

    fn applies(&self, ctx: &PushContext) -> (r: u32) {
        if ctx.push.commits().len() == 0 {
            return 0;
        }

        let cutoff = ctx.clock.now.saturating_sub(RAPID_FIRE_WINDOW_SECS);
        let entries = ctx.history.entries();
        let mut i: usize = 0;
        while i < entries.len()
            invariant
                0 <= i <= entries@.len(),
                entries@ == ctx.entries(),
                cutoff == rapid_fire_cutoff(ctx.clock.now),
                ctx.commits().len() > 0,
                forall|j: int| 0 <= j < i ==> #[trigger] entries@[j].timestamp < cutoff,
            decreases entries@.len() - i,
        {
            if entries[i].timestamp >= cutoff {
                assert(ctx.entries()[i as int].timestamp >= rapid_fire_cutoff(ctx.clock.now));
                return 1;
            }
            i = i + 1;
        }
        0
    }
}

} // verus!
