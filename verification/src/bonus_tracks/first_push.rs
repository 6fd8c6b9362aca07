use vstd::prelude::*;

use super::{BonusTrack, PushContext, Reward, Tier};

verus! {

/// bonus for the first push of each calendar day
pub struct FirstPush;

impl BonusTrack for FirstPush {
    open spec fn spec_tiers(&self) -> Seq<Tier> {
        super::multiplier_tiers()
    }

    open spec fn applies_requires(&self, ctx: PushContext) -> bool {
        ctx.now_valid() && ctx.entries_valid()
    }

    open spec fn spec_applies(&self, ctx: PushContext) -> u32 {
        if ctx.pushed_on(ctx.clock.spec_today()) { 0 } else { 1 }
    }

    fn id(&self) -> (r: &'static str)
        ensures
            r@ == "first_push"@,
    {
        "first_push"
    }

    fn name(&self) -> (r: &'static str)
        ensures
            r@ == "First Push of the Day"@,
    {
        "First Push of the Day"
    }

    fn description(&self) -> (r: &'static str)
        ensures
            r@ == "Multiplier for your first push each day."@,
    {
        "Multiplier for your first push each day."
    }

    fn tiers(&self) -> (r: Vec<Tier>) {
        super::make_multiplier_tiers()
    }

    fn applies(&self, ctx: &PushContext) -> (r: u32) {
        let pushed_today = super::pushed_on_day(ctx.history, ctx.clock, ctx.clock.today());
        if pushed_today {
            0
        } else {
            1
        }
    }
}

} // verus!
