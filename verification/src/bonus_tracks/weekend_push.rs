use vstd::prelude::*;

use super::{BonusTrack, PushContext, Reward, Tier};

verus! {

/// bonus points for pushing on saturday or sunday
pub struct WeekendPush;

impl BonusTrack for WeekendPush {
    open spec fn spec_tiers(&self) -> Seq<Tier> {
        super::multiplier_tiers()
    }

    open spec fn applies_requires(&self, ctx: PushContext) -> bool {
        ctx.now_valid()
    }

    open spec fn spec_applies(&self, ctx: PushContext) -> u32 {
        let dow = ctx.clock.spec_today() % 7;
        if (dow == 2 || dow == 3) && ctx.commits().len() > 0 { 1 } else { 0 }
    }

    fn id(&self) -> (r: &'static str)
        ensures
            r@ == "weekend_push"@,
    {
        "weekend_push"
    }

    fn name(&self) -> (r: &'static str)
        ensures
            r@ == "Weekend Warrior"@,
    {
        "Weekend Warrior"
    }

    fn description(&self) -> (r: &'static str)
        ensures
            r@ == "Multiplier for pushing code on Saturday and Sunday."@,
    {
        "Multiplier for pushing code on Saturday and Sunday."
    }

    fn tiers(&self) -> (r: Vec<Tier>) {
        super::make_multiplier_tiers()
    }

    fn applies(&self, ctx: &PushContext) -> (r: u32) {
        let day_of_week = ctx.clock.day_of_week();
        if (day_of_week == 2 || day_of_week == 3) && ctx.push.commits().len() != 0 {
            1
        } else {
            0
        }
    }
}

} // verus!
