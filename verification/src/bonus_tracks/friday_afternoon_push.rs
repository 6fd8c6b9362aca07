use vstd::prelude::*;

use super::{BonusTrack, PushContext, Reward, Tier};

verus! {

/// bonus for deploying on friday afternoon (you daredevil)
pub struct FridayAfternoon;

/// day-of-week number of friday (thursday is 0)
pub const FRIDAY: i64 = 1;

/// 3pm, in seconds since midnight
pub const THREE_PM: i64 = 15 * 3600;

impl BonusTrack for FridayAfternoon {
    open spec fn spec_tiers(&self) -> Seq<Tier> {
        super::multiplier_tiers()
    }

    open spec fn applies_requires(&self, ctx: PushContext) -> bool {
        ctx.now_valid()
    }

    open spec fn spec_applies(&self, ctx: PushContext) -> u32 {
        if ctx.clock.spec_today() % 7 == FRIDAY
            && ctx.clock.local_seconds_of(ctx.clock.now) % 86400 >= THREE_PM
            && ctx.commits().len() > 0 {
            1
        } else {
            0
        }
    }

    fn id(&self) -> (r: &'static str)
        ensures
            r@ == "friday_afternoon"@,
    {
        "friday_afternoon"
    }

    fn name(&self) -> (r: &'static str)
        ensures
            r@ == "Friday Afternoon Deploy"@,
    {
        "Friday Afternoon Deploy"
    }

    fn description(&self) -> (r: &'static str)
        ensures
            r@ == "Bonus for pushing code on Friday after 3pm. Living dangerously."@,
    {
        "Bonus for pushing code on Friday after 3pm. Living dangerously."
    }

    fn tiers(&self) -> (r: Vec<Tier>) {
        super::make_multiplier_tiers()
    }

    fn applies(&self, ctx: &PushContext) -> (r: u32) {
        let is_friday = ctx.clock.day_of_week() == FRIDAY;
        let is_afternoon = ctx.clock.local_seconds_since_midnight() >= THREE_PM;

        if is_friday && is_afternoon && ctx.push.commits().len() != 0 {
            1
        } else {
            0
        }
    }
}

} // verus!
