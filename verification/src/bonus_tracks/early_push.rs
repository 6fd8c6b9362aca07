use vstd::prelude::*;

use super::{BonusTrack, PushContext, Reward, Tier};

verus! {

/// bonus for pushing early in the morning
pub struct EarlyPush;

/// 6am, in seconds since midnight
pub const SIX_AM: i64 = 6 * 3600;

/// 9am, in seconds since midnight
pub const NINE_AM: i64 = 9 * 3600;

impl BonusTrack for EarlyPush {
    open spec fn spec_tiers(&self) -> Seq<Tier> {
        seq![
            Tier { cost: 50, reward: Reward::Multiplier(2) },
            Tier { cost: 500, reward: Reward::Multiplier(3) },
            Tier { cost: 3000, reward: Reward::Multiplier(4) },
            Tier { cost: 20000, reward: Reward::Multiplier(5) },
            Tier { cost: 120000, reward: Reward::Multiplier(6) },
        ]
    }

    open spec fn applies_requires(&self, ctx: PushContext) -> bool {
        ctx.now_valid()
    }

    open spec fn spec_applies(&self, ctx: PushContext) -> u32 {
        let secs = ctx.clock.local_seconds_of(ctx.clock.now) % 86400;
        if SIX_AM <= secs <= NINE_AM && ctx.commits().len() > 0 { 1 } else { 0 }
    }

    fn id(&self) -> (r: &'static str)
        ensures
            r@ == "early_push"@,
    {
        "early_push"
    }

    fn name(&self) -> (r: &'static str)
        ensures
            r@ == "Early Bird"@,
    {
        "Early Bird"
    }

    fn description(&self) -> (r: &'static str)
        ensures
            r@ == "Multiplier for waking up and pushing code before 9am."@,
    {
        "Multiplier for waking up and pushing code before 9am."
    }

    fn tiers(&self) -> (r: Vec<Tier>) {
        vec![
            Tier { cost: 50, reward: Reward::Multiplier(2) },
            Tier { cost: 500, reward: Reward::Multiplier(3) },
            Tier { cost: 3000, reward: Reward::Multiplier(4) },
            Tier { cost: 20000, reward: Reward::Multiplier(5) },
            Tier { cost: 120000, reward: Reward::Multiplier(6) },
        ]
    }

    fn applies(&self, ctx: &PushContext) -> (r: u32) {
        let after_six = ctx.clock.local_seconds_since_midnight() >= SIX_AM;
        let before_nine = ctx.clock.local_seconds_since_midnight() <= NINE_AM;

        if after_six && before_nine && ctx.push.commits().len() != 0 {
            1
        } else {
            0
        }
    }
}

} // verus!
