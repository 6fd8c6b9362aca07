use vstd::prelude::*;

use super::{BonusTrack, PushContext, Reward, Tier};

verus! {

/// bonus for pushing a lot of commits at once
pub struct BigPush;

/// how many commits is considered "big"
pub const BIG_PUSH_COMMIT_COUNT: usize = 10;

impl BonusTrack for BigPush {
    open spec fn spec_tiers(&self) -> Seq<Tier> {
        super::multiplier_tiers()
    }

    open spec fn applies_requires(&self, ctx: PushContext) -> bool {
        true
    }

    open spec fn spec_applies(&self, ctx: PushContext) -> u32 {
        if ctx.commits().len() >= BIG_PUSH_COMMIT_COUNT { 1 } else { 0 }
    }

    fn id(&self) -> (r: &'static str)
        ensures
            r@ == "big_push"@,
    {
        "big_push"
    }

    fn name(&self) -> (r: &'static str)
        ensures
            r@ == "Big Push"@,
    {
        "Big Push"
    }

    fn description(&self) -> (r: &'static str)
        ensures
            r@ == "More points if you push 10+ commits at once."@,
    {
        "More points if you push 10+ commits at once."
    }

    fn tiers(&self) -> (r: Vec<Tier>) {
        super::make_multiplier_tiers()
    }

    fn applies(&self, ctx: &PushContext) -> (r: u32) {
        // NOTE: the description must stay in sync with BIG_PUSH_COMMIT_COUNT
        if ctx.push.commits().len() >= BIG_PUSH_COMMIT_COUNT {
            1
        } else {
            0
        }
    }
}

} // verus!
