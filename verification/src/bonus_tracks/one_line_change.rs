use vstd::prelude::*;

use super::{BonusTrack, PushContext, Reward, Tier};

verus! {

/// bonus for surgical single-line commits
pub struct OneLineChange;

impl BonusTrack for OneLineChange {
    open spec fn spec_tiers(&self) -> Seq<Tier> {
        super::flat_bonus_tiers()
    }

    open spec fn applies_requires(&self, ctx: PushContext) -> bool {
        true
    }

    open spec fn spec_applies(&self, ctx: PushContext) -> u32 {
        super::count_lines_in(ctx.commits(), 1, 1) as u32
    }

    fn id(&self) -> (r: &'static str)
        ensures
            r@ == "one_line_change"@,
    {
        "one_line_change"
    }

    fn name(&self) -> (r: &'static str)
        ensures
            r@ == "Sniper"@,
    {
        "Sniper"
    }

    fn description(&self) -> (r: &'static str)
        ensures
            r@ == "More points for surgical single-line commits."@,
    {
        "More points for surgical single-line commits."
    }

    fn tiers(&self) -> (r: Vec<Tier>) {
        super::make_flat_bonus_tiers()
    }

    fn applies(&self, ctx: &PushContext) -> (r: u32) {
        super::count_commits_with_lines(ctx.push.commits(), 1, 1)
    }
}

} // verus!
