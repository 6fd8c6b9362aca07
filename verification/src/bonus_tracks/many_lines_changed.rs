use vstd::prelude::*;

use super::{BonusTrack, PushContext, Reward, Tier};

verus! {

/// bonus for commits with lots of lines changed
pub struct ManyLinesChanged;

/// how many lines is considered "many"
pub const MANY_LINES_COUNT: u64 = 1_000;

impl BonusTrack for ManyLinesChanged {
    open spec fn spec_tiers(&self) -> Seq<Tier> {
        super::flat_bonus_tiers()
    }

    open spec fn applies_requires(&self, ctx: PushContext) -> bool {
        true
    }

    open spec fn spec_applies(&self, ctx: PushContext) -> u32 {
        super::count_lines_in(ctx.commits(), MANY_LINES_COUNT, u64::MAX) as u32
    }

    fn id(&self) -> (r: &'static str)
        ensures
            r@ == "many_lines_changed"@,
    {
        "many_lines_changed"
    }

    fn name(&self) -> (r: &'static str)
        ensures
            r@ == "Moby Diff"@,
    {
        "Moby Diff"
    }

    fn description(&self) -> (r: &'static str)
        ensures
            r@ == "More points for big commits with at least 1,000 lines changed."@,
    {
        "More points for big commits with at least 1,000 lines changed."
    }

    fn tiers(&self) -> (r: Vec<Tier>) {
        super::make_flat_bonus_tiers()
    }

    fn applies(&self, ctx: &PushContext) -> (r: u32) {
        super::count_commits_with_lines(ctx.push.commits(), MANY_LINES_COUNT, u64::MAX)
    }
}

} // verus!
