use vstd::prelude::*;

use super::{BonusTrack, PushContext, Reward, Tier};

verus! {

/// bonus for pushing to multiple repos in a day
pub struct MultipleRepos;

impl<'a> PushContext<'a> {
    /// the `i`th recorded push went to the same remote as this push
    pub open spec fn entry_same_repo(self, i: int) -> bool {
        self.entries()[i].remote_url@ == self.push.spec_remote_url()
    }

    /// this push goes to a remote that no push earlier today went to
    pub open spec fn new_repo_today(self) -> bool {
        forall|i: int|
            0 <= i < self.entries().len() && #[trigger] self.entry_day(i) == self.clock.spec_today()
                ==> !self.entry_same_repo(i)
    }
}

impl BonusTrack for MultipleRepos {
    open spec fn spec_tiers(&self) -> Seq<Tier> {
        super::multiplier_tiers()
    }

    open spec fn applies_requires(&self, ctx: PushContext) -> bool {
        ctx.now_valid() && ctx.entries_valid()
    }

    open spec fn spec_applies(&self, ctx: PushContext) -> u32 {
        // applies if we've pushed to at least one repo today (so this isn't
        // our first) and the current repo is not one we've already pushed to today
        if ctx.commits().len() > 0 && ctx.pushed_on(ctx.clock.spec_today()) && ctx.new_repo_today() {
            1
        } else {
            0
        }
    }

    fn id(&self) -> (r: &'static str)
        ensures
            r@ == "multiple_repos"@,
    {
        "multiple_repos"
    }

    fn name(&self) -> (r: &'static str)
        ensures
            r@ == "Spread the Love"@,
    {
        "Spread the Love"
    }

    fn description(&self) -> (r: &'static str)
        ensures
            r@ == "Multiplier for each time you push to a different repo today (after the first)."@,
    {
        "Multiplier for each time you push to a different repo today (after the first)."
    }

    fn tiers(&self) -> (r: Vec<Tier>) {
        super::make_multiplier_tiers()
    }

    fn applies(&self, ctx: &PushContext) -> (r: u32) {
        if ctx.push.commits().len() == 0 {
            return 0;
        }

        let today = ctx.clock.today();
        let entries = ctx.history.entries();
        let mut has_pushed_before_today = false;
        let mut is_new_repo = true;
        let mut i: usize = 0;
        while i < entries.len()
            invariant
                0 <= i <= entries@.len(),
                entries@ == ctx.entries(),
                today == ctx.clock.spec_today(),
                ctx.entries_valid(),
                has_pushed_before_today == exists|j: int| 0 <= j < i && #[trigger] ctx.entry_day(j) == today,
                is_new_repo == forall|j: int|
                    0 <= j < i && #[trigger] ctx.entry_day(j) == today ==> !ctx.entry_same_repo(j),
            decreases entries@.len() - i,
        {
            if ctx.clock.day_of(entries[i].timestamp) == today {
                assert(ctx.entry_day(i as int) == today);
                has_pushed_before_today = true;
                if ctx.push.is_remote(&entries[i].remote_url) {
                    is_new_repo = false;
                }
            }
            i = i + 1;
        }

        proof {
            if has_pushed_before_today {
                let j = choose|j: int| 0 <= j < i && #[trigger] ctx.entry_day(j) == today;
                assert(super::entry_day(ctx.entries(), *ctx.clock, j) == today);
            }
            if ctx.pushed_on(today as int) {
                let j = choose|j: int|
                    0 <= j < ctx.entries().len() && #[trigger] super::entry_day(ctx.entries(), *ctx.clock, j)
                        == today;
                assert(ctx.entry_day(j) == today);
            }
        }
        if is_new_repo && has_pushed_before_today {
            1
        } else {
            0
        }
    }
}

} // verus!
