//! Properties that hold across the bonus tracks.

use vstd::prelude::*;

use super::streak::pushed_through;
use super::{
    count_lines_in, flat_bonus_tiers, multiplier_tiers, reward_at, BigPush, BonusTrack, CommitValue,
    EarlyPush, FirstPush, FridayAfternoon, ManyLinesChanged, MultipleRepos, OneLineChange, PushContext,
    RapidFire, Reward, Sniper, Streak, Tier, WeekendPush,
};
use crate::git::Commit;

verus! {

/// costs rise strictly from each tier to the next
pub open spec fn costs_increase(tiers: Seq<Tier>) -> bool {
    forall|i: int, j: int| 0 <= i < j < tiers.len() ==> tiers[i].cost < tiers[j].cost
}

/// the reward of a tier, as a number of points or a multiplier factor
pub open spec fn reward_amount(r: Reward) -> int {
    match r {
        Reward::Multiplier(m) => m as int,
        Reward::FlatPoints(p) => p as int,
    }
}

/// rewards rise strictly from each tier to the next, and all are of one kind
pub open spec fn rewards_increase(tiers: Seq<Tier>) -> bool {
    &&& forall|i: int, j: int|
        0 <= i < j < tiers.len() ==> reward_amount(tiers[i].reward) < reward_amount(tiers[j].reward)
    &&& forall|i: int, j: int|
        0 <= i < tiers.len() && 0 <= j < tiers.len() ==> (tiers[i].reward is Multiplier
            <==> tiers[j].reward is Multiplier)
}

/// a tier list that only gets better and more expensive
pub open spec fn well_ordered(tiers: Seq<Tier>) -> bool {
    costs_increase(tiers) && rewards_increase(tiers)
}

/// Every track's tiers grow in cost and in reward, and keep one reward kind.
pub proof fn law_tiers_are_ordered()
    ensures
        well_ordered(multiplier_tiers()),
        well_ordered(flat_bonus_tiers()),
        well_ordered(CommitValue.spec_tiers()),
        well_ordered(EarlyPush.spec_tiers()),
{
}

/// Level 0 is locked, and a level past the last tier gives nothing.
pub proof fn law_locked_and_out_of_range_levels(tiers: Seq<Tier>, level: int)
    requires
        level == 0 || level > tiers.len(),
    ensures
        reward_at(tiers, level) is None,
{
}

/// Every level from 1 up to the number of tiers gives that tier's reward.
pub proof fn law_unlocked_levels(tiers: Seq<Tier>, level: int)
    requires
        1 <= level <= tiers.len(),
    ensures
        reward_at(tiers, level) == Some(tiers[level - 1].reward),
{
}

proof fn lemma_count_empty(s: Seq<Commit>, lo: u64, hi: u64)
    requires
        s.len() == 0,
    ensures
        count_lines_in(s, lo, hi) == 0,
{
}

/// A push without new commits (a rebase, say) triggers none of the
/// conditional bonuses. Only the per-commit base value and the first push
/// of the day ignore the commit count.
pub proof fn law_empty_push_earns_no_bonus(ctx: PushContext)
    requires
        ctx.commits().len() == 0,
    ensures
        BigPush.spec_applies(ctx) == 0,
        OneLineChange.spec_applies(ctx) == 0,
        Sniper.spec_applies(ctx) == 0,
        ManyLinesChanged.spec_applies(ctx) == 0,
        FridayAfternoon.spec_applies(ctx) == 0,
        RapidFire.spec_applies(ctx) == 0,
        Streak.spec_applies(ctx) == 0,
        WeekendPush.spec_applies(ctx) == 0,
        EarlyPush.spec_applies(ctx) == 0,
        MultipleRepos.spec_applies(ctx) == 0,
{
    lemma_count_empty(ctx.commits(), 1, 1);
    lemma_count_empty(ctx.commits(), super::many_lines_changed::MANY_LINES_COUNT, u64::MAX);
}

/// Multiplier tracks apply at most once per push.
pub proof fn law_multipliers_apply_at_most_once(ctx: PushContext)
    ensures
        BigPush.spec_applies(ctx) <= 1,
        FirstPush.spec_applies(ctx) <= 1,
        FridayAfternoon.spec_applies(ctx) <= 1,
        RapidFire.spec_applies(ctx) <= 1,
        Streak.spec_applies(ctx) <= 1,
        WeekendPush.spec_applies(ctx) <= 1,
        EarlyPush.spec_applies(ctx) <= 1,
        MultipleRepos.spec_applies(ctx) <= 1,
        CommitValue.spec_applies(ctx) == 1,
{
}

/// The first push of the day cannot also extend a streak or spread to a
/// second repo: both of those need an earlier push today.
pub proof fn law_first_push_excludes_streak_and_spread(ctx: PushContext)
    ensures
        FirstPush.spec_applies(ctx) == 1 ==> Streak.spec_applies(ctx) == 0,
        FirstPush.spec_applies(ctx) == 1 ==> MultipleRepos.spec_applies(ctx) == 0,
{
    if FirstPush.spec_applies(ctx) == 1 && Streak.spec_applies(ctx) != 0 {
        let today = ctx.clock.spec_today();
        assert(pushed_through(ctx.entries(), *ctx.clock, today, 3));
        assert(super::pushed_on(ctx.entries(), *ctx.clock, today - 0));
    }
}

/// The two single-line tracks count the same commits.
pub proof fn law_sniper_matches_one_line_change(ctx: PushContext)
    ensures
        Sniper.spec_applies(ctx) == OneLineChange.spec_applies(ctx),
        Sniper.spec_tiers() == OneLineChange.spec_tiers(),
{
}

} // verus!
