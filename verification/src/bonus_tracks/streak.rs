use vstd::prelude::*;
use vstd::set_lib::{lemma_int_range, lemma_len_subset, lemma_map_size, set_int_range};

use super::{entries_valid, entry_day, pushed_on, BonusTrack, PushContext, Reward, Tier};
use crate::clock::Clock;
use crate::history::{PushEntry, PushHistory};

verus! {

/// bonus for pushing consistently over multiple days
pub struct Streak;

/// minimum consecutive days to trigger the bonus
pub const MIN_STREAK_DAYS: u32 = 3;

/// there was a push on each of the `n` local days ending on `last_day`
pub open spec fn pushed_through(entries: Seq<PushEntry>, clock: Clock, last_day: int, n: int) -> bool {
    forall|k: int| 0 <= k < n ==> #[trigger] pushed_on(entries, clock, last_day - k)
}

/// a run of consecutive push days cannot be longer than the number of
/// recorded pushes: each day needs a push of its own
pub proof fn lemma_streak_at_most_entries(entries: Seq<PushEntry>, clock: Clock, last_day: int, n: int)
    requires
        0 <= n,
        pushed_through(entries, clock, last_day, n),
    ensures
        n <= entries.len(),
{
    let f = |k: int|
        choose|i: int| 0 <= i < entries.len() && #[trigger] entry_day(entries, clock, i) == last_day - k;
    let x = set_int_range(0, n);
    let y = set_int_range(0, entries.len() as int);
    lemma_int_range(0, n);
    lemma_int_range(0, entries.len() as int);
    assert forall|k: int| #[trigger] x.contains(k) implies 0 <= f(k) < entries.len() && entry_day(
        entries,
        clock,
        f(k),
    ) == last_day - k by {
        assert(pushed_on(entries, clock, last_day - k));
    }
    assert(vstd::relations::injective_on(f, x)) by {
        assert forall|k1: int, k2: int|
            x.contains(k1) && x.contains(k2) && #[trigger] f(k1) == #[trigger] f(k2) implies k1 == k2 by {
            assert(entry_day(entries, clock, f(k1)) == last_day - k1);
            assert(entry_day(entries, clock, f(k2)) == last_day - k2);
        }
    }
    let image = x.map(f);
    lemma_map_size(x, image, f);
    assert(image.subset_of(y)) by {
        assert forall|i: int| #[trigger] image.contains(i) implies y.contains(i) by {
            let k = choose|k: int| x.contains(k) && f(k) == i;
        }
    }
    lemma_len_subset(image, y);
}

/// the local day of any timestamp is well inside `i64`
proof fn lemma_day_range(clock: Clock, t: u64)
    requires
        clock.valid_timestamp(t),
    ensures
        -106751991167301 <= clock.spec_day_of(t) <= 106751991167301,
{
    let l = clock.local_seconds_of(t);
    if l >= 0 {
        assert(l / 86400 <= 106751991167301) by (nonlinear_arith)
            requires 0 <= l <= 0x7fff_ffff_ffff_ffff;
    } else {
        assert((-l) / 86400 <= 106751991167301) by (nonlinear_arith)
            requires 0 < -l <= 0x8000_0000_0000_0000;
    }
}

/// count consecutive days with at least one push, ending today
pub fn consecutive_push_days(history: &PushHistory, clock: &Clock) -> (r: u32)
    requires
        clock.valid_timestamp(clock.now),
        entries_valid(history.entries@, *clock),
        !pushed_through(history.entries@, *clock, clock.spec_today(), u32::MAX as int + 1),
    ensures
        pushed_through(history.entries@, *clock, clock.spec_today(), r as int),
        !pushed_on(history.entries@, *clock, clock.spec_today() - r),
{
    let ghost entries = history.entries@;
    let ghost today = clock.spec_today();
    let len = history.entries().len();
    let mut count: usize = 0;
    let mut day = clock.today();

    while count < len && super::pushed_on_day(history, clock, day)
        invariant
            len == entries.len(),
            entries == history.entries@,
            today == clock.spec_today(),
            entries_valid(entries, *clock),
            count <= len,
            day == today - count,
            pushed_through(entries, *clock, today, count as int),
        decreases len - count,
    {
        proof {
            let i = choose|i: int| 0 <= i < entries.len() && #[trigger] entry_day(entries, *clock, i) == day;
            lemma_day_range(*clock, entries[i].timestamp);
            assert forall|k: int| 0 <= k < count + 1 implies #[trigger] pushed_on(entries, *clock, today - k) by {
                if k < count {
                    assert(pushed_on(entries, *clock, today - k));
                }
            }
        }
        count = count + 1;
        day = day - 1;
    }
    proof {
        if count == len && pushed_on(entries, *clock, today - count) {
            assert forall|k: int| 0 <= k < count + 1 implies #[trigger] pushed_on(entries, *clock, today - k) by {
                if k < count {
                    assert(pushed_on(entries, *clock, today - k));
                }
            }
            lemma_streak_at_most_entries(entries, *clock, today, count + 1);
        }
        if count > u32::MAX {
            assert(pushed_through(entries, *clock, today, u32::MAX as int + 1)) by {
                assert forall|k: int| 0 <= k < u32::MAX as int + 1 implies #[trigger] pushed_on(entries, *clock, today - k) by {
                    assert(k < count);
                }
            }
        }
    }
    count as u32
}

impl BonusTrack for Streak {
    open spec fn spec_tiers(&self) -> Seq<Tier> {
        super::multiplier_tiers()
    }

    open spec fn applies_requires(&self, ctx: PushContext) -> bool {
        &&& ctx.now_valid()
        &&& ctx.entries_valid()
        &&& !pushed_through(ctx.entries(), *ctx.clock, ctx.clock.spec_today(), u32::MAX as int + 1)
    }

    open spec fn spec_applies(&self, ctx: PushContext) -> u32 {
        if ctx.commits().len() > 0 && pushed_through(
            ctx.entries(),
            *ctx.clock,
            ctx.clock.spec_today(),
            MIN_STREAK_DAYS as int,
        ) {
            1
        } else {
            0
        }
    }

    fn id(&self) -> (r: &'static str)
        ensures
            r@ == "streak"@,
    {
        "streak"
    }

    fn name(&self) -> (r: &'static str)
        ensures
            r@ == "Hot Streak"@,
    {
        "Hot Streak"
    }

    fn description(&self) -> (r: &'static str)
        ensures
            r@ == "Multiplier for pushing 3+ days in a row."@,
    {
        "Multiplier for pushing 3+ days in a row."
    }

    fn tiers(&self) -> (r: Vec<Tier>) {
        super::make_multiplier_tiers()
    }

    fn applies(&self, ctx: &PushContext) -> (r: u32) {
        if ctx.push.commits().len() == 0 {
            return 0;
        }

        let days = consecutive_push_days(ctx.history, ctx.clock);
        proof {
            let entries = ctx.entries();
            let today = ctx.clock.spec_today();
            if days < MIN_STREAK_DAYS {
                // the run stops at `today - days`, so three days were not all pushed on
                if pushed_through(entries, *ctx.clock, today, MIN_STREAK_DAYS as int) {
                    assert(pushed_on(entries, *ctx.clock, today - days));
                }
            } else {
                assert forall|k: int| 0 <= k < MIN_STREAK_DAYS implies #[trigger] pushed_on(entries, *ctx.clock, today - k) by {
                    assert(k < days);
                }
            }
        }
        if days >= MIN_STREAK_DAYS {
            1
        } else {
            0
        }
    }
}

} // verus!
