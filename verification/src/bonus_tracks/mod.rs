//! Bonus tracks: ways to earn extra points on a push, unlocked and upgraded
//! tier by tier.

use vstd::prelude::*;

use crate::clock::Clock;
use crate::git::{Commit, Push};
use crate::history::{PushEntry, PushHistory};

pub mod big_push;
pub mod commit_value;
pub mod early_push;
pub mod first_push;
pub mod friday_afternoon_push;
pub mod laws;
pub mod many_lines_changed;
pub mod multiple_repos;
pub mod one_line_change;
pub mod rapid_fire;
pub mod sniper;
pub mod streak;
pub mod weekend_push;

pub use big_push::BigPush;
pub use commit_value::CommitValue;
pub use early_push::EarlyPush;
pub use first_push::FirstPush;
pub use friday_afternoon_push::FridayAfternoon;
pub use many_lines_changed::ManyLinesChanged;
pub use multiple_repos::MultipleRepos;
pub use one_line_change::OneLineChange;
pub use rapid_fire::RapidFire;
pub use sniper::Sniper;
pub use streak::Streak;
pub use weekend_push::WeekendPush;

verus! {

/// what a bonus awards when it applies
#[derive(Debug, Clone, Copy, PartialEq, Eq, Structural)]
pub enum Reward {
    Multiplier(u32),
    FlatPoints(u64),
}

/// cost to reach a tier and reward at that tier
#[derive(Debug, Clone, Copy, PartialEq, Eq, Structural)]
pub struct Tier {
    pub cost: u64,
    pub reward: Reward,
}

/// context for evaluating bonuses on a push
pub struct PushContext<'a> {
    pub push: &'a Push,
    pub history: &'a PushHistory,
    pub clock: &'a Clock,
}

impl<'a> PushContext<'a> {
    /// the commits of the push being scored
    pub open spec fn commits(self) -> Seq<Commit> {
        self.push.spec_commits()
    }

    /// the earlier pushes
    pub open spec fn entries(self) -> Seq<PushEntry> {
        self.history.entries@
    }

    /// `now` converts to local time without overflow
    pub open spec fn now_valid(self) -> bool {
        self.clock.valid_timestamp(self.clock.now)
    }

    /// every recorded push converts to local time without overflow
    pub open spec fn entries_valid(self) -> bool {
        entries_valid(self.entries(), *self.clock)
    }

    /// the local day of the `i`th recorded push
    pub open spec fn entry_day(self, i: int) -> int {
        entry_day(self.entries(), *self.clock, i)
    }

    /// some recorded push falls on local day `day`
    pub open spec fn pushed_on(self, day: int) -> bool {
        pushed_on(self.entries(), *self.clock, day)
    }
}

/// every recorded push converts to local time without overflow
pub open spec fn entries_valid(entries: Seq<PushEntry>, clock: Clock) -> bool {
    forall|i: int| 0 <= i < entries.len() ==> clock.valid_timestamp(#[trigger] entries[i].timestamp)
}

/// the local day of the `i`th recorded push
pub open spec fn entry_day(entries: Seq<PushEntry>, clock: Clock, i: int) -> int {
    clock.spec_day_of(entries[i].timestamp)
}

/// some recorded push falls on local day `day`
pub open spec fn pushed_on(entries: Seq<PushEntry>, clock: Clock, day: int) -> bool {
    exists|i: int| 0 <= i < entries.len() && #[trigger] entry_day(entries, clock, i) == day
}

/// the reward at `level` of a track with these tiers; level 0 is locked
pub open spec fn reward_at(tiers: Seq<Tier>, level: int) -> Option<Reward> {
    if 1 <= level <= tiers.len() {
        Some(tiers[level - 1].reward)
    } else {
        None
    }
}

/// the number of commits whose changed-line count lies in `lo..=hi`
pub open spec fn count_lines_in(s: Seq<Commit>, lo: u64, hi: u64) -> nat
    decreases s.len(),
{
    if s.len() == 0 {
        0
    } else {
        count_lines_in(s.drop_last(), lo, hi) + if lo <= s.last().lines_changed <= hi {
            1nat
        } else {
            0nat
        }
    }
}

proof fn lemma_count_lines_bound(s: Seq<Commit>, lo: u64, hi: u64)
    ensures
        count_lines_in(s, lo, hi) <= s.len(),
    decreases s.len(),
{
    if s.len() > 0 {
        lemma_count_lines_bound(s.drop_last(), lo, hi);
    }
}

/// counts the commits whose changed-line count lies in `lo..=hi`,
/// truncated to `u32` as a count cast would
pub fn count_commits_with_lines(commits: &[Commit], lo: u64, hi: u64) -> (r: u32)
    ensures
        r == count_lines_in(commits@, lo, hi) as u32,
{
    let mut count: usize = 0;
    let mut i: usize = 0;
    while i < commits.len()
        invariant
            0 <= i <= commits@.len(),
            count == count_lines_in(commits@.take(i as int), lo, hi),
            count <= i,
        decreases commits@.len() - i,
    {
        assert(commits@.take(i + 1).drop_last() =~= commits@.take(i as int));
        let lines = commits[i].lines_changed;
        if lo <= lines && lines <= hi {
            count = count + 1;
        }
        i = i + 1;
    }
    assert(commits@.take(commits@.len() as int) =~= commits@);
    #[verifier::truncate]
    let r = count as u32;
    r
}

/// the tiers shared by the multiplier tracks: x2 up to x6
pub open spec fn multiplier_tiers() -> Seq<Tier> {
    seq![
        Tier { cost: 100, reward: Reward::Multiplier(2) },
        Tier { cost: 500, reward: Reward::Multiplier(3) },
        Tier { cost: 1500, reward: Reward::Multiplier(4) },
        Tier { cost: 5000, reward: Reward::Multiplier(5) },
        Tier { cost: 15000, reward: Reward::Multiplier(6) },
    ]
}

/// the tiers shared by the per-commit flat bonus tracks
pub open spec fn flat_bonus_tiers() -> Seq<Tier> {
    seq![
        Tier { cost: 50, reward: Reward::FlatPoints(5) },
        Tier { cost: 200, reward: Reward::FlatPoints(10) },
        Tier { cost: 800, reward: Reward::FlatPoints(20) },
        Tier { cost: 3000, reward: Reward::FlatPoints(50) },
    ]
}

pub fn make_multiplier_tiers() -> (r: Vec<Tier>)
    ensures
        r@ == multiplier_tiers(),
{
    vec![
        Tier { cost: 100, reward: Reward::Multiplier(2) },
        Tier { cost: 500, reward: Reward::Multiplier(3) },
        Tier { cost: 1500, reward: Reward::Multiplier(4) },
        Tier { cost: 5000, reward: Reward::Multiplier(5) },
        Tier { cost: 15000, reward: Reward::Multiplier(6) },
    ]
}

pub fn make_flat_bonus_tiers() -> (r: Vec<Tier>)
    ensures
        r@ == flat_bonus_tiers(),
{
    vec![
        Tier { cost: 50, reward: Reward::FlatPoints(5) },
        Tier { cost: 200, reward: Reward::FlatPoints(10) },
        Tier { cost: 800, reward: Reward::FlatPoints(20) },
        Tier { cost: 3000, reward: Reward::FlatPoints(50) },
    ]
}

/// whether some recorded push falls on local day `day`
pub fn pushed_on_day(history: &PushHistory, clock: &Clock, day: i64) -> (r: bool)
    requires
        entries_valid(history.entries@, *clock),
    ensures
        r == pushed_on(history.entries@, *clock, day as int),
{
    let entries = history.entries();
    let mut i: usize = 0;
    while i < entries.len()
        invariant
            0 <= i <= entries@.len(),
            entries@ == history.entries@,
            entries_valid(history.entries@, *clock),
            forall|j: int| 0 <= j < i ==> #[trigger] entry_day(history.entries@, *clock, j) != day,
        decreases entries@.len() - i,
    {
        if clock.day_of(entries[i].timestamp) == day {
            assert(entry_day(history.entries@, *clock, i as int) == day);
            return true;
        }
        i = i + 1;
    }
    false
}

/// a bonus track that can be unlocked and upgraded
pub trait BonusTrack {
    /// all tiers of this track, cheapest first
    spec fn spec_tiers(&self) -> Seq<Tier>;

    /// what `applies` needs of the context
    spec fn applies_requires(&self, ctx: PushContext) -> bool;

    /// how many times this bonus applies to the push in `ctx`
    spec fn spec_applies(&self, ctx: PushContext) -> u32;

    /// unique identifier for state storage
    fn id(&self) -> &'static str;

    /// display name for the UI
    fn name(&self) -> &'static str;

    /// description for the UI
    fn description(&self) -> &'static str;

    /// all tiers for this track
    fn tiers(&self) -> (r: Vec<Tier>)
        ensures
            r@ == self.spec_tiers(),
    ;

    /// how many times does this bonus apply to the current push?
    /// returns 0 if it doesn't apply, 1+ if it does.
    /// for multipliers, any non-zero count means the multiplier applies once.
    /// for flat bonuses, the count is multiplied by the flat amount.
    fn applies(&self, ctx: &PushContext) -> (r: u32)
        requires
            self.applies_requires(*ctx),
        ensures
            r == self.spec_applies(*ctx),
    ;

    /// what reward does the user get at the given level?
    /// level 0 = not unlocked, level 1 = first tier, etc.
    fn reward_at_level(&self, level: u32) -> (r: Option<Reward>)
        ensures
            r == reward_at(self.spec_tiers(), level as int),
    {
        if level == 0 {
            return None;
        }
        let tiers = self.tiers();
        let idx = (level - 1) as usize;
        if idx < tiers.len() {
            Some(tiers[idx].reward)
        } else {
            None
        }
    }
}

} // verus!
