//! Development helpers: simulated pushes.

use vstd::prelude::*;

use crate::git::{Commit, Push};
use crate::history::{PushEntry, PushHistory};
use crate::hook::{lines_changed, total_lines};
use crate::text::{decimal, decimal_digits};

verus! {

/// lines changed per simulated commit when none are given
pub const DEFAULT_LINES: u64 = 10;

/// the lines changed by the `i`th simulated commit: the given counts in
/// turn, cycling when there are fewer than commits
pub open spec fn simulated_lines(lines: Option<Seq<u64>>, i: int) -> u64 {
    match lines {
        Some(l) => l[i % (l.len() as int)],
        None => DEFAULT_LINES,
    }
}

/// the `i`th simulated commit
pub open spec fn simulated_commit(c: Commit, lines: Option<Seq<u64>>, i: int, now: u64) -> bool {
    &&& c.sha@ == "fake"@ + decimal_digits(i as nat)
    &&& c.lines_changed == simulated_lines(lines, i)
    &&& c.timestamp == now
}

/// the lines to simulate, as a sequence
pub open spec fn lines_view(lines: &Option<Vec<u64>>) -> Option<Seq<u64>> {
    match lines {
        Some(l) => Some(l@),
        None => None,
    }
}

/// the lines to simulate can be cycled over the commits: there are none
/// to simulate, or the counts given are not empty
pub open spec fn lines_usable(num_commits: u64, lines: &Option<Vec<u64>>) -> bool {
    num_commits > 0 ==> match lines {
        Some(l) => l@.len() > 0,
        None => true,
    }
}

/// builds the push of `num_commits` fake commits
fn simulated_push(num_commits: u64, lines: &Option<Vec<u64>>, now: u64) -> (p: Push)
    requires
        num_commits <= usize::MAX,
        lines_usable(num_commits, lines),
    ensures
        p.spec_commits().len() == num_commits,
        forall|i: int|
            0 <= i < num_commits ==> simulated_commit(#[trigger] p.spec_commits()[i], lines_view(lines), i, now),
        p.spec_remote_url() == "dev://fake"@,
        p.spec_branch() == crate::git::default_branch(),
{
    let mut commits: Vec<Commit> = Vec::new();
    let mut i: u64 = 0;
    while i < num_commits
        invariant
            0 <= i <= num_commits,
            num_commits <= usize::MAX,
            commits@.len() == i,
            lines_usable(num_commits, lines),
            forall|j: int| 0 <= j < i ==> simulated_commit(#[trigger] commits@[j], lines_view(lines), j, now),
        decreases num_commits - i,
    {
        let lines_changed = match lines {
            Some(l) => l[(i as usize) % l.len()],
            None => DEFAULT_LINES,
        };
        let mut sha = "fake".to_string();
        sha.append(decimal(i).as_str());
        commits.push(Commit::new(sha, lines_changed, now));
        i = i + 1;
    }
    Push::with_repo(commits, "dev://fake")
}

/// the party points after adding `amount` (or taking it away, when it is
/// negative), stopping at zero and at the largest count
pub open spec fn spec_cheat(points: u64, amount: i64) -> u64 {
    let v = points + amount;
    if v < 0 {
        0
    } else if v > u64::MAX {
        u64::MAX
    } else {
        v as u64
    }
}

/// adds `amount` party points, or takes them away when it is negative
pub fn cheat(amount: i64, points: u64) -> (r: u64)
    ensures
        r == spec_cheat(points, amount),
{
    if amount < 0 {
        let take: u64 = if amount == i64::MIN {
            9_223_372_036_854_775_808u64
        } else {
            (-amount) as u64
        };
        points.saturating_sub(take)
    } else {
        points.saturating_add(amount as u64)
    }
}

/// the lines changed by the first `n` simulated commits
pub open spec fn simulated_total(lines: Option<Seq<u64>>, n: nat) -> int
    decreases n,
{
    if n == 0 {
        0
    } else {
        simulated_total(lines, (n - 1) as nat) + simulated_lines(lines, n - 1)
    }
}

proof fn lemma_simulated_total(commits: Seq<Commit>, lines: Option<Seq<u64>>, n: nat, now: u64)
    requires
        n <= commits.len(),
        forall|i: int| 0 <= i < commits.len() ==> simulated_commit(#[trigger] commits[i], lines, i, now),
    ensures
        total_lines(commits.take(n as int)) == simulated_total(lines, n),
    decreases n,
{
    if n > 0 {
        lemma_simulated_total(commits, lines, (n - 1) as nat, now);
        assert(commits.take(n as int).drop_last() =~= commits.take(n - 1));
        assert(simulated_commit(commits[n - 1], lines, n - 1, now));
    }
}

/// Simulates a push of `num_commits` fake commits at `now`, mirroring the
/// hook: commit `i` is `fake{i}` and changes the given line counts in turn
/// (ten lines when none are given); the push's `total` points are earned,
/// and the push goes into the history under the fake remote on `main`,
/// with its commit count, lines changed and points. Returns the simulated
/// push, for the party to celebrate.
pub fn push(
    num_commits: u64,
    lines: &Option<Vec<u64>>,
    total: u64,
    points: &mut u64,
    history: &mut PushHistory,
    now: u64,
) -> (p: Push)
    requires
        num_commits <= usize::MAX,
        lines_usable(num_commits, lines),
        simulated_total(lines_view(lines), num_commits as nat) <= u64::MAX,
        *old(points) + total <= u64::MAX,
    ensures
        p.spec_commits().len() == num_commits,
        forall|i: int|
            0 <= i < num_commits ==> simulated_commit(#[trigger] p.spec_commits()[i], lines_view(lines), i, now),
        p.spec_remote_url() == "dev://fake"@,
        *final(points) == *old(points) + total,
        final(history).entries@.len() == old(history).entries@.len() + 1,
        final(history).entries@.drop_last() == old(history).entries@,
        ({
            let e = final(history).entries@.last();
            &&& e.timestamp == now
            &&& e.remote_url@ == "dev://fake"@
            &&& e.branch@ == "main"@
            &&& e.commits == num_commits
            &&& e.lines_changed == simulated_total(lines_view(lines), num_commits as nat)
            &&& e.points == total
        }),
{
    let p = simulated_push(num_commits, lines, now);
    *points = *points + total;
    proof {
        lemma_simulated_total(p.spec_commits(), lines_view(lines), num_commits as nat, now);
        assert(p.spec_commits().take(num_commits as int) =~= p.spec_commits());
    }
    let entry = PushEntry {
        timestamp: now,
        remote_url: "dev://fake".to_string(),
        branch: "main".to_string(),
        commits: num_commits,
        lines_changed: lines_changed(&p),
        points: total,
    };
    history.add(entry);
    assert(history.entries@.drop_last() =~= old(history).entries@);
    p
}

} // verus!
