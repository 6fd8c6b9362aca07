//! What the post-push hook does with a detected push.

use vstd::prelude::*;

use crate::git::{Commit, Push};
use crate::history::{PushEntry, PushHistory};

verus! {

/// total lines changed by `commits`
pub open spec fn total_lines(commits: Seq<Commit>) -> int
    decreases commits.len(),
{
    if commits.len() == 0 {
        0
    } else {
        total_lines(commits.drop_last()) + commits.last().lines_changed
    }
}

/// sums the lines changed over a push's commits
pub fn lines_changed(push: &Push) -> (r: u64)
    requires
        total_lines(push.spec_commits()) <= u64::MAX,
    ensures
        r == total_lines(push.spec_commits()),
{
    let commits = push.commits();
    let mut sum: u64 = 0;
    let mut i: usize = 0;
    while i < commits.len()
        invariant
            0 <= i <= commits@.len(),
            commits@ == push.spec_commits(),
            total_lines(push.spec_commits()) <= u64::MAX,
            sum == total_lines(commits@.take(i as int)),
        decreases commits@.len() - i,
    {
        assert(commits@.take(i + 1).drop_last() =~= commits@.take(i as int));
        proof {
            lemma_total_lines_prefix(commits@, i as int + 1);
        }
        sum = sum + commits[i].lines_changed;
        i = i + 1;
    }
    assert(commits@.take(commits@.len() as int) =~= commits@);
    sum
}

proof fn lemma_total_lines_prefix(s: Seq<Commit>, n: int)
    requires
        0 <= n <= s.len(),
    ensures
        total_lines(s.take(n)) <= total_lines(s),
    decreases s.len() - n,
{
    if n < s.len() {
        lemma_total_lines_prefix(s, n + 1);
        assert(s.take(n + 1).drop_last() =~= s.take(n));
    } else {
        assert(s.take(n) =~= s);
    }
}

/// whether a push goes into the history: only one with commits on a named
/// branch does, so that empty pushes (rebases) don't affect bonus tracks
/// like the first push of the day
pub open spec fn records(push: &Push) -> bool {
    push.spec_branch().len() > 0 && push.spec_commits().len() > 0
}

/// Takes in a scored push at `timestamp`: the push's `total` points are
/// earned, and the push goes into the history with its commit count, lines
/// changed and points. Recording happens after scoring, so that the
/// first-push-of-the-day bonus can tell whether this is the first push today.
/// Returns whether the push was recorded.
pub fn post_push(push: &Push, total: u64, points: &mut u64, history: &mut PushHistory, timestamp: u64) -> (recorded: bool)
    requires
        *old(points) + total <= u64::MAX,
        total_lines(push.spec_commits()) <= u64::MAX,
    ensures
        *final(points) == *old(points) + total,
        recorded == records(push),
        recorded ==> final(history).entries@.len() == old(history).entries@.len() + 1
            && final(history).entries@.drop_last() == old(history).entries@ && ({
            let e = final(history).entries@.last();
            &&& e.timestamp == timestamp
            &&& e.remote_url@ == push.spec_remote_url()
            &&& e.branch@ == push.spec_branch()
            &&& e.commits == push.spec_commits().len()
            &&& e.lines_changed == total_lines(push.spec_commits())
            &&& e.points == total
        }),
        !recorded ==> final(history).entries@ == old(history).entries@,
{
    *points = *points + total;
    if !push.branch().is_empty() && push.commits().len() != 0 {
        let entry = PushEntry {
            timestamp,
            remote_url: push.remote_url().to_string(),
            branch: push.branch().to_string(),
            commits: push.commits().len() as u64,
            lines_changed: lines_changed(push),
            points: total,
        };
        history.add(entry);
        assert(history.entries@.drop_last() =~= old(history).entries@);
        true
    } else {
        false
    }
}

} // verus!
