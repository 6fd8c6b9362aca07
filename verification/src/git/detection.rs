//! Deciding which commits a push brought, from what the hook reads of the
//! repository. Reading the refs, listing commits and computing patch-ids are
//! git calls made by the binary; these functions make the decisions.

use vstd::prelude::*;

use super::output::{pair_views, views};
use super::{Commit, Push};

verus! {

/// a remote-tracking branch of `origin`, as the hook finds it
pub struct RemoteRef {
    /// branch name, without the `origin/` prefix
    pub branch: String,
    /// the sha the remote-tracking branch points at now
    pub sha: String,
    /// the sha of the local branch of the same name, if there is one
    pub local_sha: Option<String>,
    /// the sha recorded for this branch after the last push, if any
    pub stored_sha: Option<String>,
}

/// what happened to a remote-tracking branch since the last snapshot
#[derive(Debug, Clone, Copy, PartialEq, Eq, Structural)]
pub enum RefChange {
    /// the local branch differs from the remote one: a fetch, not a push
    Fetched,
    /// the recorded sha is the current one: nothing happened
    Unchanged,
    /// pushed on top of the recorded sha
    Updated,
    /// pushed, with no recorded sha: a first push of this branch
    FirstPush,
}

/// an optional sha equal to `sha`
pub open spec fn is_sha(o: Option<String>, sha: Seq<char>) -> bool {
    match o {
        Some(s) => s@ == sha,
        None => false,
    }
}

impl RemoteRef {
    pub open spec fn spec_change(&self) -> RefChange {
        if !is_sha(self.local_sha, self.sha@) {
            RefChange::Fetched
        } else if is_sha(self.stored_sha, self.sha@) {
            RefChange::Unchanged
        } else if self.stored_sha is Some {
            RefChange::Updated
        } else {
            RefChange::FirstPush
        }
    }

    /// whether this branch was pushed
    pub open spec fn spec_pushed(&self) -> bool {
        self.spec_change() == RefChange::Updated || self.spec_change() == RefChange::FirstPush
    }
}

fn matches_sha(o: &Option<String>, sha: &String) -> (r: bool)
    ensures
        r == is_sha(*o, sha@),
{
    match o {
        Some(s) => *s == *sha,
        None => false,
    }
}

/// classifies a remote-tracking branch as pushed, fetched or unchanged
pub fn classify_ref(r: &RemoteRef) -> (c: RefChange)
    ensures
        c == r.spec_change(),
{
    if !matches_sha(&r.local_sha, &r.sha) {
        RefChange::Fetched
    } else if matches_sha(&r.stored_sha, &r.sha) {
        RefChange::Unchanged
    } else if r.stored_sha.is_some() {
        RefChange::Updated
    } else {
        RefChange::FirstPush
    }
}

/// the indices, in order, of the refs for which `pick` holds
pub open spec fn indices_where(refs: Seq<RemoteRef>, pick: spec_fn(RemoteRef) -> bool) -> Seq<usize>
    decreases refs.len(),
{
    if refs.len() == 0 {
        Seq::empty()
    } else {
        let rest = indices_where(refs.drop_last(), pick);
        if pick(refs.last()) {
            rest.push((refs.len() - 1) as usize)
        } else {
            rest
        }
    }
}

/// which refs were pushed, and of those which are first pushes: the
/// branches to credit, and the ones whose new commits must be found
/// without an old sha to start from
pub struct PushPlan {
    /// indices of the pushed refs, in order
    pub pushed: Vec<usize>,
    /// indices of the pushed refs that were pushed on top of a recorded sha
    pub updated: Vec<usize>,
    /// indices of the pushed refs that had no recorded sha
    pub first_time: Vec<usize>,
}

/// sorts the remote-tracking branches into pushed, updated and first-time
pub fn plan_push(refs: &Vec<RemoteRef>) -> (p: PushPlan)
    ensures
        p.pushed@ == indices_where(refs@, |r: RemoteRef| r.spec_pushed()),
        p.updated@ == indices_where(refs@, |r: RemoteRef| r.spec_change() == RefChange::Updated),
        p.first_time@ == indices_where(refs@, |r: RemoteRef| r.spec_change() == RefChange::FirstPush),
{
    let mut pushed: Vec<usize> = Vec::new();
    let mut updated: Vec<usize> = Vec::new();
    let mut first_time: Vec<usize> = Vec::new();
    let mut i: usize = 0;
    while i < refs.len()
        invariant
            0 <= i <= refs@.len(),
            pushed@ == indices_where(refs@.take(i as int), |r: RemoteRef| r.spec_pushed()),
            updated@ == indices_where(refs@.take(i as int), |r: RemoteRef| r.spec_change() == RefChange::Updated),
            first_time@ == indices_where(refs@.take(i as int), |r: RemoteRef| r.spec_change() == RefChange::FirstPush),
        decreases refs@.len() - i,
    {
        assert(refs@.take(i + 1).drop_last() =~= refs@.take(i as int));
        match classify_ref(&refs[i]) {
            RefChange::Updated => {
                pushed.push(i);
                updated.push(i);
            },
            RefChange::FirstPush => {
                pushed.push(i);
                first_time.push(i);
            },
            _ => {},
        }
        i = i + 1;
    }
    assert(refs@.take(refs@.len() as int) =~= refs@);
    PushPlan { pushed, updated, first_time }
}

/// a commit in the pushed ranges, with what the hook learned of it
pub struct Candidate {
    /// whether another remote branch already holds the commit (it came with
    /// a fetch, and is in range only because of a rebase)
    pub reachable_from_other: bool,
    /// the commit's patch-id; none for a commit without a diff
    pub patch_id: Option<String>,
}

/// the patch-ids in `seen`, as character sequences
pub open spec fn seen_ids(seen: Seq<String>) -> Seq<Seq<char>> {
    seen.map_values(|s: String| s@)
}

/// whether candidate `c` is new given the patch-ids seen so far
pub open spec fn is_new(c: Candidate, seen: Seq<Seq<char>>) -> bool {
    !c.reachable_from_other && match c.patch_id {
        Some(p) => !seen.contains(p@),
        None => false,
    }
}

/// going through the candidates in order: the indices taken as new
/// commits, and the seen patch-ids afterwards
pub open spec fn select_new(cands: Seq<Candidate>, seen: Seq<Seq<char>>) -> (Seq<usize>, Seq<Seq<char>>)
    decreases cands.len(),
{
    if cands.len() == 0 {
        (Seq::empty(), seen)
    } else {
        let (picks, seen_now) = select_new(cands.drop_last(), seen);
        let c = cands.last();
        if is_new(c, seen_now) {
            (picks.push((cands.len() - 1) as usize), seen_now.push(c.patch_id.unwrap()@))
        } else {
            (picks, seen_now)
        }
    }
}

fn contains_id(seen: &Vec<String>, id: &String) -> (r: bool)
    ensures
        r == seen_ids(seen@).contains(id@),
{
    let mut i: usize = 0;
    while i < seen.len()
        invariant
            0 <= i <= seen@.len(),
            forall|j: int| 0 <= j < i ==> seen@[j]@ != id@,
        decreases seen@.len() - i,
    {
        if seen[i] == *id {
            assert(seen_ids(seen@)[i as int] == id@);
            return true;
        }
        i = i + 1;
    }
    assert forall|j: int| 0 <= j < seen_ids(seen@).len() implies seen_ids(seen@)[j] != id@ by {
        assert(seen_ids(seen@)[j] == seen@[j]@);
    }
    false
}

/// picks the commits that are new: not already on another remote branch,
/// and with a patch-id not seen before (a rebased or cherry-picked commit
/// keeps its patch-id, so it earns nothing twice). Each taken patch-id is
/// added to `seen`.
pub fn select_new_commits(candidates: &Vec<Candidate>, seen: &mut Vec<String>) -> (picks: Vec<usize>)
    ensures
        picks@ == select_new(candidates@, seen_ids(old(seen)@)).0,
        seen_ids(final(seen)@) == select_new(candidates@, seen_ids(old(seen)@)).1,
{
    let ghost seen0 = seen_ids(seen@);
    let mut picks: Vec<usize> = Vec::new();
    let mut i: usize = 0;
    while i < candidates.len()
        invariant
            0 <= i <= candidates@.len(),
            picks@ == select_new(candidates@.take(i as int), seen0).0,
            seen_ids(seen@) == select_new(candidates@.take(i as int), seen0).1,
        decreases candidates@.len() - i,
    {
        assert(candidates@.take(i + 1).drop_last() =~= candidates@.take(i as int));
        let c = &candidates[i];
        if !c.reachable_from_other {
            match &c.patch_id {
                Some(p) => {
                    if !contains_id(seen, p) {
                        seen.push(p.clone());
                        assert(seen_ids(seen@) =~= select_new(candidates@.take(i as int), seen0).1.push(p@));
                        picks.push(i);
                    }
                },
                None => {},
            }
        }
        i = i + 1;
    }
    assert(candidates@.take(candidates@.len() as int) =~= candidates@);
    picks
}

/// A commit is taken at most once per patch-id: the patch-ids of the taken
/// commits are all different, and none was seen before.
pub proof fn law_no_patch_id_counted_twice(cands: Seq<Candidate>, seen: Seq<Seq<char>>)
    requires
        cands.len() <= usize::MAX,
    ensures
        ({
            let (picks, seen_after) = select_new(cands, seen);
            &&& seen_after.len() == seen.len() + picks.len()
            &&& seen_after.subrange(0, seen.len() as int) == seen
            &&& forall|k: int| 0 <= k < picks.len() ==> {
                &&& 0 <= #[trigger] picks[k] < cands.len()
                &&& cands[picks[k] as int].patch_id is Some
                &&& seen_after[seen.len() + k] == cands[picks[k] as int].patch_id.unwrap()@
                &&& !seen_after.subrange(0, seen.len() + k).contains(seen_after[seen.len() + k])
            }
        }),
    decreases cands.len(),
{
    if cands.len() > 0 {
        law_no_patch_id_counted_twice(cands.drop_last(), seen);
        let (picks0, seen0) = select_new(cands.drop_last(), seen);
        let (picks, seen_after) = select_new(cands, seen);
        let c = cands.last();
        if is_new(c, seen0) {
            assert(seen_after.subrange(0, seen.len() as int) =~= seen0.subrange(0, seen.len() as int));
            assert forall|k: int| 0 <= k < picks.len() implies {
                &&& 0 <= #[trigger] picks[k] < cands.len()
                &&& cands[picks[k] as int].patch_id is Some
                &&& seen_after[seen.len() + k] == cands[picks[k] as int].patch_id.unwrap()@
                &&& !seen_after.subrange(0, seen.len() + k).contains(seen_after[seen.len() + k])
            } by {
                if k < picks0.len() {
                    assert(picks[k] == picks0[k]);
                    assert(cands.drop_last()[picks0[k] as int] == cands[picks0[k] as int]);
                    assert(seen_after[seen.len() + k] == seen0[seen.len() + k]);
                    assert(seen_after.subrange(0, seen.len() + k) =~= seen0.subrange(0, seen.len() + k));
                } else {
                    assert(k == picks0.len());
                    assert(picks[k] == cands.len() - 1);
                    assert(seen_after.subrange(0, seen.len() + k) =~= seen0);
                }
            }
        }
    }
}

} // verus!

verus! {

/// each index `indices_where` gives points at a ref that it picked
proof fn lemma_indices_where_picked(refs: Seq<RemoteRef>, pick: spec_fn(RemoteRef) -> bool)
    requires
        refs.len() <= usize::MAX,
    ensures
        forall|k: int|
            0 <= k < indices_where(refs, pick).len() ==> {
                let i = #[trigger] indices_where(refs, pick)[k];
                &&& 0 <= i < refs.len()
                &&& pick(refs[i as int])
            },
    decreases refs.len(),
{
    if refs.len() > 0 {
        lemma_indices_where_picked(refs.drop_last(), pick);
        let rest = indices_where(refs.drop_last(), pick);
        let all = indices_where(refs, pick);
        assert(all == if pick(refs.last()) {
            rest.push((refs.len() - 1) as usize)
        } else {
            rest
        });
        assert forall|k: int| 0 <= k < all.len() implies {
            let i = #[trigger] all[k];
            &&& 0 <= i < refs.len()
            &&& pick(refs[i as int])
        } by {
            if k < rest.len() {
                assert(all[k] == rest[k]);
                assert(refs[rest[k] as int] == refs.drop_last()[rest[k] as int]);
            } else {
                assert(pick(refs.last()));
                assert(all[k] == (refs.len() - 1) as usize);
            }
        }
    }
}

/// the commits to check for a push: those of each updated branch's range,
/// in order, then those only the first-time branches reach
pub open spec fn spec_commits_to_check(ranges: Seq<Seq<Seq<char>>>, unique: Seq<Seq<char>>) -> Seq<Seq<char>>
    decreases ranges.len(),
{
    if ranges.len() == 0 {
        unique
    } else {
        ranges[0] + spec_commits_to_check(ranges.drop_first(), unique)
    }
}

/// the ranges' commits followed by the first-time branches' commits
pub fn commits_to_check(ranges: &Vec<Vec<String>>, unique: &Vec<String>) -> (r: Vec<String>)
    ensures
        views(r@) == spec_commits_to_check(ranges@.map_values(|v: Vec<String>| views(v@)), views(unique@)),
{
    let ghost rs = ranges@.map_values(|v: Vec<String>| views(v@));
    let mut out: Vec<String> = Vec::new();
    assert(rs.subrange(0, rs.len() as int) =~= rs);
    assert(views(out@) + spec_commits_to_check(rs, views(unique@)) =~= spec_commits_to_check(rs, views(unique@)));
    let mut i: usize = 0;
    while i < ranges.len()
        invariant
            0 <= i <= ranges@.len(),
            rs == ranges@.map_values(|v: Vec<String>| views(v@)),
            views(out@) + spec_commits_to_check(rs.subrange(i as int, rs.len() as int), views(unique@))
                == spec_commits_to_check(rs, views(unique@)),
        decreases ranges@.len() - i,
    {
        let range = &ranges[i];
        let ghost before = views(out@);
        let mut j: usize = 0;
        while j < range.len()
            invariant
                0 <= j <= range@.len(),
                views(out@) == before + views(range@).take(j as int),
            decreases range@.len() - j,
        {
            let ghost prev = out@;
            let w = range[j].clone();
            out.push(w);
            assert(views(out@) =~= views(prev).push(range@[j as int]@));
            assert(views(range@).take(j + 1) =~= views(range@).take(j as int).push(range@[j as int]@));
            assert(views(out@) =~= before + views(range@).take(j + 1));
            j = j + 1;
        }
        proof {
            assert(views(range@).take(range@.len() as int) =~= rs[i as int]);
            let tail = rs.subrange(i as int, rs.len() as int);
            assert(tail.drop_first() =~= rs.subrange(i + 1, rs.len() as int));
            assert(tail[0] == rs[i as int]);
            assert(views(out@) + spec_commits_to_check(rs.subrange(i + 1, rs.len() as int), views(unique@))
                =~= before + spec_commits_to_check(tail, views(unique@)));
        }
        i = i + 1;
    }
    let ghost before = views(out@);
    let mut k: usize = 0;
    while k < unique.len()
        invariant
            0 <= k <= unique@.len(),
            views(out@) == before + views(unique@).take(k as int),
        decreases unique@.len() - k,
    {
        let ghost prev = out@;
        let w = unique[k].clone();
        out.push(w);
        assert(views(out@) =~= views(prev).push(unique@[k as int]@));
        assert(views(unique@).take(k + 1) =~= views(unique@).take(k as int).push(unique@[k as int]@));
        assert(views(out@) =~= before + views(unique@).take(k + 1));
        k = k + 1;
    }
    assert(views(unique@).take(unique@.len() as int) =~= views(unique@));
    assert(rs.subrange(ranges@.len() as int, rs.len() as int) =~= Seq::<Seq<Seq<char>>>::empty());
    out
}

/// every current remote ref, as (branch, sha), to be stored for next time
pub open spec fn refs_to_store(refs: Seq<RemoteRef>) -> Seq<(Seq<char>, Seq<char>)> {
    refs.map_values(|r: RemoteRef| (r.branch@, r.sha@))
}

/// the branch a push is reported on: the first pushed one, or none
pub open spec fn push_branch(refs: Seq<RemoteRef>, pushed: Seq<usize>) -> Seq<char> {
    if pushed.len() > 0 {
        refs[pushed[0] as int].branch@
    } else {
        Seq::empty()
    }
}

/// The result of the hook's detection. All current refs are to be stored,
/// whatever the push held. With no commits to check there is no push;
/// otherwise the push is on `remote_url`, reported on the first pushed
/// branch, and holds the picked commits in order, each with its lines
/// changed and the time `now`.
pub fn finish_push(
    remote_url: String,
    refs: &Vec<RemoteRef>,
    plan: &PushPlan,
    commits: &Vec<String>,
    picks: &Vec<usize>,
    lines: &Vec<u64>,
    now: u64,
) -> (r: (Option<Push>, Vec<(String, String)>))
    requires
        plan.pushed@ == indices_where(refs@, |r: RemoteRef| r.spec_pushed()),
        forall|k: int| 0 <= k < picks@.len() ==> #[trigger] picks@[k] < commits@.len(),
        lines@.len() == picks@.len(),
    ensures
        pair_views(r.1@) == refs_to_store(refs@),
        r.0 is None <==> commits@.len() == 0,
        r.0 matches Some(p) ==> {
            &&& p.spec_remote_url() == remote_url@
            &&& p.spec_branch() == push_branch(refs@, plan.pushed@)
            &&& plan.pushed@.len() > 0 ==> refs@[plan.pushed@[0] as int].spec_pushed()
            &&& p.spec_commits().len() == picks@.len()
            &&& forall|k: int|
                0 <= k < picks@.len() ==> {
                    &&& (#[trigger] p.spec_commits()[k]).sha@ == commits@[picks@[k] as int]@
                    &&& p.spec_commits()[k].lines_changed == lines@[k]
                    &&& p.spec_commits()[k].timestamp == now
                }
        },
{
    let n = refs.len();
    proof {
        lemma_indices_where_picked(refs@, |r: RemoteRef| r.spec_pushed());
    }
    let mut store: Vec<(String, String)> = Vec::new();
    let mut i: usize = 0;
    while i < refs.len()
        invariant
            0 <= i <= refs@.len(),
            pair_views(store@) == refs_to_store(refs@.take(i as int)),
        decreases refs@.len() - i,
    {
        let ghost prev = store@;
        let b = refs[i].branch.clone();
        let h = refs[i].sha.clone();
        store.push((b, h));
        assert(pair_views(store@) =~= pair_views(prev).push((refs@[i as int].branch@, refs@[i as int].sha@)));
        assert(refs@.take(i + 1) =~= refs@.take(i as int).push(refs@[i as int]));
        assert(pair_views(store@) =~= refs_to_store(refs@.take(i + 1)));
        i = i + 1;
    }
    assert(refs@.take(refs@.len() as int) =~= refs@);
    if commits.len() == 0 {
        return (None, store);
    }
    let mut picked: Vec<Commit> = Vec::new();
    let mut k: usize = 0;
    while k < picks.len()
        invariant
            0 <= k <= picks@.len(),
            lines@.len() == picks@.len(),
            forall|j: int| 0 <= j < picks@.len() ==> #[trigger] picks@[j] < commits@.len(),
            picked@.len() == k,
            forall|j: int|
                0 <= j < k ==> {
                    &&& (#[trigger] picked@[j]).sha@ == commits@[picks@[j] as int]@
                    &&& picked@[j].lines_changed == lines@[j]
                    &&& picked@[j].timestamp == now
                },
        decreases picks@.len() - k,
    {
        let sha = commits[picks[k]].clone();
        picked.push(Commit::new(sha, lines[k], now));
        k = k + 1;
    }
    let branch = if plan.pushed.len() > 0 {
        refs[plan.pushed[0]].branch.clone()
    } else {
        String::new()
    };
    (Some(Push::from_parts(picked, remote_url, branch)), store)
}

} // verus!

verus! {

/// the ranges' commits, as character sequences
pub open spec fn range_views(ranges: Seq<Vec<String>>) -> Seq<Seq<Seq<char>>> {
    ranges.map_values(|v: Vec<String>| views(v@))
}

/// The hook's detection of a push, given git's answers: `ranges` holds the
/// commits of each updated branch's range since its recorded sha, `unique`
/// the commits only the first-time branches reach, `candidates` what git
/// says of each commit to check (in the order of `commits_to_check`), and
/// `lines` each such commit's lines changed. All current refs are to be
/// stored. The new commits are picked as `select_new_commits` picks them,
/// adding their patch-ids to `seen`: each taken patch-id was not seen
/// before and is taken once. With no commits to check there is no push;
/// otherwise the push is on `remote_url`, reported on the first pushed
/// branch, and holds the picked commits in order.
pub fn detect_push(
    remote_url: String,
    refs: &Vec<RemoteRef>,
    ranges: &Vec<Vec<String>>,
    unique: &Vec<String>,
    candidates: &Vec<Candidate>,
    lines: &Vec<u64>,
    seen: &mut Vec<String>,
    now: u64,
) -> (r: (Option<Push>, Vec<(String, String)>))
    requires
        candidates@.len() == spec_commits_to_check(range_views(ranges@), views(unique@)).len(),
        lines@.len() == candidates@.len(),
    ensures
        pair_views(r.1@) == refs_to_store(refs@),
        seen_ids(final(seen)@) == select_new(candidates@, seen_ids(old(seen)@)).1,
        ({
            let commits = spec_commits_to_check(range_views(ranges@), views(unique@));
            let picks = select_new(candidates@, seen_ids(old(seen)@)).0;
            let pushed = indices_where(refs@, |r: RemoteRef| r.spec_pushed());
            &&& r.0 is None <==> commits.len() == 0
            &&& r.0 matches Some(p) ==> {
                &&& p.spec_remote_url() == remote_url@
                &&& p.spec_branch() == push_branch(refs@, pushed)
                &&& pushed.len() > 0 ==> refs@[pushed[0] as int].spec_pushed()
                &&& p.spec_commits().len() == picks.len()
                &&& forall|k: int|
                    0 <= k < picks.len() ==> {
                        &&& 0 <= #[trigger] picks[k] < commits.len()
                        &&& p.spec_commits()[k].sha@ == commits[picks[k] as int]
                        &&& p.spec_commits()[k].lines_changed == lines@[picks[k] as int]
                        &&& p.spec_commits()[k].timestamp == now
                        &&& candidates@[picks[k] as int].patch_id is Some
                        &&& !seen_ids(old(seen)@).contains(candidates@[picks[k] as int].patch_id.unwrap()@)
                    }
                &&& forall|j: int, k: int|
                    0 <= j < k < picks.len() ==> candidates@[#[trigger] picks[j] as int].patch_id.unwrap()@
                        != candidates@[#[trigger] picks[k] as int].patch_id.unwrap()@
            }
        }),
{
    let plan = plan_push(refs);
    let commits = commits_to_check(ranges, unique);
    assert(range_views(ranges@) == ranges@.map_values(|v: Vec<String>| views(v@)));
    let ghost seen0 = seen_ids(seen@);
    let picks = select_new_commits(candidates, seen);
    let n_candidates = candidates.len();
    proof {
        assert(candidates@.len() == n_candidates);
        law_no_patch_id_counted_twice(candidates@, seen0);
    }
    let ghost seen_after = select_new(candidates@, seen0).1;
    let mut picked_lines: Vec<u64> = Vec::new();
    let mut k: usize = 0;
    while k < picks.len()
        invariant
            0 <= k <= picks@.len(),
            picks@ == select_new(candidates@, seen0).0,
            lines@.len() == candidates@.len(),
            forall|j: int| 0 <= j < picks@.len() ==> 0 <= #[trigger] picks@[j] < candidates@.len(),
            picked_lines@.len() == k,
            forall|j: int| 0 <= j < k ==> picked_lines@[j] == lines@[#[trigger] picks@[j] as int],
        decreases picks@.len() - k,
    {
        picked_lines.push(lines[picks[k]]);
        k = k + 1;
    }
    assert(commits@.len() == candidates@.len()) by {
        assert(views(commits@).len() == commits@.len());
    }
    let r = finish_push(remote_url, refs, &plan, &commits, &picks, &picked_lines, now);
    proof {
        let picks_s = picks@;
        assert forall|k: int| 0 <= k < picks_s.len() implies !seen0.contains(
            candidates@[#[trigger] picks_s[k] as int].patch_id.unwrap()@,
        ) by {
            assert(seen_after.subrange(0, seen0.len() as int) == seen0);
            assert(seen_after.subrange(0, seen0.len() + k).subrange(0, seen0.len() as int) =~= seen0);
            if seen0.contains(seen_after[seen0.len() + k]) {
                let w = choose|w: int| 0 <= w < seen0.len() && seen0[w] == seen_after[seen0.len() + k];
                assert(seen_after.subrange(0, seen0.len() + k)[w] == seen0[w]);
            }
        }
        assert forall|j: int, k: int| 0 <= j < k < picks_s.len() implies candidates@[#[trigger] picks_s[j] as int].patch_id.unwrap()@
            != candidates@[#[trigger] picks_s[k] as int].patch_id.unwrap()@ by {
            assert(seen_after.subrange(0, seen0.len() + k)[seen0.len() + j] == seen_after[seen0.len() + j]);
        }
        assert forall|k: int| 0 <= k < picks_s.len() implies views(commits@)[picks_s[k] as int] == commits@[#[trigger] picks_s[k] as int]@ by {
        }
    }
    r
}

/// What a snapshot before a push stores: the current remote refs under the
/// remote's url, so that what is there now is never counted as pushed.
/// Nothing is stored without a url or without refs.
pub fn snapshot_updates(remote_url: Option<String>, current: Vec<(String, String)>) -> (r: Option<
    (String, Vec<(String, String)>),
>)
    ensures
        r is None <==> (remote_url is None || current@.len() == 0),
        r matches Some(u) ==> remote_url == Some(u.0) && u.1@ == current@,
{
    match remote_url {
        None => None,
        Some(url) => if current.len() == 0 {
            None
        } else {
            Some((url, current))
        },
    }
}

} // verus!
