use post_push_party::bonus_tracks::big_push::BIG_PUSH_COMMIT_COUNT;
use post_push_party::bonus_tracks::many_lines_changed::MANY_LINES_COUNT;
use post_push_party::bonus_tracks::{
    BigPush, BonusTrack, CommitValue, ManyLinesChanged, OneLineChange, PushContext, Reward, Sniper,
};
use post_push_party::clock::Clock;
use post_push_party::git::{Commit, Push};
use post_push_party::history::PushHistory;

fn make_commit() -> Commit {
    Commit { sha: "abc123".to_string(), lines_changed: 10, timestamp: 0 }
}

fn make_lines_commit(lines_changed: u64) -> Commit {
    Commit { sha: "abc123".to_string(), lines_changed, timestamp: 0 }
}

fn applies_to(track: &impl BonusTrack, commits: Vec<Commit>) -> u32 {
    let push = Push::new(commits);
    let history = PushHistory::default();
    let clock = Clock::default();
    let ctx = PushContext { push: &push, history: &history, clock: &clock };
    track.applies(&ctx)
}

// ---- big push ----

#[test]
fn applies_to_big_pushes() {
    let commits = vec![make_commit(); BIG_PUSH_COMMIT_COUNT];
    assert_eq!(applies_to(&BigPush, commits), 1);

    let commits = vec![make_commit(); 1_000];
    assert_eq!(applies_to(&BigPush, commits), 1);
}

#[test]
fn does_not_apply_to_small_pushes() {
    let commits = vec![make_commit(); BIG_PUSH_COMMIT_COUNT - 1];
    assert_eq!(applies_to(&BigPush, commits), 0);

    let commits = vec![make_commit(); 1];
    assert_eq!(applies_to(&BigPush, commits), 0);
}

// ---- commit value ----

#[test]
fn tiers_start_free() {
    let tiers = CommitValue.tiers();
    assert_eq!(tiers[0].cost, 0);
    assert_eq!(tiers[0].reward, Reward::FlatPoints(1));
}

#[test]
fn always_applies() {
    let push = Push::with_repo(vec![], "git@github.com:user/repo.git");
    let history = PushHistory::default();
    let clock = Clock::default();
    let ctx = PushContext { push: &push, history: &history, clock: &clock };
    assert_eq!(CommitValue.applies(&ctx), 1);
}

// ---- many lines changed ----

#[test]
fn applies_to_multiple_commits() {
    let commits = vec![
        Commit::with_lines(MANY_LINES_COUNT + 1),
        Commit::with_lines(10),
        Commit::with_lines(MANY_LINES_COUNT + 1),
        Commit::with_lines(5),
    ];
    assert_eq!(applies_to(&ManyLinesChanged, commits), 2);
}

#[test]
fn applies_to_big_commits() {
    assert_eq!(applies_to(&ManyLinesChanged, vec![Commit::with_lines(MANY_LINES_COUNT)]), 1);
    assert_eq!(applies_to(&ManyLinesChanged, vec![Commit::with_lines(MANY_LINES_COUNT + 1)]), 1);
}

#[test]
fn does_not_apply_to_small_commits() {
    assert_eq!(applies_to(&ManyLinesChanged, vec![Commit::with_lines(0)]), 0);
    assert_eq!(applies_to(&ManyLinesChanged, vec![Commit::with_lines(MANY_LINES_COUNT - 1)]), 0);
}

// ---- one line change ----

#[test]
fn one_line_change_applies_to_single_line_commits() {
    let commits = vec![
        Commit::with_lines(1),
        Commit::with_lines(10),
        Commit::with_lines(1),
        Commit::with_lines(5),
    ];
    assert_eq!(applies_to(&OneLineChange, commits), 2);
}

#[test]
fn one_line_change_does_not_apply_to_zero_line_commits() {
    assert_eq!(applies_to(&OneLineChange, vec![Commit::with_lines(0)]), 0);
}

#[test]
fn one_line_change_does_not_apply_to_multi_line_commits() {
    assert_eq!(applies_to(&OneLineChange, vec![Commit::with_lines(2), Commit::with_lines(100)]), 0);
}

// ---- sniper ----

#[test]
fn has_correct_id() {
    assert_eq!(Sniper.id(), "one_line_change");
}

#[test]
fn sniper_applies_to_single_line_commits() {
    let commits = vec![
        make_lines_commit(1),
        make_lines_commit(10),
        make_lines_commit(1),
        make_lines_commit(5),
    ];
    assert_eq!(applies_to(&Sniper, commits), 2);
}

#[test]
fn sniper_does_not_apply_to_zero_line_commits() {
    assert_eq!(applies_to(&Sniper, vec![make_lines_commit(0)]), 0);
}

#[test]
fn sniper_does_not_apply_to_multi_line_commits() {
    assert_eq!(applies_to(&Sniper, vec![make_lines_commit(2), make_lines_commit(100)]), 0);
}

#[test]
fn tiers_are_flat_points() {
    let tiers = Sniper.tiers();
    assert_eq!(tiers.len(), 4);
    assert_eq!(tiers[0].reward, Reward::FlatPoints(5));
    assert_eq!(tiers[3].reward, Reward::FlatPoints(50));
}

#[test]
fn reward_at_level_returns_flat_points() {
    assert_eq!(Sniper.reward_at_level(0), None);
    assert_eq!(Sniper.reward_at_level(1), Some(Reward::FlatPoints(5)));
    assert_eq!(Sniper.reward_at_level(4), Some(Reward::FlatPoints(50)));
    assert_eq!(Sniper.reward_at_level(5), None);
}
