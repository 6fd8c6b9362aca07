use post_push_party::bonus_tracks::{BonusTrack, MultipleRepos, PushContext, Streak};
use post_push_party::clock::Clock;
use post_push_party::git::{Commit, Push};
use post_push_party::history::{PushEntry, PushHistory};

const SECONDS_PER_DAY: u64 = 86400;

fn clock_at_day(day: u64) -> Clock {
    Clock::at(day * SECONDS_PER_DAY + 3600) // 1am on that day
}

fn timestamp_on_day(day: u64) -> u64 {
    day * SECONDS_PER_DAY + 3600
}

fn entry_on_day(day: u64) -> PushEntry {
    PushEntry::at(day * SECONDS_PER_DAY + 3600)
}

// ---- multiple repos ----

#[test]
fn applies_on_second_repo() {
    let bonus = MultipleRepos;
    let clock = clock_at_day(100);

    // already pushed to repo1 today
    let history = PushHistory::from_entries(vec![PushEntry::with_repo(
        timestamp_on_day(100),
        "git@github.com:user/repo1.git",
    )]);

    // now pushing to repo2
    let push = Push::with_repo(vec![Commit::default()], "git@github.com:user/repo2.git");
    let ctx = PushContext { push: &push, history: &history, clock: &clock };

    assert_eq!(bonus.applies(&ctx), 1);
}

#[test]
fn applies_on_third_repo() {
    let bonus = MultipleRepos;
    let clock = clock_at_day(100);

    let history = PushHistory::from_entries(vec![
        PushEntry::with_repo(timestamp_on_day(100), "git@github.com:user/repo1.git"),
        PushEntry::with_repo(timestamp_on_day(100), "git@github.com:user/repo2.git"),
    ]);

    // now pushing to repo3
    let push = Push::with_repo(vec![Commit::default()], "git@github.com:user/repo3.git");
    let ctx = PushContext { push: &push, history: &history, clock: &clock };

    assert_eq!(bonus.applies(&ctx), 1);
}

#[test]
fn does_not_apply_on_first_repo() {
    let bonus = MultipleRepos;
    let clock = clock_at_day(100);

    // no pushes today yet
    let history = PushHistory::default();

    let push = Push::with_repo(vec![Commit::default()], "git@github.com:user/repo1.git");
    let ctx = PushContext { push: &push, history: &history, clock: &clock };

    assert_eq!(bonus.applies(&ctx), 0);
}

#[test]
fn does_not_apply_on_repeat_push_to_same_repo() {
    let bonus = MultipleRepos;
    let clock = clock_at_day(100);

    // already pushed to repo1 today
    let history = PushHistory::from_entries(vec![PushEntry::with_repo(
        timestamp_on_day(100),
        "git@github.com:user/repo1.git",
    )]);

    // pushing to repo1 again
    let push = Push::with_repo(vec![Commit::default()], "git@github.com:user/repo1.git");
    let ctx = PushContext { push: &push, history: &history, clock: &clock };

    assert_eq!(bonus.applies(&ctx), 0);
}

#[test]
fn does_not_count_repos_from_other_days() {
    let bonus = MultipleRepos;
    let clock = clock_at_day(100);

    // pushed to repos yesterday, not today
    let history = PushHistory::from_entries(vec![
        PushEntry::with_repo(timestamp_on_day(99), "git@github.com:user/repo1.git"),
        PushEntry::with_repo(timestamp_on_day(99), "git@github.com:user/repo2.git"),
    ]);

    // first push today
    let push = Push::with_repo(vec![Commit::default()], "git@github.com:user/repo3.git");
    let ctx = PushContext { push: &push, history: &history, clock: &clock };

    assert_eq!(bonus.applies(&ctx), 0);
}

#[test]
fn multiple_repos_does_not_apply_to_empty_pushes() {
    let bonus = MultipleRepos;
    let clock = clock_at_day(100);

    let history = PushHistory::from_entries(vec![PushEntry::with_repo(
        timestamp_on_day(100),
        "git@github.com:user/repo1.git",
    )]);

    let push = Push::with_repo(vec![], "git@github.com:user/repo2.git");
    let ctx = PushContext { push: &push, history: &history, clock: &clock };

    assert_eq!(bonus.applies(&ctx), 0);
}

// ---- streak ----

#[test]
fn streak_applies_with_3_day_streak() {
    let bonus = Streak;
    let push = Push::new(vec![Commit::default()]);
    let history =
        PushHistory::from_entries(vec![entry_on_day(100), entry_on_day(101), entry_on_day(102)]);

    let clock = clock_at_day(102);
    let ctx = PushContext { push: &push, history: &history, clock: &clock };
    assert_eq!(bonus.applies(&ctx), 1);
}

#[test]
fn streak_applies_with_longer_streak() {
    let bonus = Streak;
    let push = Push::new(vec![Commit::default()]);
    let history = PushHistory::from_entries((95..=102).map(entry_on_day).collect());

    let clock = clock_at_day(102);
    let ctx = PushContext { push: &push, history: &history, clock: &clock };
    assert_eq!(bonus.applies(&ctx), 1);
}

#[test]
fn streak_does_not_apply_with_2_day_streak() {
    let bonus = Streak;
    let push = Push::new(vec![Commit::default()]);
    let history = PushHistory::from_entries(vec![entry_on_day(101), entry_on_day(102)]);

    let clock = clock_at_day(102);
    let ctx = PushContext { push: &push, history: &history, clock: &clock };
    assert_eq!(bonus.applies(&ctx), 0);
}

#[test]
fn streak_does_not_apply_with_gap() {
    let bonus = Streak;
    let push = Push::new(vec![Commit::default()]);
    let history = PushHistory::from_entries(vec![
        entry_on_day(99),
        entry_on_day(100),
        // gap on day 101
        entry_on_day(102),
    ]);

    let clock = clock_at_day(102);
    let ctx = PushContext { push: &push, history: &history, clock: &clock };
    assert_eq!(bonus.applies(&ctx), 0);
}

#[test]
fn streak_does_not_apply_if_no_push_today() {
    let bonus = Streak;
    let push = Push::new(vec![Commit::default()]);
    let history =
        PushHistory::from_entries(vec![entry_on_day(99), entry_on_day(100), entry_on_day(101)]);

    // clock is on day 102, but no push today
    let clock = clock_at_day(102);
    let ctx = PushContext { push: &push, history: &history, clock: &clock };
    assert_eq!(bonus.applies(&ctx), 0);
}

#[test]
fn streak_does_not_apply_to_empty_pushes() {
    let bonus = Streak;
    let push = Push::new(vec![]);
    let history =
        PushHistory::from_entries(vec![entry_on_day(100), entry_on_day(101), entry_on_day(102)]);

    let clock = clock_at_day(102);
    let ctx = PushContext { push: &push, history: &history, clock: &clock };
    assert_eq!(bonus.applies(&ctx), 0);
}
