use post_push_party::bonus_tracks::{
    BonusTrack, EarlyPush, FirstPush, FridayAfternoon, PushContext, RapidFire, WeekendPush,
};
use post_push_party::clock::Clock;
use post_push_party::git::{Commit, Push};
use post_push_party::history::{PushEntry, PushHistory};

const UTC_MINUS_8: i32 = -8 * 3600; // PST

// day 20483 midnight UTC = 1769731200
// day 20483 PST = 1769731200 + 28800 = 1769760000
const MIDNIGHT_PST_AS_UTC: u64 = 1769760000;

fn clock_at_hour(hour: u64) -> Clock {
    Clock::with_offset(MIDNIGHT_PST_AS_UTC + hour * 3600, UTC_MINUS_8)
}

fn make_commit() -> Commit {
    Commit { sha: "abc123".to_string(), lines_changed: 10, timestamp: 0 }
}

// ---- early push ----

#[test]
fn applies_between_6_and_9am() {
    let bonus = EarlyPush;
    let history = PushHistory::default();

    // exactly 6am
    let push = Push::new(vec![Commit::default()]);
    let clock = clock_at_hour(6);
    let ctx = PushContext { push: &push, history: &history, clock: &clock };
    assert_eq!(bonus.applies(&ctx), 1);

    // 7am
    let clock = clock_at_hour(7);
    let ctx = PushContext { push: &push, history: &history, clock: &clock };
    assert_eq!(bonus.applies(&ctx), 1);

    // 9am
    let clock = clock_at_hour(9);
    let ctx = PushContext { push: &push, history: &history, clock: &clock };
    assert_eq!(bonus.applies(&ctx), 1);
}

#[test]
fn does_not_apply_outside_6_to_9am() {
    let bonus = EarlyPush;
    let push = Push::new(vec![Commit::default()]);
    let history = PushHistory::default();

    // 5am
    let clock = clock_at_hour(5);
    let ctx = PushContext { push: &push, history: &history, clock: &clock };
    assert_eq!(bonus.applies(&ctx), 0);

    // 10am
    let clock = clock_at_hour(10);
    let ctx = PushContext { push: &push, history: &history, clock: &clock };
    assert_eq!(bonus.applies(&ctx), 0);
}

#[test]
fn early_push_does_not_apply_to_empty_pushes() {
    let bonus = EarlyPush;
    let push = Push::new(vec![]);
    let history = PushHistory::default();
    let clock = clock_at_hour(8);
    let ctx = PushContext { push: &push, history: &history, clock: &clock };
    assert_eq!(bonus.applies(&ctx), 0);
}

// ---- friday afternoon ----

// day 20483 is a Friday (20483 % 7 = 1)
// Friday midnight PST = Friday 8am UTC = 1769731200 + 28800 = 1769760000
const FRIDAY_MIDNIGHT_PST_AS_UTC: u64 = 1769760000;

fn friday_applies_at_hour(commits: &[Commit], hour: u64) -> u32 {
    let clock = Clock { now: FRIDAY_MIDNIGHT_PST_AS_UTC + hour * 3600, tz_offset_secs: UTC_MINUS_8 };
    let history = PushHistory::default();
    let push = Push::with_repo(commits.to_vec(), "git@github.com:user/repo.git");
    let ctx = PushContext { push: &push, history: &history, clock: &clock };
    FridayAfternoon.applies(&ctx)
}

#[test]
fn applies_on_friday_after_3pm() {
    let commits = vec![make_commit()];

    // exactly 3pm
    assert_eq!(friday_applies_at_hour(&commits, 15), 1);
    // 4pm
    assert_eq!(friday_applies_at_hour(&commits, 16), 1);
    // 11pm
    assert_eq!(friday_applies_at_hour(&commits, 23), 1);
}

#[test]
fn does_not_apply_before_3pm() {
    let commits = vec![make_commit()];

    // midnight
    assert_eq!(friday_applies_at_hour(&commits, 0), 0);
    // 2pm (just before cutoff)
    assert_eq!(friday_applies_at_hour(&commits, 14), 0);
}

#[test]
fn does_not_apply_on_other_days() {
    let bonus = FridayAfternoon;
    let push = Push::with_repo(vec![make_commit()], "git@github.com:user/repo.git");
    let history = PushHistory::default();

    // Saturday 4pm (day after)
    let saturday_4pm = Clock {
        now: FRIDAY_MIDNIGHT_PST_AS_UTC + 24 * 3600 + 16 * 3600,
        tz_offset_secs: UTC_MINUS_8,
    };
    let ctx = PushContext { push: &push, history: &history, clock: &saturday_4pm };
    assert_eq!(bonus.applies(&ctx), 0);

    // Thursday 4pm (day before)
    let thursday_4pm = Clock {
        now: FRIDAY_MIDNIGHT_PST_AS_UTC - 24 * 3600 + 16 * 3600,
        tz_offset_secs: UTC_MINUS_8,
    };
    let ctx = PushContext { push: &push, history: &history, clock: &thursday_4pm };
    assert_eq!(bonus.applies(&ctx), 0);
}

#[test]
fn friday_afternoon_push_does_not_apply_to_empty_pushes() {
    let commits: Vec<Commit> = vec![];
    assert_eq!(friday_applies_at_hour(&commits, 16), 0);
}

// ---- weekend push ----

const FRI_2AM_LOCAL: u64 = 1769842800;
const SAT_2AM_LOCAL: u64 = 1769853600;
const SUN_11PM_LOCAL: u64 = 1770015600;
const MON_2AM_LOCAL: u64 = 1770026400;

#[test]
fn weekend_push_applies_on_saturday_and_sunday() {
    let bonus = WeekendPush;
    let push = Push::new(vec![Commit::default()]);
    let history = PushHistory::default();

    // saturday
    let clock = Clock::with_offset(SAT_2AM_LOCAL, UTC_MINUS_8);
    let ctx = PushContext { push: &push, history: &history, clock: &clock };
    assert_eq!(bonus.applies(&ctx), 1);

    // sunday
    let clock = Clock::with_offset(SUN_11PM_LOCAL, UTC_MINUS_8);
    let ctx = PushContext { push: &push, history: &history, clock: &clock };
    assert_eq!(bonus.applies(&ctx), 1);
}

#[test]
fn weekend_push_does_not_apply_on_friday_or_monday() {
    let bonus = WeekendPush;
    let push = Push::new(vec![Commit::default()]);
    let history = PushHistory::default();

    // friday
    let clock = Clock::with_offset(FRI_2AM_LOCAL, UTC_MINUS_8);
    let ctx = PushContext { push: &push, history: &history, clock: &clock };
    assert_eq!(bonus.applies(&ctx), 0);

    // monday
    let clock = Clock::with_offset(MON_2AM_LOCAL, UTC_MINUS_8);
    let ctx = PushContext { push: &push, history: &history, clock: &clock };
    assert_eq!(bonus.applies(&ctx), 0);
}

#[test]
fn weekend_push_does_not_apply_to_empty_pushes() {
    let bonus = WeekendPush;
    let push = Push::new(vec![]);
    let history = PushHistory::default();
    let clock = Clock::with_offset(SUN_11PM_LOCAL, UTC_MINUS_8);

    let ctx = PushContext { push: &push, history: &history, clock: &clock };
    assert_eq!(bonus.applies(&ctx), 0);
}

// ---- first push of the day ----

// timestamps for testing (2026-01-28 in UTC)
const TODAY_9AM: u64 = 1769594400; // 2026-01-28 09:00 UTC
const TODAY_3PM: u64 = 1769616000; // 2026-01-28 15:00 UTC
const YESTERDAY_9AM: u64 = 1769508000; // 2026-01-27 09:00 UTC

// for timezone tests (UTC-5, e.g. EST)
const JAN28_9AM_LOCAL: u64 = 1769522400; // local 09:00 = UTC 14:00
const JAN28_11PM_LOCAL: u64 = 1769572800; // local 23:00 = UTC 04:00 next day
const UTC_MINUS_5: i32 = -5 * 3600;

#[test]
fn respects_local_timezone() {
    // push at 11pm local time - in UTC this is already Jan 29,
    // but in local time it's still Jan 28
    let bonus = FirstPush;
    let push = Push::new(vec![Commit::default()]);
    let history = PushHistory::from_entries(vec![PushEntry::at(JAN28_9AM_LOCAL)]);
    let clock = Clock::with_offset(JAN28_11PM_LOCAL, UTC_MINUS_5);

    let ctx = PushContext { push: &push, history: &history, clock: &clock };

    // should NOT apply - already pushed today in local time
    assert_eq!(bonus.applies(&ctx), 0);
}

#[test]
fn applies_when_no_pushes_today() {
    let bonus = FirstPush;
    let push = Push::new(vec![Commit::default()]);
    let history = PushHistory::from_entries(vec![PushEntry::at(YESTERDAY_9AM)]);
    let clock = Clock::at(TODAY_9AM);

    let ctx = PushContext { push: &push, history: &history, clock: &clock };

    assert_eq!(bonus.applies(&ctx), 1);
}

#[test]
fn does_not_apply_when_already_pushed_today() {
    let bonus = FirstPush;
    let push = Push::new(vec![Commit::default()]);
    let history = PushHistory::from_entries(vec![PushEntry::at(TODAY_9AM)]);
    let clock = Clock::at(TODAY_3PM);

    let ctx = PushContext { push: &push, history: &history, clock: &clock };

    assert_eq!(bonus.applies(&ctx), 0);
}

#[test]
fn applies_on_first_push_ever() {
    let bonus = FirstPush;
    let push = Push::new(vec![Commit::default()]);
    let history = PushHistory::default();
    let clock = Clock::at(TODAY_9AM);

    let ctx = PushContext { push: &push, history: &history, clock: &clock };

    assert_eq!(bonus.applies(&ctx), 1);
}

// ---- rapid fire ----

const RAPID_FIRE_WINDOW_SECS: u64 = 15 * 60;

fn make_history(entries: Vec<PushEntry>) -> PushHistory {
    let mut history = PushHistory::default();
    for entry in entries {
        history.add(entry);
    }
    history
}

fn push_at(timestamp: u64) -> PushEntry {
    PushEntry {
        timestamp,
        remote_url: "git@github.com:user/repo.git".to_string(),
        branch: "main".to_string(),
        commits: 1,
        lines_changed: 0,
        points: 0,
    }
}

fn rapid_fire_applies(commits: Vec<Commit>, history: &PushHistory, now: u64) -> u32 {
    let push = Push::with_repo(commits, "git@github.com:user/repo.git");
    let clock = Clock { now, tz_offset_secs: 0 };
    let ctx = PushContext { push: &push, history, clock: &clock };
    RapidFire.applies(&ctx)
}

#[test]
fn applies_when_pushed_within_window() {
    let history = make_history(vec![push_at(1000)]);
    assert_eq!(rapid_fire_applies(vec![make_commit()], &history, 1000 + 5 * 60), 1);
}

#[test]
fn applies_at_exact_boundary() {
    let history = make_history(vec![push_at(1000)]);
    assert_eq!(rapid_fire_applies(vec![make_commit()], &history, 1000 + RAPID_FIRE_WINDOW_SECS), 1);
}

#[test]
fn does_not_apply_outside_window() {
    let history = make_history(vec![push_at(1000)]);
    assert_eq!(
        rapid_fire_applies(vec![make_commit()], &history, 1000 + RAPID_FIRE_WINDOW_SECS + 60),
        0
    );
}

#[test]
fn does_not_apply_with_no_history() {
    let history = PushHistory::default();
    assert_eq!(rapid_fire_applies(vec![make_commit()], &history, 1000), 0);
}

#[test]
fn rapid_fire_does_not_apply_to_empty_pushes() {
    let history = make_history(vec![push_at(1000)]);
    assert_eq!(rapid_fire_applies(vec![], &history, 1000 + 5 * 60), 0);
}
