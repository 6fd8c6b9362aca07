use post_push_party::dev;
use post_push_party::git::detection::{
    classify_ref, commits_to_check, detect_push, finish_push, snapshot_updates, plan_push, select_new_commits, Candidate, RefChange,
    RemoteRef,
};
use post_push_party::git::{Commit, Push};
use post_push_party::history::{PushEntry, PushHistory};
use post_push_party::hook::{lines_changed, post_push};
use post_push_party::init::{
    detect_repo_type, git_hook_is_ours, jj_alias_is_free, jj_alias_is_ours, RepoType,
    GIT_HOOK_SCRIPT, JJ_PUSH_CMD,
};

fn remote_ref(branch: &str, sha: &str, local: Option<&str>, stored: Option<&str>) -> RemoteRef {
    RemoteRef {
        branch: branch.to_string(),
        sha: sha.to_string(),
        local_sha: local.map(|s| s.to_string()),
        stored_sha: stored.map(|s| s.to_string()),
    }
}

#[test]
fn refs_are_classified_by_local_and_stored_shas() {
    assert_eq!(classify_ref(&remote_ref("main", "b", Some("c"), Some("a"))), RefChange::Fetched);
    assert_eq!(classify_ref(&remote_ref("main", "b", None, None)), RefChange::Fetched);
    assert_eq!(classify_ref(&remote_ref("main", "b", Some("b"), Some("b"))), RefChange::Unchanged);
    assert_eq!(classify_ref(&remote_ref("main", "b", Some("b"), Some("a"))), RefChange::Updated);
    assert_eq!(classify_ref(&remote_ref("main", "b", Some("b"), None)), RefChange::FirstPush);
}

#[test]
fn plan_lists_pushed_branches_in_order() {
    let refs = vec![
        remote_ref("fetched", "b", Some("c"), Some("a")),
        remote_ref("feature", "f", Some("f"), None),
        remote_ref("same", "s", Some("s"), Some("s")),
        remote_ref("main", "m2", Some("m2"), Some("m1")),
    ];
    let plan = plan_push(&refs);
    assert_eq!(plan.pushed, vec![1, 3]);
    assert_eq!(plan.updated, vec![3]);
    assert_eq!(plan.first_time, vec![1]);
}

#[test]
fn new_commits_skip_seen_and_foreign_patches() {
    let mut seen = vec!["p1".to_string()];
    let candidates = vec![
        Candidate { reachable_from_other: false, patch_id: Some("p1".to_string()) },
        Candidate { reachable_from_other: false, patch_id: Some("p2".to_string()) },
        Candidate { reachable_from_other: true, patch_id: Some("p3".to_string()) },
        Candidate { reachable_from_other: false, patch_id: None },
        Candidate { reachable_from_other: false, patch_id: Some("p2".to_string()) },
        Candidate { reachable_from_other: false, patch_id: Some("p4".to_string()) },
    ];
    let picks = select_new_commits(&candidates, &mut seen);
    assert_eq!(picks, vec![1, 5]);
    assert_eq!(seen, vec!["p1".to_string(), "p2".to_string(), "p4".to_string()]);
}

#[test]
fn only_pushes_with_commits_on_a_branch_are_recorded() {
    let mut history = PushHistory::default();
    let mut points = 5;

    let empty = Push::new(vec![]);
    assert!(!post_push(&empty, 0, &mut points, &mut history, 100));
    assert!(history.entries().is_empty());
    assert_eq!(points, 5);

    let no_branch = Push::from_parts(vec![Commit::with_lines(3)], "r".to_string(), String::new());
    assert!(!post_push(&no_branch, 2, &mut points, &mut history, 100));
    assert!(history.entries().is_empty());
    assert_eq!(points, 7);

    let push = Push::with_repo(vec![Commit::with_lines(3), Commit::with_lines(4)], "git@x:y.git");
    assert!(post_push(&push, 10, &mut points, &mut history, 200));
    assert_eq!(points, 17);
    assert_eq!(history.entries().len(), 1);
    let entry = &history.entries()[0];
    assert_eq!(entry.timestamp(), 200);
    assert_eq!(entry.remote_url(), "git@x:y.git");
    assert_eq!(entry.branch, "main");
    assert_eq!(entry.commits, 2);
    assert_eq!(entry.lines_changed, 7);
    assert_eq!(entry.points, 10);
    assert_eq!(lines_changed(&push), 7);
}

#[test]
fn simulated_pushes_cycle_line_counts() {
    let mut points = 0;
    let mut history = PushHistory::default();
    let push = dev::push(5, &Some(vec![1, 20]), 5, &mut points, &mut history, 42);
    let lines: Vec<u64> = push.commits().iter().map(|c| c.lines_changed()).collect();
    assert_eq!(lines, vec![1, 20, 1, 20, 1]);
    assert_eq!(push.commits()[3].sha, "fake3");
    assert_eq!(push.commits()[0].timestamp, 42);
    assert_eq!(push.remote_url(), "dev://fake");
    assert_eq!(push.branch(), "main");

    let push = dev::push(2, &None, 2, &mut points, &mut history, 0);
    assert_eq!(push.commits()[1].lines_changed(), 10);
}

#[test]
fn repo_type_prefers_jj() {
    assert_eq!(detect_repo_type(false, true), Some(RepoType::Git));
    assert_eq!(detect_repo_type(true, false), Some(RepoType::Jj));
    assert_eq!(detect_repo_type(true, true), Some(RepoType::Jj));
    assert_eq!(detect_repo_type(false, false), None);
}

#[test]
fn hook_ownership_is_checked_exactly() {
    assert!(git_hook_is_ours(&GIT_HOOK_SCRIPT.to_string()));
    assert!(!git_hook_is_ours(&"#!/bin/sh\nparty hook\nsome_other_command\n".to_string()));
    assert!(jj_alias_is_ours(&JJ_PUSH_CMD.to_string()));
    assert!(!jj_alias_is_ours(&"somethin-else".to_string()));
    assert!(jj_alias_is_free(&None));
    assert!(jj_alias_is_free(&Some("['git', 'push']".to_string())));
    assert!(jj_alias_is_free(&Some("[\"git\", \"push\"]".to_string())));
    assert!(!jj_alias_is_free(&Some("somethin-else".to_string())));
}

#[test]
fn history_entries_default_to_the_main_branch() {
    let entry = PushEntry::at(5);
    assert_eq!(entry.remote_url(), "git@github.com:user/repo.git");
    assert_eq!(entry.branch, "main");
    let history = PushHistory::from_entries(vec![entry]);
    assert_eq!(history.entries()[0].timestamp, 5);
}

fn remote(branch: &str, sha: &str, local: Option<&str>, stored: Option<&str>) -> RemoteRef {
    RemoteRef {
        branch: branch.to_string(),
        sha: sha.to_string(),
        local_sha: local.map(|s| s.to_string()),
        stored_sha: stored.map(|s| s.to_string()),
    }
}

#[test]
fn a_push_holds_the_picked_commits_on_the_first_pushed_branch() {
    let refs = vec![
        remote("fetched", "a1", Some("zz"), None),
        remote("feature", "b2", Some("b2"), Some("b1")),
        remote("main", "c1", Some("c1"), Some("c1")),
    ];
    let plan = plan_push(&refs);
    let commits = commits_to_check(&vec![vec!["s1".to_string(), "s2".to_string()]], &vec!["s3".to_string()]);
    assert_eq!(commits, vec!["s1", "s2", "s3"]);
    let (push, store) = finish_push("url".to_string(), &refs, &plan, &commits, &vec![0, 2], &vec![4, 6], 99);
    let push = push.unwrap();
    assert_eq!(push.remote_url(), "url");
    assert_eq!(push.branch(), "feature");
    assert_eq!(push.commits().len(), 2);
    assert_eq!(push.commits()[1].sha, "s3");
    assert_eq!(push.commits()[1].lines_changed(), 6);
    assert_eq!(push.commits()[0].timestamp, 99);
    assert_eq!(
        store,
        vec![
            ("fetched".to_string(), "a1".to_string()),
            ("feature".to_string(), "b2".to_string()),
            ("main".to_string(), "c1".to_string()),
        ]
    );
}

#[test]
fn no_commits_to_check_means_no_push_but_refs_are_stored() {
    let refs = vec![remote("main", "c1", Some("c1"), Some("c1"))];
    let plan = plan_push(&refs);
    let (push, store) = finish_push("url".to_string(), &refs, &plan, &vec![], &vec![], &vec![], 1);
    assert!(push.is_none());
    assert_eq!(store.len(), 1);
}

#[test]
fn dev_cheat_adds_and_takes_away() {
    assert_eq!(dev::cheat(5, 10), 15);
    assert_eq!(dev::cheat(-4, 10), 6);
    assert_eq!(dev::cheat(-40, 10), 0);
    assert_eq!(dev::cheat(i64::MIN, 10), 0);
    assert_eq!(dev::cheat(i64::MAX, u64::MAX - 1), u64::MAX);
}

#[test]
fn dev_push_earns_and_records() {
    let mut points = 7;
    let mut history = PushHistory::default();
    let push = dev::push(3, &Some(vec![4, 9]), 3, &mut points, &mut history, 500);
    assert_eq!(points, 10);
    assert_eq!(push.commits().len(), 3);
    assert_eq!(push.remote_url(), "dev://fake");
    let entries = history.entries();
    assert_eq!(entries.len(), 1);
    let e = &entries[0];
    assert_eq!(e.timestamp, 500);
    assert_eq!(e.remote_url, "dev://fake");
    assert_eq!(e.branch, "main");
    assert_eq!(e.commits, 3);
    assert_eq!(e.lines_changed, 4 + 9 + 4);
    assert_eq!(e.points, 3);

    // with no counts given, each commit changes ten lines; an empty push is
    // recorded too
    let mut history = PushHistory::default();
    dev::push(2, &None, 2, &mut points, &mut history, 600);
    assert_eq!(history.entries()[0].lines_changed, 20);
    dev::push(0, &None, 0, &mut points, &mut history, 700);
    assert_eq!(history.entries().len(), 2);
    assert_eq!(history.entries()[1].commits, 0);
    // with no commits, an empty list of line counts is never cycled
    dev::push(0, &Some(vec![]), 0, &mut points, &mut history, 800);
    assert_eq!(history.entries().len(), 3);
    assert_eq!(history.entries()[2].lines_changed, 0);
    assert_eq!(points, 12);
}

#[test]
fn detection_picks_new_commits_and_stores_every_ref() {
    let refs = vec![
        remote("main", "m2", Some("m2"), Some("m1")),
        remote("feat", "f1", Some("f1"), None),
        remote("old", "o1", Some("o1"), Some("o1")),
    ];
    let ranges = vec![vec!["c1".to_string(), "c2".to_string()]];
    let unique = vec!["c3".to_string(), "c4".to_string()];
    let candidates = vec![
        Candidate { reachable_from_other: false, patch_id: Some("p1".to_string()) },
        Candidate { reachable_from_other: false, patch_id: Some("p1".to_string()) },
        Candidate { reachable_from_other: true, patch_id: None },
        Candidate { reachable_from_other: false, patch_id: Some("p4".to_string()) },
    ];
    let lines = vec![3, 5, 0, 7];
    let mut seen = vec!["p4".to_string()];
    let (push, store) = detect_push("url".to_string(), &refs, &ranges, &unique, &candidates, &lines, &mut seen, 9);
    let push = push.expect("there were commits to check");
    assert_eq!(push.remote_url(), "url");
    assert_eq!(push.branch(), "main");
    let shas: Vec<&str> = push.commits().iter().map(|c| c.sha.as_str()).collect();
    assert_eq!(shas, vec!["c1"]);
    assert_eq!(push.commits()[0].lines_changed(), 3);
    assert_eq!(push.commits()[0].timestamp, 9);
    assert_eq!(seen, vec!["p4".to_string(), "p1".to_string()]);
    assert_eq!(store.len(), 3);
    assert_eq!(store[2], ("old".to_string(), "o1".to_string()));

    let mut seen = Vec::new();
    let (none, store) = detect_push("url".to_string(), &refs, &vec![], &vec![], &vec![], &vec![], &mut seen, 9);
    assert!(none.is_none());
    assert_eq!(store.len(), 3);
}

#[test]
fn snapshots_need_a_url_and_refs() {
    let refs = vec![("main".to_string(), "abc".to_string())];
    assert_eq!(snapshot_updates(None, refs.clone()), None);
    assert_eq!(snapshot_updates(Some("url".to_string()), vec![]), None);
    assert_eq!(snapshot_updates(Some("url".to_string()), refs.clone()), Some(("url".to_string(), refs)));
}
