use post_push_party::git::output::{
    ends_with, is_other_remote_ref, is_whitespace, parse_u64, patch_id_of, remote_ref, remote_refs,
    shas_of, starts_with, stat_of, trim, unique_commits_args, words,
};

#[test]
fn words_split_on_any_whitespace() {
    assert_eq!(words("  a bb\t ccc\n"), vec!["a", "bb", "ccc"]);
    assert_eq!(words(""), Vec::<String>::new());
    assert_eq!(words(" \u{3000} "), Vec::<String>::new());
    assert_eq!(words("x\u{a0}y"), vec!["x", "y"]);
    assert!(is_whitespace('\u{2009}'));
    assert!(!is_whitespace('x'));
}

#[test]
fn trim_drops_both_ends() {
    assert_eq!(trim("  git@example.com:me/repo.git\n"), "git@example.com:me/repo.git");
    assert_eq!(trim(" \n "), "");
    assert_eq!(trim("a b"), "a b");
}

#[test]
fn prefixes_and_suffixes() {
    assert!(starts_with("insertions(+)", "insertion"));
    assert!(!starts_with("ins", "insertion"));
    assert!(ends_with("refs/remotes/origin/main", "/main"));
    assert!(!ends_with("refs/remotes/origin/domain", "/main"));
}

#[test]
fn numbers_parse_as_rust_does() {
    assert_eq!(parse_u64("42"), Some(42));
    assert_eq!(parse_u64("+7"), Some(7));
    assert_eq!(parse_u64("18446744073709551615"), Some(u64::MAX));
    assert_eq!(parse_u64("18446744073709551616"), None);
    assert_eq!(parse_u64(""), None);
    assert_eq!(parse_u64("+"), None);
    assert_eq!(parse_u64("-1"), None);
    assert_eq!(parse_u64("1x"), None);
    for s in ["0", "123", "+5", "99x", "-3", "007"] {
        assert_eq!(parse_u64(s), s.parse::<u64>().ok());
    }
}

#[test]
fn remote_ref_lines() {
    assert_eq!(
        remote_ref("origin/main abc123"),
        Some(("main".to_string(), "abc123".to_string()))
    );
    assert_eq!(remote_ref("origin/HEAD abc123"), None);
    assert_eq!(remote_ref("upstream/main abc123"), None);
    assert_eq!(remote_ref("origin/main"), None);
    assert_eq!(
        remote_refs("origin/HEAD 111\norigin/main 222\r\norigin/feature/x 333\n"),
        vec![("main".to_string(), "222".to_string()), ("feature/x".to_string(), "333".to_string())]
    );
}

#[test]
fn stat_summary_counts() {
    let out = " src/a.rs | 10 ++++----\n 3 files changed, 10 insertions(+), 5 deletions(-)\n";
    assert_eq!(stat_of(out), Some((10, 5)));
    assert_eq!(stat_of(" 1 file changed, 1 insertion(+)"), Some((1, 0)));
    assert_eq!(stat_of(" 1 file changed, 2 deletions(-)\n"), Some((0, 2)));
    assert_eq!(stat_of(""), None);
}

#[test]
fn patch_ids_and_sha_lists() {
    assert_eq!(patch_id_of("abcdef 123456\n"), Some("abcdef".to_string()));
    assert_eq!(patch_id_of("\n"), None);
    assert_eq!(shas_of("a\nb\n"), vec!["a", "b"]);
    assert_eq!(shas_of("a\n\nb"), vec!["a", "", "b"]);
}

#[test]
fn other_remote_refs_skip_pushed_and_head() {
    let pushed = vec!["main".to_string()];
    assert!(!is_other_remote_ref("refs/remotes/origin/main", &pushed));
    assert!(!is_other_remote_ref("refs/remotes/origin/HEAD", &pushed));
    assert!(is_other_remote_ref("refs/remotes/origin/dev", &pushed));
}

#[test]
fn unique_commit_arguments() {
    let branches = vec!["a".to_string(), "b".to_string()];
    assert_eq!(
        unique_commits_args(&branches),
        vec![
            "rev-list",
            "refs/remotes/origin/a",
            "refs/remotes/origin/b",
            "--not",
            "--exclude=origin/a",
            "--exclude=origin/b",
            "--remotes=origin",
        ]
    );
}

#[test]
fn shas_are_read_line_by_line() {
    assert_eq!(shas_of("a1\r\nb2\nc3"), vec!["a1", "b2", "c3"]);
    assert_eq!(shas_of("a1\n\nb2\n"), vec!["a1", "", "b2"]);
    assert_eq!(shas_of("a1\rb2\r"), vec!["a1\rb2\r"]);
    assert_eq!(shas_of(""), Vec::<String>::new());
}
