//! Installing the party hook: the decisions, apart from the file system and
//! `jj` calls that carry them out.

use vstd::prelude::*;

verus! {

/// party points granted on the first `party init`
pub const STARTER_POINTS: u64 = 10;

/// the version control a repo uses
#[derive(Debug, Clone, Copy, PartialEq, Eq, Structural)]
pub enum RepoType {
    Git,
    Jj,
}

/// the git `reference-transaction` hook that party installs
pub const GIT_HOOK_SCRIPT: &'static str = "#!/bin/sh\nif [ \"$1\" = \"committed\" ]; then\n    party hook\nfi\n";

/// the `jj push` alias that party installs
pub const JJ_PUSH_CMD: &'static str = "[\"util\", \"exec\", \"--\", \"bash\", \"-c\", \"party snapshot && jj git push \\\"$@\\\" && party hook\", \"--\"]";

/// the kind of repo in a directory, given whether it holds a `.jj` and a
/// `.git` directory; jj takes precedence, since a colocated jj repo has both
pub fn detect_repo_type(has_jj_dir: bool, has_git_dir: bool) -> (r: Option<RepoType>)
    ensures
        r == if has_jj_dir {
            Some(RepoType::Jj)
        } else if has_git_dir {
            Some(RepoType::Git)
        } else {
            None
        },
{
    if has_jj_dir {
        Some(RepoType::Jj)
    } else if has_git_dir {
        Some(RepoType::Git)
    } else {
        None
    }
}

/// whether the `jj push` alias may be set: only when it is unset or still
/// the plain `git push`
pub fn jj_alias_is_free(push_cmd: &Option<String>) -> (r: bool)
    ensures
        r == match push_cmd {
            Some(s) => s@ == "['git', 'push']"@ || s@ == "[\"git\", \"push\"]"@,
            None => true,
        },
{
    match push_cmd {
        Some(s) => {
            let single = "['git', 'push']".to_string();
            let double = "[\"git\", \"push\"]".to_string();
            *s == single || *s == double
        },
        None => true,
    }
}

/// whether the `jj push` alias is exactly the one party installed, and so
/// may be removed
pub fn jj_alias_is_ours(push_cmd: &String) -> (r: bool)
    ensures
        r == (push_cmd@ == JJ_PUSH_CMD@),
{
    let ours = JJ_PUSH_CMD.to_string();
    *push_cmd == ours
}

/// whether a git hook file is exactly the one party installed, and so may
/// be removed
pub fn git_hook_is_ours(content: &String) -> (r: bool)
    ensures
        r == (content@ == GIT_HOOK_SCRIPT@),
{
    let ours = GIT_HOOK_SCRIPT.to_string();
    *content == ours
}

} // verus!
