//! Data about commits and pushes.

use vstd::prelude::*;

pub mod detection;
pub mod output;

verus! {

/// data about a single commit in a push
#[derive(Debug, Clone)]
pub struct Commit {
    pub lines_changed: u64,
    pub sha: String,
    pub timestamp: u64,
}

impl Commit {
    pub fn new(sha: String, lines_changed: u64, timestamp: u64) -> (c: Self)
        ensures
            c.sha@ == sha@,
            c.lines_changed == lines_changed,
            c.timestamp == timestamp,
    {
        Self { sha, lines_changed, timestamp }
    }

    /// a commit that changed the given number of lines
    pub fn with_lines(lines_changed: u64) -> (c: Self)
        ensures
            c.lines_changed == lines_changed,
            c.sha@ == Seq::<char>::empty(),
            c.timestamp == 0,
    {
        Self { lines_changed, sha: String::new(), timestamp: 0 }
    }

    pub fn lines_changed(&self) -> (r: u64)
        ensures
            r == self.lines_changed,
    {
        self.lines_changed
    }
}

impl Default for Commit {
    fn default() -> (c: Self)
        ensures
            c.lines_changed == 0,
            c.sha@ == Seq::<char>::empty(),
            c.timestamp == 0,
    {
        Self::with_lines(0)
    }
}

/// data about a single push
#[derive(Debug)]
pub struct Push {
    commits: Vec<Commit>,
    remote_url: String,
    branch: String,
}

/// the remote a push goes to when none is named
pub open spec fn default_remote() -> Seq<char> {
    "git@github.com:user/repo.git"@
}

/// the branch a push goes to when none is named
pub open spec fn default_branch() -> Seq<char> {
    "main"@
}

impl Push {
    pub closed spec fn spec_commits(&self) -> Seq<Commit> {
        self.commits@
    }

    pub closed spec fn spec_remote_url(&self) -> Seq<char> {
        self.remote_url@
    }

    pub closed spec fn spec_branch(&self) -> Seq<char> {
        self.branch@
    }

    /// a push of the given commits to the default remote and branch
    pub fn new(commits: Vec<Commit>) -> (p: Self)
        ensures
            p.spec_commits() == commits@,
            p.spec_remote_url() == default_remote(),
            p.spec_branch() == default_branch(),
    {
        Self { commits, remote_url: "git@github.com:user/repo.git".to_string(), branch: "main".to_string() }
    }

    /// a push of the given commits to the given remote, on the default branch
    pub fn with_repo(commits: Vec<Commit>, remote_url: &str) -> (p: Self)
        ensures
            p.spec_commits() == commits@,
            p.spec_remote_url() == remote_url@,
            p.spec_branch() == default_branch(),
    {
        Self { commits, remote_url: remote_url.to_string(), branch: "main".to_string() }
    }

    pub fn from_parts(commits: Vec<Commit>, remote_url: String, branch: String) -> (p: Self)
        ensures
            p.spec_commits() == commits@,
            p.spec_remote_url() == remote_url@,
            p.spec_branch() == branch@,
    {
        Self { commits, remote_url, branch }
    }

    pub fn commits(&self) -> (r: &[Commit])
        ensures
            r@ == self.spec_commits(),
    {
        self.commits.as_slice()
    }

    pub fn remote_url(&self) -> (r: &str)
        ensures
            r@ == self.spec_remote_url(),
    {
        self.remote_url.as_str()
    }

    /// whether this push goes to the remote `url`
    pub fn is_remote(&self, url: &String) -> (r: bool)
        ensures
            r == (url@ == self.spec_remote_url()),
    {
        self.remote_url == *url
    }

    pub fn branch(&self) -> (r: &str)
        ensures
            r@ == self.spec_branch(),
    {
        self.branch.as_str()
    }
}

impl Default for Push {
    fn default() -> (p: Self)
        ensures
            p.spec_commits() == Seq::<Commit>::empty(),
            p.spec_remote_url() == default_remote(),
            p.spec_branch() == default_branch(),
    {
        Self::new(Vec::new())
    }
}

} // verus!
