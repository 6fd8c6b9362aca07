//! The record of earlier pushes.

use vstd::prelude::*;

verus! {

/// one recorded push
#[derive(Debug, Clone)]
pub struct PushEntry {
    pub timestamp: u64,
    pub remote_url: String,
    pub branch: String,
    pub commits: u64,
    /// lines added plus lines removed over the push's commits
    pub lines_changed: u64,
    /// party points the push earned
    pub points: u64,
}

impl PushEntry {
    /// a push of one commit to the default remote and branch at `timestamp`
    pub fn at(timestamp: u64) -> (e: Self)
        ensures
            e.timestamp == timestamp,
            e.remote_url@ == crate::git::default_remote(),
            e.branch@ == crate::git::default_branch(),
            e.commits == 1,
            e.lines_changed == 0,
            e.points == 0,
    {
        Self {
            timestamp,
            remote_url: "git@github.com:user/repo.git".to_string(),
            branch: "main".to_string(),
            commits: 1,
            lines_changed: 0,
            points: 0,
        }
    }

    /// a push of one commit to `remote_url` on the default branch at `timestamp`
    pub fn with_repo(timestamp: u64, remote_url: &str) -> (e: Self)
        ensures
            e.timestamp == timestamp,
            e.remote_url@ == remote_url@,
            e.branch@ == crate::git::default_branch(),
            e.commits == 1,
            e.lines_changed == 0,
            e.points == 0,
    {
        Self {
            timestamp,
            remote_url: remote_url.to_string(),
            branch: "main".to_string(),
            commits: 1,
            lines_changed: 0,
            points: 0,
        }
    }

    pub fn timestamp(&self) -> (r: u64)
        ensures
            r == self.timestamp,
    {
        self.timestamp
    }

    pub fn remote_url(&self) -> (r: &str)
        ensures
            r@ == self.remote_url@,
    {
        self.remote_url.as_str()
    }
}

/// all recorded pushes, oldest first
#[derive(Debug, Clone)]
pub struct PushHistory {
    pub entries: Vec<PushEntry>,
}

impl PushHistory {
    pub fn from_entries(entries: Vec<PushEntry>) -> (h: Self)
        ensures
            h.entries@ == entries@,
    {
        Self { entries }
    }

    pub fn entries(&self) -> (r: &[PushEntry])
        ensures
            r@ == self.entries@,
    {
        self.entries.as_slice()
    }

    /// records one more push
    pub fn add(&mut self, entry: PushEntry)
        ensures
            final(self).entries@ == old(self).entries@.push(entry),
    {
        self.entries.push(entry);
    }
}

impl Default for PushHistory {
    fn default() -> (h: Self)
        ensures
            h.entries@ == Seq::<PushEntry>::empty(),
    {
        Self { entries: Vec::new() }
    }
}

} // verus!
