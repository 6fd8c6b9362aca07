//! The command line: a bare description of the commands, for the binary to
//! parse into.

use vstd::prelude::*;

verus! {

/// the subcommands of `party`
#[derive(Debug, Clone, Copy, PartialEq, Eq, Structural)]
pub enum Command {
    /// install hook in current repo
    Init,
    /// remove hook from current repo
    Uninit,
    /// prints current party points
    Points,
    /// show push and commit stats
    Stats,
    /// called by git hook (not user-facing)
    Hook,
    /// snapshot current refs (called before push in jj)
    Snapshot,
    /// print state for debugging
    Dump,
}

/// a parsed command line; no subcommand opens the party TUI
pub struct Cli {
    pub command: Option<Command>,
}

} // verus!
