//! Symbols shown in the terminal, and the kinds of progress outcome.
use vstd::prelude::*;

verus! {

pub const CHECK: &'static str = "\u{2713}";

pub const CROSS: &'static str = "\u{2717}";

pub const STAR: &'static str = "\u{2605}";

pub const ARROW: &'static str = "\u{25B8}";

// Upstream relationship.
pub const UPSTREAM_AHEAD: &'static str = "\u{21E1}";

pub const UPSTREAM_BEHIND: &'static str = "\u{21E3}";

pub const UPSTREAM_DIVERGE: &'static str = "\u{21C5}";

pub const UPSTREAM_SYNC: &'static str = "|";

pub const UPSTREAM_NONE: &'static str = "\u{2014}";

// Relationship to the default branch.
pub const MAIN_IS_DEFAULT: &'static str = "^";

pub const MAIN_AHEAD: &'static str = "\u{2191}";

pub const MAIN_BEHIND: &'static str = "\u{2193}";

pub const MAIN_DIVERGE: &'static str = "\u{2195}";

pub const MAIN_INTEGRATED: &'static str = "\u{2282}";

pub const MAIN_CONFLICT: &'static str = "\u{2717}";

pub const MAIN_SAME_COMMIT: &'static str = "_";

pub const MAIN_ORPHAN: &'static str = "\u{2205}";

// Operation in progress.
pub const OP_REBASE: &'static str = "\u{2934}";

pub const OP_MERGE: &'static str = "\u{2935}";

// Worktree state.
pub const LOCKED: &'static str = "\u{229E}";

pub const PRUNABLE: &'static str = "\u{229F}";

/// How a progress display ends.
#[derive(Clone, Copy, Debug, PartialEq, Eq, Structural)]
pub enum Status {
    Success,
    Warning,
    Error,
    Info,
}

} // verus!
