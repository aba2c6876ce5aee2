//! Bare-repository git worktree management: the parsers, rules and decisions
//! behind the `lazywt` command line, with their contracts.
use vstd::prelude::*;

pub mod cli;
pub mod commands;
pub mod config;
pub mod error;
pub mod git;
pub mod layout;
pub mod navigate;
pub mod output;
pub mod paths;
pub mod prompt;
pub mod text;
pub mod update_check;
