//! What the commands decide: the parts of each command that compute.
use vstd::prelude::*;

pub mod add;
pub mod alias;
pub mod clone;
pub mod completions;
pub mod config_cmd;
pub mod copy_files;
pub mod effects;
pub mod fix_fetch;
pub mod init_shell;
pub mod list;
pub mod migrate;
pub mod pr;
pub mod remove;
pub mod remove_all;
pub mod setup;
pub mod prune;
pub mod steps;
pub mod switch;
pub mod sync;
pub mod update;
pub mod version;

verus! {

} // verus!
