//! Which configuration the editor works on.
use vstd::prelude::*;

use crate::config::repo_config_path;
use crate::paths::path_join;
use crate::text::join_str;

verus! {

/// The configuration being edited.
#[derive(Clone, Copy, Debug, PartialEq, Eq, Structural)]
pub enum Scope {
    Global,
    Repo,
}

pub open spec fn no_terminal_message() -> Seq<char> {
    "Config editor requires a terminal"@
}

pub open spec fn repo_needed_message() -> Seq<char> {
    "Not inside a git repository. Run from a worktree or use --global."@
}

/// The scope to edit: only on a terminal; `--global` first, then `--repo`
/// (inside a repository only); without a flag the user chooses (`None`)
/// when inside a repository, else the global configuration.
pub open spec fn scope_choice(terminal: bool, global_flag: bool, repo_flag: bool, in_repo: bool) -> Result<Option<Scope>, Seq<char>> {
    if !terminal {
        Err(no_terminal_message())
    } else if global_flag {
        Ok(Some(Scope::Global))
    } else if repo_flag {
        if in_repo {
            Ok(Some(Scope::Repo))
        } else {
            Err(repo_needed_message())
        }
    } else if in_repo {
        Ok(None)
    } else {
        Ok(Some(Scope::Global))
    }
}

/// The scope to edit, or `None` when the user is to choose between the
/// global (first) and the per-repository configuration.
pub fn choose_scope(terminal: bool, global_flag: bool, repo_flag: bool, in_repo: bool) -> (r: Result<Option<Scope>, String>)
    ensures
        match (r, scope_choice(terminal, global_flag, repo_flag, in_repo)) {
            (Ok(a), Ok(b)) => a == b,
            (Err(a), Err(b)) => a@ == b,
            _ => false,
        },
{
    if !terminal {
        Err("Config editor requires a terminal".to_string())
    } else if global_flag {
        Ok(Some(Scope::Global))
    } else if repo_flag {
        if in_repo {
            Ok(Some(Scope::Repo))
        } else {
            Err("Not inside a git repository. Run from a worktree or use --global.".to_string())
        }
    } else if in_repo {
        Ok(None)
    } else {
        Ok(Some(Scope::Global))
    }
}

/// The scope of the option chosen among global (0) and per-repository.
pub fn scope_of_choice(index: usize) -> (r: Scope)
    ensures
        r == (if index == 0 {
            Scope::Global
        } else {
            Scope::Repo
        }),
{
    if index == 0 {
        Scope::Global
    } else {
        Scope::Repo
    }
}

/// What is said once a per-repository configuration is saved.
pub fn repo_saved_message(project_dir: &str) -> (r: String)
    ensures
        r@ == "Repo config saved to "@ + path_join(project_dir@, "lazywt.json"@),
{
    let p = repo_config_path(project_dir);
    join_str("Repo config saved to ", p.as_str())
}

} // verus!
