//! Merging the configuration sources.
use vstd::prelude::*;

use crate::config::schema::{clone_strings, GlobalConfig, GlobalConfigView, RepoConfig, RepoConfigView};
use crate::config::{clone_opt_string, with_env, Config, EnvOverrides, EnvOverridesView};

verus! {

/// The per-repository overrides applied to a configuration; a repository
/// list of files to copy replaces the global one whole.
pub open spec fn with_repo_overrides(c: GlobalConfigView, r: RepoConfigView) -> GlobalConfigView {
    GlobalConfigView {
        command_name: match r.command_name {
            Some(v) => v,
            None => c.command_name,
        },
        worktree_folder: match r.worktree_folder {
            Some(v) => Some(v),
            None => c.worktree_folder,
        },
        bare_dir: match r.bare_dir {
            Some(v) => Some(v),
            None => c.bare_dir,
        },
        auto_update: match r.auto_update {
            Some(v) => v,
            None => c.auto_update,
        },
        auto_navigate: match r.auto_navigate {
            Some(v) => v,
            None => c.auto_navigate,
        },
        branch_prefix: match r.branch_prefix {
            Some(v) => v,
            None => c.branch_prefix,
        },
        copy_files: match r.copy_files {
            Some(v) => v,
            None => c.copy_files,
        },
        worktree_location: match r.worktree_location {
            Some(v) => v,
            None => c.worktree_location,
        },
    }
}

/// The merged configuration: global, then the repository's overrides, then
/// the environment's.
pub open spec fn merged(g: GlobalConfigView, r: Option<RepoConfigView>, e: EnvOverridesView) -> GlobalConfigView {
    let base = match r {
        Some(rv) => with_repo_overrides(g, rv),
        None => g,
    };
    with_env(base, e)
}

/// Merge the global and per-repository configuration and the environment.
pub fn merge(global: &GlobalConfig, repo: Option<&RepoConfig>, env: &EnvOverrides) -> (r: Config)
    ensures
        r@ == merged(
            global@,
            match repo {
                Some(x) => Some(x@),
                None => None,
            },
            env@,
        ),
{
    let mut config = Config {
        command_name: global.command_name.clone(),
        worktree_folder: clone_opt_string(&global.worktree_folder),
        bare_dir: clone_opt_string(&global.bare_dir),
        auto_update: global.auto_update,
        auto_navigate: global.auto_navigate,
        branch_prefix: global.branch_prefix.clone(),
        copy_files: clone_strings(&global.copy_files),
        worktree_location: global.worktree_location.clone(),
    };
    match repo {
        Some(repo) => {
            match &repo.command_name {
                Some(v) => {
                    config.command_name = v.clone();
                },
                None => {},
            }
            match &repo.worktree_folder {
                Some(v) => {
                    config.worktree_folder = Some(v.clone());
                },
                None => {},
            }
            match &repo.bare_dir {
                Some(v) => {
                    config.bare_dir = Some(v.clone());
                },
                None => {},
            }
            match repo.auto_update {
                Some(v) => {
                    config.auto_update = v;
                },
                None => {},
            }
            match repo.auto_navigate {
                Some(v) => {
                    config.auto_navigate = v;
                },
                None => {},
            }
            match &repo.branch_prefix {
                Some(v) => {
                    config.branch_prefix = v.clone();
                },
                None => {},
            }
            match &repo.copy_files {
                Some(v) => {
                    config.copy_files = clone_strings(v);
                },
                None => {},
            }
            match &repo.worktree_location {
                Some(v) => {
                    config.worktree_location = v.clone();
                },
                None => {},
            }
        },
        None => {},
    }
    config.apply_env(env);
    config
}

/// A value set in the environment wins over both files; one set only in the
/// repository's file wins over the global file.
pub proof fn lemma_merge_priority(g: GlobalConfigView, r: RepoConfigView, e: EnvOverridesView)
    ensures
        e.rename is Some ==> merged(g, Some(r), e).command_name == e.rename->0,
        e.rename is None && r.command_name is Some ==> merged(g, Some(r), e).command_name
            == r.command_name->0,
        e.rename is None && r.command_name is None ==> merged(g, Some(r), e).command_name
            == g.command_name,
        e.branch_prefix is Some ==> merged(g, Some(r), e).branch_prefix == e.branch_prefix->0,
        e.branch_prefix is None && r.branch_prefix is Some ==> merged(g, Some(r), e).branch_prefix
            == r.branch_prefix->0,
        r.copy_files is Some ==> merged(g, Some(r), e).copy_files == r.copy_files->0,
        r.copy_files is None ==> merged(g, Some(r), e).copy_files == g.copy_files,
        r.worktree_location is Some ==> merged(g, Some(r), e).worktree_location
            == r.worktree_location->0,
{
}

/// Without a repository file and with no variable set, the global file is
/// what is in effect.
pub proof fn lemma_merge_global_only(g: GlobalConfigView)
    ensures
        merged(g, None, crate::config::no_env()) == g,
{
}

} // verus!
