//! The stored configuration: a global file whose fields all have defaults,
//! and a per-repository file whose fields override when present.
use vstd::prelude::*;

use crate::text::opt_view;

verus! {

/// Global configuration; every field has a default.
#[derive(Debug, Clone)]
pub struct GlobalConfig {
    pub command_name: String,
    pub worktree_folder: Option<String>,
    /// Bare repository directory name (`None`: `.git`).
    pub bare_dir: Option<String>,
    pub auto_update: bool,
    pub auto_navigate: bool,
    pub branch_prefix: String,
    pub copy_files: Vec<String>,
    pub worktree_location: String,
}

pub struct GlobalConfigView {
    pub command_name: Seq<char>,
    pub worktree_folder: Option<Seq<char>>,
    pub bare_dir: Option<Seq<char>>,
    pub auto_update: bool,
    pub auto_navigate: bool,
    pub branch_prefix: Seq<char>,
    pub copy_files: Seq<Seq<char>>,
    pub worktree_location: Seq<char>,
}

pub open spec fn string_views(v: Seq<String>) -> Seq<Seq<char>> {
    v.map_values(|s: String| s@)
}

impl View for GlobalConfig {
    type V = GlobalConfigView;

    open spec fn view(&self) -> GlobalConfigView {
        GlobalConfigView {
            command_name: self.command_name@,
            worktree_folder: opt_view(self.worktree_folder),
            bare_dir: opt_view(self.bare_dir),
            auto_update: self.auto_update,
            auto_navigate: self.auto_navigate,
            branch_prefix: self.branch_prefix@,
            copy_files: string_views(self.copy_files@),
            worktree_location: self.worktree_location@,
        }
    }
}

pub open spec fn default_global() -> GlobalConfigView {
    GlobalConfigView {
        command_name: "wt"@,
        worktree_folder: None,
        bare_dir: None,
        auto_update: true,
        auto_navigate: false,
        branch_prefix: Seq::empty(),
        copy_files: Seq::empty(),
        worktree_location: "inside"@,
    }
}

impl Default for GlobalConfig {
    fn default() -> (r: Self)
        ensures
            r@ == default_global(),
    {
        let r = GlobalConfig {
            command_name: "wt".to_string(),
            worktree_folder: None,
            bare_dir: None,
            auto_update: true,
            auto_navigate: false,
            branch_prefix: String::new(),
            copy_files: Vec::new(),
            worktree_location: "inside".to_string(),
        };
        assert(string_views(r.copy_files@) =~= Seq::<Seq<char>>::empty());
        r
    }
}

/// Per-repository configuration: `None` inherits, `Some` overrides.
#[derive(Debug, Clone)]
pub struct RepoConfig {
    pub command_name: Option<String>,
    pub worktree_folder: Option<String>,
    pub bare_dir: Option<String>,
    pub auto_update: Option<bool>,
    pub auto_navigate: Option<bool>,
    pub branch_prefix: Option<String>,
    pub copy_files: Option<Vec<String>>,
    pub worktree_location: Option<String>,
}

pub struct RepoConfigView {
    pub command_name: Option<Seq<char>>,
    pub worktree_folder: Option<Seq<char>>,
    pub bare_dir: Option<Seq<char>>,
    pub auto_update: Option<bool>,
    pub auto_navigate: Option<bool>,
    pub branch_prefix: Option<Seq<char>>,
    pub copy_files: Option<Seq<Seq<char>>>,
    pub worktree_location: Option<Seq<char>>,
}

impl View for RepoConfig {
    type V = RepoConfigView;

    open spec fn view(&self) -> RepoConfigView {
        RepoConfigView {
            command_name: opt_view(self.command_name),
            worktree_folder: opt_view(self.worktree_folder),
            bare_dir: opt_view(self.bare_dir),
            auto_update: self.auto_update,
            auto_navigate: self.auto_navigate,
            branch_prefix: opt_view(self.branch_prefix),
            copy_files: match self.copy_files {
                Some(v) => Some(string_views(v@)),
                None => None,
            },
            worktree_location: opt_view(self.worktree_location),
        }
    }
}

impl Default for RepoConfig {
    fn default() -> (r: Self)
        ensures
            r@ == (RepoConfigView {
                command_name: None,
                worktree_folder: None,
                bare_dir: None,
                auto_update: None,
                auto_navigate: None,
                branch_prefix: None,
                copy_files: None,
                worktree_location: None,
            }),
    {
        RepoConfig {
            command_name: None,
            worktree_folder: None,
            bare_dir: None,
            auto_update: None,
            auto_navigate: None,
            branch_prefix: None,
            copy_files: None,
            worktree_location: None,
        }
    }
}

/// A copy of a list of strings.
pub fn clone_strings(v: &Vec<String>) -> (r: Vec<String>)
    ensures
        string_views(r@) == string_views(v@),
{
    let mut out: Vec<String> = Vec::new();
    let mut i: usize = 0;
    while i < v.len()
        invariant
            i <= v.len(),
            string_views(out@) == string_views(v@).take(i as int),
        decreases v.len() - i,
    {
        let ghost before = string_views(out@);
        out.push(v[i].clone());
        assert(string_views(out@) =~= before.push(v@[i as int]@));
        assert(string_views(v@).take(i + 1) =~= string_views(v@).take(i as int).push(v@[i as int]@));
        i = i + 1;
    }
    assert(string_views(v@).take(v.len() as int) =~= string_views(v@));
    out
}

} // verus!
