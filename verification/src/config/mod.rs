//! Effective configuration. Priority: environment > per-repository file >
//! global file > defaults.
use vstd::prelude::*;

pub mod interactive;
pub mod merge;
pub mod migration;
pub mod schema;

use crate::config::schema::{string_views, GlobalConfig, GlobalConfigView, RepoConfig};
use crate::paths::{join, path_join};
use crate::text::{chars_eq, chars_of, has_prefix, lines, next_index, next_index_exec, opt_view, slice_vec, split_lines, starts_with, string_of, trim, trim_chars, views};

verus! {

/// The configuration in effect.
pub struct Config {
    /// Command name in user-facing messages (default `wt`).
    pub command_name: String,
    /// Worktree folder name (`None`: the layout's default).
    pub worktree_folder: Option<String>,
    /// Bare repository directory name (`None`: `.git`).
    pub bare_dir: Option<String>,
    /// Check for updates (default on).
    pub auto_update: bool,
    /// Go to new worktrees without asking (default off).
    pub auto_navigate: bool,
    /// Prefix of the branch of a new worktree (default empty).
    pub branch_prefix: String,
    /// Files copied into new worktrees (default none).
    pub copy_files: Vec<String>,
    /// `inside` or `outside` the repository (default `inside`).
    pub worktree_location: String,
}

impl View for Config {
    type V = GlobalConfigView;

    open spec fn view(&self) -> GlobalConfigView {
        GlobalConfigView {
            command_name: self.command_name@,
            worktree_folder: opt_view(self.worktree_folder),
            bare_dir: opt_view(self.bare_dir),
            auto_update: self.auto_update,
            auto_navigate: self.auto_navigate,
            branch_prefix: self.branch_prefix@,
            copy_files: string_views(self.copy_files@),
            worktree_location: self.worktree_location@,
        }
    }
}

impl Default for Config {
    fn default() -> (r: Self)
        ensures
            r@ == schema::default_global(),
    {
        let r = Config {
            command_name: "wt".to_string(),
            worktree_folder: None,
            bare_dir: None,
            auto_update: true,
            auto_navigate: false,
            branch_prefix: String::new(),
            copy_files: Vec::new(),
            worktree_location: "inside".to_string(),
        };
        assert(string_views(r.copy_files@) =~= Seq::<Seq<char>>::empty());
        r
    }
}

/// The configuration variables of the environment, each when it is set:
/// `WT_RENAME`, `WT_WORKTREE_FOLDER`, `WT_BARE_DIR`, `WT_AUTO_UPDATE`,
/// `WT_AUTO_NAVIGATE`, `WT_BRANCH_PREFIX`.
pub struct EnvOverrides {
    pub rename: Option<String>,
    pub worktree_folder: Option<String>,
    pub bare_dir: Option<String>,
    pub auto_update: Option<String>,
    pub auto_navigate: Option<String>,
    pub branch_prefix: Option<String>,
}

pub struct EnvOverridesView {
    pub rename: Option<Seq<char>>,
    pub worktree_folder: Option<Seq<char>>,
    pub bare_dir: Option<Seq<char>>,
    pub auto_update: Option<Seq<char>>,
    pub auto_navigate: Option<Seq<char>>,
    pub branch_prefix: Option<Seq<char>>,
}

impl View for EnvOverrides {
    type V = EnvOverridesView;

    open spec fn view(&self) -> EnvOverridesView {
        EnvOverridesView {
            rename: opt_view(self.rename),
            worktree_folder: opt_view(self.worktree_folder),
            bare_dir: opt_view(self.bare_dir),
            auto_update: opt_view(self.auto_update),
            auto_navigate: opt_view(self.auto_navigate),
            branch_prefix: opt_view(self.branch_prefix),
        }
    }
}

impl EnvOverrides {
    /// No variable set.
    pub fn none() -> (r: Self)
        ensures
            r@ == no_env(),
    {
        EnvOverrides {
            rename: None,
            worktree_folder: None,
            bare_dir: None,
            auto_update: None,
            auto_navigate: None,
            branch_prefix: None,
        }
    }
}

pub open spec fn no_env() -> EnvOverridesView {
    EnvOverridesView {
        rename: None,
        worktree_folder: None,
        bare_dir: None,
        auto_update: None,
        auto_navigate: None,
        branch_prefix: None,
    }
}

/// The configuration after the environment's overrides. An empty
/// `WT_WORKTREE_FOLDER` still sets the folder (to the empty name);
/// `WT_AUTO_UPDATE` turns updates off only with `false`, and
/// `WT_AUTO_NAVIGATE` turns navigation on only with `true`.
pub open spec fn with_env(c: GlobalConfigView, e: EnvOverridesView) -> GlobalConfigView {
    GlobalConfigView {
        command_name: match e.rename {
            Some(v) => v,
            None => c.command_name,
        },
        worktree_folder: match e.worktree_folder {
            Some(v) => Some(v),
            None => c.worktree_folder,
        },
        bare_dir: match e.bare_dir {
            Some(v) => Some(v),
            None => c.bare_dir,
        },
        auto_update: match e.auto_update {
            Some(v) => v != "false"@,
            None => c.auto_update,
        },
        auto_navigate: match e.auto_navigate {
            Some(v) => v == "true"@,
            None => c.auto_navigate,
        },
        branch_prefix: match e.branch_prefix {
            Some(v) => v,
            None => c.branch_prefix,
        },
        ..c
    }
}

pub(crate) fn clone_opt_string(o: &Option<String>) -> (r: Option<String>)
    ensures
        opt_view(r) == opt_view(*o),
{
    match o {
        Some(s) => Some(s.clone()),
        None => None,
    }
}

// ------------------------------------------------------------------
// Legacy `key = value` text
// ------------------------------------------------------------------

/// What one line of legacy `key = value` text does: blank lines and `#`
/// comments do nothing; the key and value are split at the first `=` and
/// trimmed; unknown keys are ignored. `auto_update` is off only for
/// `false`, `auto_navigate` on only for `true`.
pub open spec fn apply_line(c: GlobalConfigView, line: Seq<char>) -> GlobalConfigView {
    let l = trim(line);
    let e = next_index(l, '=', 0);
    if l.len() == 0 || starts_with(l, "#"@) || e >= l.len() {
        c
    } else {
        let key = trim(l.subrange(0, e));
        let value = trim(l.subrange(e + 1, l.len() as int));
        if key == "command_name"@ {
            GlobalConfigView { command_name: value, ..c }
        } else if key == "worktree_folder"@ {
            GlobalConfigView { worktree_folder: Some(value), ..c }
        } else if key == "auto_update"@ {
            GlobalConfigView { auto_update: value != "false"@, ..c }
        } else if key == "auto_navigate"@ {
            GlobalConfigView { auto_navigate: value == "true"@, ..c }
        } else {
            c
        }
    }
}

pub open spec fn apply_lines(c: GlobalConfigView, ls: Seq<Seq<char>>) -> GlobalConfigView
    decreases ls.len(),
{
    if ls.len() == 0 {
        c
    } else {
        apply_line(apply_lines(c, ls.drop_last()), ls.last())
    }
}

/// The configuration that legacy text gives, over the defaults.
pub open spec fn parsed_legacy(s: Seq<char>) -> GlobalConfigView {
    apply_lines(schema::default_global(), lines(s))
}

impl Config {
    /// Set the fields that the environment overrides.
    pub fn apply_env(&mut self, env: &EnvOverrides)
        ensures
            final(self)@ == with_env(old(self)@, env@),
    {
        match &env.rename {
            Some(v) => {
                self.command_name = v.clone();
            },
            None => {},
        }
        match &env.worktree_folder {
            Some(v) => {
                self.worktree_folder = Some(v.clone());
            },
            None => {},
        }
        match &env.bare_dir {
            Some(v) => {
                self.bare_dir = Some(v.clone());
            },
            None => {},
        }
        match &env.auto_update {
            Some(v) => {
                self.auto_update = !chars_eq(&chars_of(v.as_str()), &chars_of("false"));
            },
            None => {},
        }
        match &env.auto_navigate {
            Some(v) => {
                self.auto_navigate = chars_eq(&chars_of(v.as_str()), &chars_of("true"));
            },
            None => {},
        }
        match &env.branch_prefix {
            Some(v) => {
                self.branch_prefix = v.clone();
            },
            None => {},
        }
    }

    fn apply_line(&mut self, line: &Vec<char>)
        ensures
            final(self)@ == apply_line(old(self)@, line@),
    {
        let l = trim_chars(line);
        let e = next_index_exec(&l, '=', 0);
        if l.len() == 0 || has_prefix(&l, &chars_of("#")) || e >= l.len() {
            return;
        }
        let key = trim_chars(&slice_vec(&l, 0, e));
        let value = trim_chars(&slice_vec(&l, e + 1, l.len()));
        if chars_eq(&key, &chars_of("command_name")) {
            self.command_name = string_of(&value);
        } else if chars_eq(&key, &chars_of("worktree_folder")) {
            self.worktree_folder = Some(string_of(&value));
        } else if chars_eq(&key, &chars_of("auto_update")) {
            self.auto_update = !chars_eq(&value, &chars_of("false"));
        } else if chars_eq(&key, &chars_of("auto_navigate")) {
            self.auto_navigate = chars_eq(&value, &chars_of("true"));
        }
    }

    /// Apply legacy `key = value` text to this configuration, line by line.
    pub fn apply_str(&mut self, content: &str)
        ensures
            final(self)@ == apply_lines(old(self)@, lines(content@)),
    {
        let text = chars_of(content);
        let ls = split_lines(&text);
        let ghost all = views(ls@);
        let ghost start = self@;
        let mut i: usize = 0;
        assert(all.take(0) =~= Seq::<Seq<char>>::empty());
        while i < ls.len()
            invariant
                i <= ls.len(),
                all == views(ls@),
                all == lines(content@),
                self@ == apply_lines(start, all.take(i as int)),
            decreases ls.len() - i,
        {
            proof {
                assert(all.take(i + 1).drop_last() =~= all.take(i as int));
                assert(all.take(i + 1).last() == ls@[i as int]@);
            }
            self.apply_line(&ls[i]);
            i = i + 1;
        }
        assert(all.take(i as int) =~= all);
    }

    /// The configuration that legacy `key = value` text gives over the
    /// defaults; the environment is not consulted.
    pub fn parse(content: &str) -> (r: Self)
        ensures
            r@ == parsed_legacy(content@),
    {
        let mut c = Config::default();
        c.apply_str(content);
        c
    }

    /// The configuration from the global file's contents, with the
    /// environment's overrides.
    pub fn load(global: &GlobalConfig, env: &EnvOverrides) -> (r: Self)
        ensures
            r@ == merge::merged(global@, None, env@),
    {
        merge::merge(global, None, env)
    }

    /// The configuration with a repository's overrides: global file, then
    /// the repository's file (if it has one), then the environment.
    pub fn with_repo(&self, global: &GlobalConfig, repo: Option<&RepoConfig>, env: &EnvOverrides) -> (r: Self)
        ensures
            r@ == merge::merged(
                global@,
                match repo {
                    Some(x) => Some(x@),
                    None => None,
                },
                env@,
            ),
    {
        merge::merge(global, repo, env)
    }
}

/// The per-repository configuration file: `<project_dir>/lazywt.json`.
pub fn repo_config_path(project_dir: &str) -> (r: String)
    ensures
        r@ == path_join(project_dir@, "lazywt.json"@),
{
    join(project_dir, "lazywt.json")
}

/// The global configuration file under a configuration directory:
/// `<dir>/lazywt/config.json`.
pub fn global_config_path_in(config_dir: &str) -> (r: String)
    ensures
        r@ == path_join(path_join(config_dir@, "lazywt"@), "config.json"@),
{
    join(join(config_dir, "lazywt").as_str(), "config.json")
}

/// The platform's configuration directory (`dirs::config_dir`), as text;
/// `None` when there is none, or when its name is not Unicode text (the
/// library's paths are text, and a lossy copy would name another
/// directory). Nothing is stated of it: it comes from the environment and
/// the platform.
#[verifier::external_body]
pub(crate) fn platform_config_dir() -> Option<String> {
    match dirs::config_dir() {
        Some(d) => d.into_os_string().into_string().ok(),
        None => None,
    }
}

/// The global configuration file, `lazywt/config.json` under the platform's
/// configuration directory; `None` when the platform has none (or one that
/// is not Unicode text).
pub fn global_config_path() -> (r: Option<String>)
    ensures
        r matches Some(p) ==> exists|d: Seq<char>| p@ == #[trigger] path_join(path_join(d, "lazywt"@), "config.json"@),
{
    match platform_config_dir() {
        Some(d) => Some(global_config_path_in(d.as_str())),
        None => None,
    }
}

} // verus!
