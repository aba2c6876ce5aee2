//! Repository layouts, and where a project's worktrees live.
use vstd::prelude::*;

use crate::config::Config;
use crate::git::{args3, make_call, output_of, reply_views, GitCallView, GitMode, GitReply, GitReplyView, GitStep, StepSpec};
use crate::paths::{file_name, join, parent, path_file_name, path_join, path_parent};
use crate::text::{chars_eq, chars_of, concat, opt_view, string_of, trim, trim_chars};

verus! {

#[derive(Clone, Copy, Debug, PartialEq, Eq, Structural)]
pub enum LayoutType {
    /// A bare repository directory with worktrees under `trees/` in it.
    Classic,
    /// A hidden bare repository (`.git`) with worktrees beside it.
    Modern,
    /// An ordinary repository with a `.git` directory.
    NonBare,
}

/// Where a project's parts are.
#[derive(Debug, Clone)]
pub struct ProjectContext {
    /// The bare git directory (the repository root when not bare).
    pub project_dir: String,
    /// The root of the project.
    pub project_root: String,
    pub layout_type: LayoutType,
    /// Last component of the project root.
    pub project_name: String,
    /// The worktree folder in effect.
    pub worktree_folder: String,
    /// The directory where worktrees are created.
    pub worktree_parent: String,
}

pub struct ProjectContextView {
    pub project_dir: Seq<char>,
    pub project_root: Seq<char>,
    pub layout_type: LayoutType,
    pub project_name: Seq<char>,
    pub worktree_folder: Seq<char>,
    pub worktree_parent: Seq<char>,
}

impl View for ProjectContext {
    type V = ProjectContextView;

    open spec fn view(&self) -> ProjectContextView {
        ProjectContextView {
            project_dir: self.project_dir@,
            project_root: self.project_root@,
            layout_type: self.layout_type,
            project_name: self.project_name@,
            worktree_folder: self.worktree_folder@,
            worktree_parent: self.worktree_parent@,
        }
    }
}

/// The project context of a layout, for the configured worktree folder and
/// location. The root of a modern layout is the parent of its git
/// directory; the others are rooted at the given directory. The folder is
/// the configured one, else `trees` (classic), empty (modern), `.wts`
/// (non-bare inside) or empty (non-bare outside). A non-bare repository
/// with worktrees outside and no folder configured keeps them in the
/// sibling `<name>-wts`.
pub open spec fn context_of(
    project_dir: Seq<char>,
    layout: LayoutType,
    worktree_folder: Option<Seq<char>>,
    worktree_location: Seq<char>,
) -> ProjectContextView {
    let root = match layout {
        LayoutType::Modern => match path_parent(project_dir) {
            Some(p) => p,
            None => project_dir,
        },
        _ => project_dir,
    };
    let name = match path_file_name(root) {
        Some(n) => n,
        None => "unknown"@,
    };
    let folder = match worktree_folder {
        Some(f) => f,
        None => match layout {
            LayoutType::Classic => "trees"@,
            LayoutType::Modern => Seq::empty(),
            LayoutType::NonBare => if worktree_location == "outside"@ {
                Seq::empty()
            } else {
                ".wts"@
            },
        },
    };
    let wt_parent = if layout == LayoutType::NonBare && worktree_location == "outside"@
        && worktree_folder is None {
        match path_parent(root) {
            Some(p) => path_join(p, name + "-wts"@),
            None => path_join(root, ".wts"@),
        }
    } else if folder.len() == 0 {
        root
    } else {
        path_join(root, folder)
    };
    ProjectContextView {
        project_dir,
        project_root: root,
        layout_type: layout,
        project_name: name,
        worktree_folder: folder,
        worktree_parent: wt_parent,
    }
}

/// Build the project context for a known layout.
pub fn build_context(project_dir: &str, layout: LayoutType, config: &Config) -> (r: ProjectContext)
    ensures
        r@ == context_of(project_dir@, layout, opt_view(config.worktree_folder), config.worktree_location@),
{
    let project_root: String = match layout {
        LayoutType::Modern => match parent(project_dir) {
            Some(p) => p,
            None => project_dir.to_string(),
        },
        _ => project_dir.to_string(),
    };
    let project_name: String = match file_name(project_root.as_str()) {
        Some(n) => n,
        None => "unknown".to_string(),
    };
    let outside = chars_eq(&chars_of(config.worktree_location.as_str()), &chars_of("outside"));
    let worktree_folder: String = match &config.worktree_folder {
        Some(f) => f.clone(),
        None => match layout {
            LayoutType::Classic => "trees".to_string(),
            LayoutType::Modern => String::new(),
            LayoutType::NonBare => if outside {
                String::new()
            } else {
                ".wts".to_string()
            },
        },
    };
    let worktree_parent: String = if layout == LayoutType::NonBare && outside && config.worktree_folder.is_none() {
        match parent(project_root.as_str()) {
            Some(p) => {
                let sibling = string_of(&concat(&chars_of(project_name.as_str()), &chars_of("-wts")));
                join(p.as_str(), sibling.as_str())
            },
            None => join(project_root.as_str(), ".wts"),
        }
    } else if worktree_folder.as_str().is_empty() {
        project_root.clone()
    } else {
        join(project_root.as_str(), worktree_folder.as_str())
    };
    ProjectContext {
        project_dir: project_dir.to_string(),
        project_root,
        layout_type: layout,
        project_name,
        worktree_folder,
        worktree_parent,
    }
}

pub open spec fn config_get_call(dir: Seq<char>, key: Seq<char>) -> GitCallView {
    GitCallView { dir, args: seq!["config"@, "--get"@, key], mode: GitMode::Output }
}

pub open spec fn is_bare_call(dir: Seq<char>) -> GitCallView {
    GitCallView { dir, args: seq!["rev-parse"@, "--is-bare-repository"@], mode: GitMode::Output }
}

/// A config value as `get_config` reads it from a reply.
pub open spec fn config_value(r: GitReplyView) -> Option<Seq<char>> {
    match output_of(r) {
        Ok(out) => Some(trim(out)),
        Err(_) => None,
    }
}

/// The layout that `wt.layout` names, if it names one.
pub open spec fn named_layout(v: Option<Seq<char>>) -> Option<LayoutType> {
    match v {
        Some(s) => if s == "classic"@ {
            Some(LayoutType::Classic)
        } else if s == "modern"@ {
            Some(LayoutType::Modern)
        } else if s == "nonbare"@ {
            Some(LayoutType::NonBare)
        } else {
            None
        },
        None => None,
    }
}

/// The plan of `detect_layout`, up to the layout it settles on: the
/// `wt.layout` setting; else a directory named as `wt.baredir` says, or
/// named `.git`, is modern; else a bare repository is classic and any other
/// is non-bare.
pub open spec fn layout_plan(dir: Seq<char>, rs: Seq<GitReplyView>) -> StepSpec<LayoutType> {
    let name = match path_file_name(dir) {
        Some(n) => n,
        None => Seq::empty(),
    };
    if rs.len() == 0 {
        StepSpec::Run(config_get_call(dir, "wt.layout"@))
    } else if named_layout(config_value(rs[0])) is Some {
        StepSpec::Done(named_layout(config_value(rs[0]))->0)
    } else if rs.len() == 1 {
        StepSpec::Run(config_get_call(dir, "wt.baredir"@))
    } else if config_value(rs[1]) == Some(name) || name == ".git"@ {
        StepSpec::Done(LayoutType::Modern)
    } else if rs.len() == 2 {
        StepSpec::Run(is_bare_call(dir))
    } else if output_of(rs[2]) is Ok && trim(output_of(rs[2])->Ok_0) == "true"@ {
        StepSpec::Done(LayoutType::Classic)
    } else {
        StepSpec::Done(LayoutType::NonBare)
    }
}

fn config_value_exec(r: &GitReply) -> (v: Option<Vec<char>>)
    ensures
        crate::text::opt_chars(v) == config_value(r@),
{
    match r {
        GitReply::Success(out) => Some(trim_chars(&chars_of(out.as_str()))),
        _ => None,
    }
}

fn named_layout_exec(v: &Option<Vec<char>>) -> (r: Option<LayoutType>)
    ensures
        r == named_layout(crate::text::opt_chars(*v)),
{
    match v {
        Some(s) => if chars_eq(s, &chars_of("classic")) {
            Some(LayoutType::Classic)
        } else if chars_eq(s, &chars_of("modern")) {
            Some(LayoutType::Modern)
        } else if chars_eq(s, &chars_of("nonbare")) {
            Some(LayoutType::NonBare)
        } else {
            None
        },
        None => None,
    }
}

/// Detect the layout of the repository at `project_dir` and build its
/// context.
pub fn detect_layout(project_dir: &str, config: &Config, replies: &Vec<GitReply>) -> (r: GitStep<ProjectContext>)
    ensures
        match (r, layout_plan(project_dir@, reply_views(replies@))) {
            (GitStep::Run(c), StepSpec::Run(cv)) => c@ == cv,
            (GitStep::Done(ctx), StepSpec::Done(l)) => ctx@ == context_of(
                project_dir@,
                l,
                opt_view(config.worktree_folder),
                config.worktree_location@,
            ),
            _ => false,
        },
{
    let ghost rs = reply_views(replies@);
    if replies.len() == 0 {
        return GitStep::Run(make_call(project_dir, args3("config", "--get", "wt.layout"), GitMode::Output));
    }
    assert(rs[0] == replies@[0]@);
    let setting = config_value_exec(&replies[0]);
    match named_layout_exec(&setting) {
        Some(l) => {
            return GitStep::Done(build_context(project_dir, l, config));
        },
        None => {},
    }
    let name: Vec<char> = match file_name(project_dir) {
        Some(n) => chars_of(n.as_str()),
        None => Vec::new(),
    };
    if replies.len() == 1 {
        return GitStep::Run(make_call(project_dir, args3("config", "--get", "wt.baredir"), GitMode::Output));
    }
    assert(rs[1] == replies@[1]@);
    let bare_dir = config_value_exec(&replies[1]);
    let named_bare = match &bare_dir {
        Some(b) => chars_eq(b, &name),
        None => false,
    };
    if named_bare || chars_eq(&name, &chars_of(".git")) {
        return GitStep::Done(build_context(project_dir, LayoutType::Modern, config));
    }
    if replies.len() == 2 {
        return GitStep::Run(make_call(project_dir, crate::git::args2("rev-parse", "--is-bare-repository"), GitMode::Output));
    }
    assert(rs[2] == replies@[2]@);
    let is_bare = match &replies[2] {
        GitReply::Success(out) => chars_eq(&trim_chars(&chars_of(out.as_str())), &chars_of("true")),
        _ => false,
    };
    if is_bare {
        GitStep::Done(build_context(project_dir, LayoutType::Classic, config))
    } else {
        GitStep::Done(build_context(project_dir, LayoutType::NonBare, config))
    }
}

/// With no worktree folder configured, the worktrees of a modern layout
/// live beside the bare repository, in its parent directory, and those of a
/// classic layout under `trees` inside the bare repository.
pub proof fn lemma_default_worktree_parent(project_dir: Seq<char>, location: Seq<char>)
    ensures
        path_parent(project_dir) matches Some(p) ==> context_of(project_dir, LayoutType::Modern, None, location).worktree_parent == p,
        context_of(project_dir, LayoutType::Classic, None, location).worktree_parent == path_join(project_dir, "trees"@),
{
    reveal_strlit("trees");
}

} // verus!
