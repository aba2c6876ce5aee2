//! What the interactive editor makes of the answers it was given: the new
//! global configuration, and the per-repository overrides that differ from
//! the global configuration.
use vstd::prelude::*;

use crate::config::schema::{clone_strings, string_views, GlobalConfig, GlobalConfigView, RepoConfig, RepoConfigView};
use crate::config::clone_opt_string;
use crate::text::{chars_eq, chars_of, opt_view, split, split_chars, string_of, trim, trim_chars, views};

verus! {

/// The answers to the global editor's questions.
pub struct GlobalAnswers {
    pub command_name: String,
    /// Empty for the layout's default.
    pub worktree_folder: String,
    pub auto_update: bool,
    pub auto_navigate: bool,
    pub branch_prefix: String,
}

/// A folder answer: empty means none.
pub open spec fn folder_answer(s: Seq<char>) -> Option<Seq<char>> {
    if s.len() == 0 {
        None
    } else {
        Some(s)
    }
}

/// The edited global configuration: the answers, with the bare directory,
/// the files to copy and the worktree location kept as they were.
pub open spec fn edited_global(current: GlobalConfigView, command_name: Seq<char>, folder: Seq<char>, auto_update: bool, auto_navigate: bool, branch_prefix: Seq<char>) -> GlobalConfigView {
    GlobalConfigView {
        command_name,
        worktree_folder: folder_answer(folder),
        bare_dir: current.bare_dir,
        auto_update,
        auto_navigate,
        branch_prefix,
        copy_files: current.copy_files,
        worktree_location: current.worktree_location,
    }
}

fn folder_of(s: &String) -> (r: Option<String>)
    ensures
        opt_view(r) == folder_answer(s@),
{
    if chars_of(s.as_str()).len() == 0 {
        None
    } else {
        Some(s.clone())
    }
}

/// The global configuration after editing.
pub fn global_from_answers(current: &GlobalConfig, a: &GlobalAnswers) -> (r: GlobalConfig)
    ensures
        r@ == edited_global(current@, a.command_name@, a.worktree_folder@, a.auto_update, a.auto_navigate, a.branch_prefix@),
{
    GlobalConfig {
        command_name: a.command_name.clone(),
        worktree_folder: folder_of(&a.worktree_folder),
        bare_dir: clone_opt_string(&current.bare_dir),
        auto_update: a.auto_update,
        auto_navigate: a.auto_navigate,
        branch_prefix: a.branch_prefix.clone(),
        copy_files: clone_strings(&current.copy_files),
        worktree_location: current.worktree_location.clone(),
    }
}

/// The trimmed pieces that are not empty.
pub open spec fn nonempty_trimmed(ps: Seq<Seq<char>>) -> Seq<Seq<char>>
    decreases ps.len(),
{
    if ps.len() == 0 {
        seq![]
    } else {
        let rest = nonempty_trimmed(ps.drop_last());
        let t = trim(ps.last());
        if t.len() > 0 {
            rest.push(t)
        } else {
            rest
        }
    }
}

/// The files listed in a comma-separated answer: each piece trimmed, the
/// empty ones dropped.
pub open spec fn listed_files(input: Seq<char>) -> Seq<Seq<char>> {
    nonempty_trimmed(split(input, ','))
}

/// The files of a comma-separated answer.
pub fn parse_copy_files(input: &str) -> (r: Vec<String>)
    ensures
        string_views(r@) == listed_files(input@),
{
    let pieces = split_chars(&chars_of(input), ',');
    let ghost ps = views(pieces@);
    let mut out: Vec<String> = Vec::new();
    let mut i: usize = 0;
    assert(ps.take(0) =~= Seq::<Seq<char>>::empty());
    while i < pieces.len()
        invariant
            i <= pieces.len(),
            ps == views(pieces@),
            ps == split(input@, ','),
            string_views(out@) == nonempty_trimmed(ps.take(i as int)),
        decreases pieces.len() - i,
    {
        proof {
            assert(ps.take(i + 1).drop_last() =~= ps.take(i as int));
            assert(ps.take(i + 1).last() == pieces@[i as int]@);
        }
        let t = trim_chars(&pieces[i]);
        if t.len() > 0 {
            let ghost before = string_views(out@);
            out.push(string_of(&t));
            assert(string_views(out@) =~= before.push(t@));
        }
        i = i + 1;
    }
    assert(ps.take(i as int) =~= ps);
    out
}

/// The worktree locations the editor offers, in order.
pub open spec fn location_option(i: int) -> Seq<char> {
    if i == 0 {
        "inside"@
    } else {
        "outside"@
    }
}

/// The option first selected for a location: its place among the options,
/// else the first.
pub fn location_index(location: &str) -> (r: usize)
    ensures
        r == (if location@ == "outside"@ {
            1usize
        } else {
            0usize
        }),
        r < 2,
{
    let l = chars_of(location);
    proof {
        reveal_strlit("inside");
        reveal_strlit("outside");
        assert("inside"@.len() != "outside"@.len());
    }
    if chars_eq(&l, &chars_of("inside")) {
        0
    } else if chars_eq(&l, &chars_of("outside")) {
        1
    } else {
        0
    }
}

/// The answers to the per-repository editor's questions.
pub struct RepoAnswers {
    pub branch_prefix: String,
    /// Comma-separated.
    pub copy_files: String,
    /// The place of the chosen location among the options.
    pub location_index: usize,
    pub command_name: String,
    /// Empty for the layout's default.
    pub worktree_folder: String,
    pub auto_update: bool,
    pub auto_navigate: bool,
}

/// An override where the answer differs from the global value.
pub open spec fn differing<T>(answer: T, global: T) -> Option<T> {
    if answer != global {
        Some(answer)
    } else {
        None
    }
}

/// The per-repository configuration after editing: each answer that
/// differs from the global configuration is an override, the rest inherit;
/// a worktree folder equal to the global one stays an override when the
/// repository had one. No bare directory is recorded.
pub open spec fn edited_repo(
    g: GlobalConfigView,
    existing_folder: bool,
    branch_prefix: Seq<char>,
    copy_files: Seq<char>,
    location_index: int,
    command_name: Seq<char>,
    folder: Seq<char>,
    auto_update: bool,
    auto_navigate: bool,
) -> RepoConfigView {
    let wf = folder_answer(folder);
    RepoConfigView {
        command_name: differing(command_name, g.command_name),
        worktree_folder: if wf != g.worktree_folder || existing_folder {
            wf
        } else {
            None
        },
        bare_dir: None,
        auto_update: differing(auto_update, g.auto_update),
        auto_navigate: differing(auto_navigate, g.auto_navigate),
        branch_prefix: differing(branch_prefix, g.branch_prefix),
        copy_files: differing(listed_files(copy_files), g.copy_files),
        worktree_location: differing(location_option(location_index), g.worktree_location),
    }
}

fn same(a: &String, b: &String) -> (r: bool)
    ensures
        r == (a@ == b@),
{
    chars_eq(&chars_of(a.as_str()), &chars_of(b.as_str()))
}

fn same_opt(a: &Option<String>, b: &Option<String>) -> (r: bool)
    ensures
        r == (opt_view(*a) == opt_view(*b)),
{
    match (a, b) {
        (Some(x), Some(y)) => same(x, y),
        (None, None) => true,
        _ => false,
    }
}

fn same_list(a: &Vec<String>, b: &Vec<String>) -> (r: bool)
    ensures
        r == (string_views(a@) == string_views(b@)),
{
    if a.len() != b.len() {
        assert(string_views(a@).len() != string_views(b@).len());
        return false;
    }
    let mut i: usize = 0;
    while i < a.len()
        invariant
            i <= a.len(),
            a.len() == b.len(),
            forall|k: int| 0 <= k < i ==> a@[k]@ == b@[k]@,
        decreases a.len() - i,
    {
        if !same(&a[i], &b[i]) {
            assert(string_views(a@)[i as int] != string_views(b@)[i as int]);
            return false;
        }
        i = i + 1;
    }
    assert(string_views(a@) =~= string_views(b@));
    true
}

/// The per-repository configuration after editing, against the global
/// configuration and the repository's previous overrides.
pub fn repo_from_answers(global: &GlobalConfig, existing: Option<&RepoConfig>, a: &RepoAnswers) -> (r: RepoConfig)
    requires
        a.location_index < 2,
    ensures
        r@ == edited_repo(
            global@,
            existing matches Some(e) && e.worktree_folder is Some,
            a.branch_prefix@,
            a.copy_files@,
            a.location_index as int,
            a.command_name@,
            a.worktree_folder@,
            a.auto_update,
            a.auto_navigate,
        ),
{
    let command_name = if !same(&a.command_name, &global.command_name) {
        Some(a.command_name.clone())
    } else {
        None
    };
    let wf = folder_of(&a.worktree_folder);
    let had_folder = match existing {
        Some(e) => e.worktree_folder.is_some(),
        None => false,
    };
    let worktree_folder = if !same_opt(&wf, &global.worktree_folder) || had_folder {
        wf
    } else {
        None
    };
    let files = parse_copy_files(a.copy_files.as_str());
    let copy_files = if !same_list(&files, &global.copy_files) {
        Some(files)
    } else {
        None
    };
    let location = if a.location_index == 0 {
        "inside".to_string()
    } else {
        "outside".to_string()
    };
    let worktree_location = if !same(&location, &global.worktree_location) {
        Some(location)
    } else {
        None
    };
    let branch_prefix = if !same(&a.branch_prefix, &global.branch_prefix) {
        Some(a.branch_prefix.clone())
    } else {
        None
    };
    RepoConfig {
        command_name,
        worktree_folder,
        bare_dir: None,
        auto_update: if a.auto_update != global.auto_update {
            Some(a.auto_update)
        } else {
            None
        },
        auto_navigate: if a.auto_navigate != global.auto_navigate {
            Some(a.auto_navigate)
        } else {
            None
        },
        branch_prefix,
        copy_files,
        worktree_location,
    }
}

} // verus!
