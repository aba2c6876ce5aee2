//! Adding a worktree: its name and branch, the main worktree that must be
//! there first, and the steps that create it.
use vstd::prelude::*;

use crate::commands::effects::{create_dir_all, done_result_of, drive, effect_view, fs, fs_answer_of, git, navigate, next_effect, outcome_views, reply_of, say, Effect, EffectView, Level, Outcome, Prog, Runner};
use crate::commands::steps::{add_call, add_new_branch_call, default_plan, drive_branch_exists, drive_default_branch, exists_plan, git_or_fail, git_or_fail_exec, name_view, say_exec, succeeded, succeeded_exec, worktree_named, find_worktree_by_name, worktree_on, worktree_on_exec};
use crate::config::Config;
use crate::config::schema::string_views;
use crate::error::LazywtError;
use crate::git::branch::{set_upstream, set_upstream_call, show_ref_call};
use crate::git::config::{set_config, set_config_call};
use crate::git::operations::{FsQuery, FsQueryView, FsReply, FsReplyView};
use crate::git::worktree::{list_failed_message, parse_porcelain as parse_worktrees, porcelain_worktrees, worktree_list_call, worktree_views, Worktree, WorktreeView};
use crate::git::{args2, args3, args4, check_of, make_call, output_of, GitCallView, GitMode, GitReply, GitReplyView, GitStep};
use crate::config::schema::GlobalConfigView;
use crate::layout::{LayoutType, ProjectContext, ProjectContextView};
use crate::paths::{join, path_file_name, path_join};
use crate::text::{chars_eq, chars_of, concat, ends_with, has_suffix, join3, join_str, opt_view, string_of};

verus! {

/// A path with `\` separators turned into `/`, as glob patterns need.
pub open spec fn slashed(s: Seq<char>) -> Seq<char> {
    s.map_values(|c: char| if c == '\\' { '/' } else { c })
}

pub fn normalize_glob_path(path: &str) -> (r: String)
    ensures
        r@ == slashed(path@),
{
    let v = chars_of(path);
    let mut out: Vec<char> = Vec::new();
    let mut i: usize = 0;
    while i < v.len()
        invariant
            i <= v.len(),
            out@ == slashed(v@.take(i as int)),
        decreases v.len() - i,
    {
        let c = if v[i] == '\\' {
            '/'
        } else {
            v[i]
        };
        out.push(c);
        i = i + 1;
        assert(out@ =~= slashed(v@.take(i as int)));
    }
    assert(v@.take(v.len() as int) =~= v@);
    string_of(&out)
}

/// The branch of a new worktree: the explicit one when given; else the
/// worktree name behind the prefix, with a `/` between them unless the
/// prefix is empty or already ends with one.
pub open spec fn branch_name_for(name: Seq<char>, explicit: Option<Seq<char>>, prefix: Seq<char>) -> Seq<char> {
    match explicit {
        Some(b) => b,
        None => if prefix.len() == 0 {
            name
        } else if ends_with(prefix, "/"@) {
            prefix + name
        } else {
            prefix + "/"@ + name
        },
    }
}

pub fn resolve_branch_name(worktree_name: &str, explicit_branch: Option<&str>, branch_prefix: &str) -> (r: String)
    ensures
        r@ == branch_name_for(worktree_name@, match explicit_branch {
            Some(b) => Some(b@),
            None => None,
        }, branch_prefix@),
{
    match explicit_branch {
        Some(b) => {
            return b.to_string();
        },
        None => {},
    }
    let p = chars_of(branch_prefix);
    if p.len() == 0 {
        worktree_name.to_string()
    } else if has_suffix(&p, &chars_of("/")) {
        string_of(&concat(&p, &chars_of(worktree_name)))
    } else {
        string_of(&concat(&concat(&p, &chars_of("/")), &chars_of(worktree_name)))
    }
}

/// Names that no worktree may have.
pub open spec fn is_reserved(name: Seq<char>) -> bool {
    name == ".git"@ || name == ".bare"@ || name == ".."@
}

pub open spec fn has_separator(name: Seq<char>) -> bool {
    exists|i: int| 0 <= i < name.len() && (name[i] == '/' || name[i] == '\\')
}

/// Why a name is refused, if it is: reserved, holding a path separator, or
/// equal to the worktree folder's name.
pub open spec fn name_problem(name: Seq<char>, folder: Seq<char>) -> Option<Seq<char>> {
    if is_reserved(name) {
        Some("'"@ + name + "' is a reserved name"@)
    } else if has_separator(name) {
        Some("cannot contain path separators"@)
    } else if folder.len() > 0 && name == folder {
        Some("conflicts with worktree folder name '"@ + folder + "'"@)
    } else {
        None
    }
}

/// Check a new worktree's name.
pub fn validate_worktree_name(name: &str, worktree_folder: &str) -> (r: Result<(), LazywtError>)
    ensures
        match name_problem(name@, worktree_folder@) {
            Some(m) => r matches Err(LazywtError::InvalidName(s)) && s@ == m,
            None => r is Ok,
        },
{
    let n = chars_of(name);
    if chars_eq(&n, &chars_of(".git")) || chars_eq(&n, &chars_of(".bare")) || chars_eq(&n, &chars_of("..")) {
        let m = concat(&concat(&chars_of("'"), &n), &chars_of("' is a reserved name"));
        return Err(LazywtError::InvalidName(string_of(&m)));
    }
    let mut i: usize = 0;
    while i < n.len()
        invariant
            i <= n.len(),
            n@ == name@,
            !is_reserved(name@),
            forall|k: int| 0 <= k < i ==> n@[k] != '/' && n@[k] != '\\',
        decreases n.len() - i,
    {
        if n[i] == '/' || n[i] == '\\' {
            assert(has_separator(n@));
            return Err(LazywtError::InvalidName("cannot contain path separators".to_string()));
        }
        i = i + 1;
    }
    let f = chars_of(worktree_folder);
    if f.len() > 0 && chars_eq(&n, &f) {
        let m = concat(&concat(&chars_of("conflicts with worktree folder name '"), &f), &chars_of("'"));
        return Err(LazywtError::InvalidName(string_of(&m)));
    }
    Ok(())
}

/// A worktree made under a name that passes the check (and is neither
/// empty nor `.`), in any directory, has that name as its directory name; so
/// a listing that holds it lets the commands that look a worktree up by
/// name find one.
pub proof fn lemma_added_worktree_found(ws: Seq<WorktreeView>, parent: Seq<char>, name: Seq<char>, folder: Seq<char>)
    requires
        name_problem(name, folder) is None,
        name.len() > 0,
        name != "."@,
        exists|i: int| 0 <= i < ws.len() && !ws[i].is_bare && ws[i].path == path_join(parent, name),
    ensures
        path_file_name(path_join(parent, name)) == Some(name),
        worktree_named(ws, name) is Some,
    decreases ws.len(),
{
    assert forall|k: int| 0 <= k < name.len() implies name[k] != '/' by {
        if name[k] == '/' {
            assert(has_separator(name));
        }
    }
    crate::paths::lemma_file_name_of_join(parent, name);
    let i = choose|i: int| 0 <= i < ws.len() && !ws[i].is_bare && ws[i].path == path_join(parent, name);
    if !(!ws[0].is_bare && path_file_name(ws[0].path) == Some(name)) {
        assert(i > 0);
        assert(ws.drop_first()[i - 1] == ws[i]);
        lemma_added_worktree_found(ws.drop_first(), parent, name, folder);
    }
}

// ------------------------------------------------------------------
// The main worktree
// ------------------------------------------------------------------

pub open spec fn pull_call(dir: Seq<char>) -> GitCallView {
    GitCallView { dir, args: seq!["pull"@], mode: GitMode::Output }
}

pub open spec fn fetch_all_plain_call(dir: Seq<char>) -> GitCallView {
    GitCallView { dir, args: seq!["fetch"@, "--all"@], mode: GitMode::Output }
}

/// Pull in a worktree, then fetch in the repository (outcomes ignored).
pub open spec fn pull_and_fetch(path: Seq<char>, dir: Seq<char>, then: Prog) -> Prog {
    git(pull_call(path), |r: GitReplyView| git(fetch_all_plain_call(dir), |r2: GitReplyView| then))
}

/// The first worktree on one of the usual default branches, tried in the
/// order `main`, `master`, `develop`, `trunk`, with that branch.
pub open spec fn common_worktree(ws: Seq<WorktreeView>) -> Option<(Seq<char>, WorktreeView)> {
    match worktree_on(ws, "main"@) {
        Some(w) => Some(("main"@, w)),
        None => match worktree_on(ws, "master"@) {
            Some(w) => Some(("master"@, w)),
            None => match worktree_on(ws, "develop"@) {
                Some(w) => Some(("develop"@, w)),
                None => match worktree_on(ws, "trunk"@) {
                    Some(w) => Some(("trunk"@, w)),
                    None => None,
                },
            },
        },
    }
}

pub open spec fn no_default_branch_message() -> Seq<char> {
    "failed to detect default branch"@
}

/// Create the main worktree for branch `b` under `parent`, make it track
/// `origin`, pull in it and fetch.
pub open spec fn create_main(dir: Seq<char>, parent: Seq<char>, b: Seq<char>, then: Prog) -> Prog {
    let main = path_join(parent, b);
    create_dir_all(
        parent,
        git_or_fail(
            add_call(dir, main, b),
            git(
                set_upstream_call(main, b),
                |r: GitReplyView| say(
                    Level::Info,
                    "Initialized main worktree for branch '"@ + b + "'"@,
                    pull_and_fetch(main, dir, then),
                ),
            ),
        ),
    )
}

/// After the refspec is repaired and fetched, the default branch is asked
/// for again.
pub open spec fn retry_default(dir: Seq<char>, parent: Seq<char>, k: spec_fn(Seq<char>) -> Prog) -> spec_fn(
    Result<Option<Seq<char>>, Seq<char>>,
) -> Prog {
    |d: Result<Option<Seq<char>>, Seq<char>>| match d {
        Err(m) => Prog::Finish(Err(m)),
        Ok(None) => Prog::Finish(Err(no_default_branch_message())),
        Ok(Some(b)) => create_main(dir, parent, b, k(b)),
    }
}

/// With the default branch (if known) and the worktrees: a worktree on the
/// default branch, or else on a usual default branch, is updated and
/// names the branch; else the main worktree is created (when no default
/// branch is known, after repairing `origin`'s fetch refspec and asking
/// again).
pub open spec fn init_with(
    dir: Seq<char>,
    parent: Seq<char>,
    db: Option<Seq<char>>,
    ws: Seq<WorktreeView>,
    k: spec_fn(Seq<char>) -> Prog,
) -> Prog {
    let existing = match db {
        Some(b) => worktree_on(ws, b),
        None => None,
    };
    match existing {
        Some(w) => pull_and_fetch(w.path, dir, k(db->Some_0)),
        None => match common_worktree(ws) {
            Some((c, w)) => pull_and_fetch(w.path, dir, k(c)),
            None => match db {
                Some(b) => create_main(dir, parent, b, k(b)),
                None => git(
                    set_config_call(dir, "remote.origin.fetch"@, "+refs/heads/*:refs/remotes/origin/*"@),
                    |r: GitReplyView| git(
                        fetch_all_plain_call(dir),
                        |r2: GitReplyView| drive(default_plan(dir), seq![], 4, retry_default(dir, parent, k)),
                    ),
                ),
            },
        },
    }
}

pub open spec fn after_default_for_init(dir: Seq<char>, parent: Seq<char>, k: spec_fn(Seq<char>) -> Prog) -> spec_fn(
    Result<Option<Seq<char>>, Seq<char>>,
) -> Prog {
    |d: Result<Option<Seq<char>>, Seq<char>>| match d {
        Err(m) => Prog::Finish(Err(m)),
        Ok(db) => git(
            worktree_list_call(dir),
            |r: GitReplyView| match output_of(r) {
                Err(_) => Prog::Finish(Err(list_failed_message())),
                Ok(out) => init_with(dir, parent, db, porcelain_worktrees(out), k),
            },
        ),
    }
}

/// Make sure the main worktree exists; `k` gets the default branch.
pub open spec fn init_main_prog(dir: Seq<char>, parent: Seq<char>, k: spec_fn(Seq<char>) -> Prog) -> Prog {
    drive(default_plan(dir), seq![], 4, after_default_for_init(dir, parent, k))
}

// ------------------------------------------------------------------
// Adding
// ------------------------------------------------------------------

pub open spec fn detached_message(f: Seq<char>) -> Seq<char> {
    "source worktree '"@ + f + "' has a detached HEAD -- cannot branch from it"@
}

/// `--from`: the source worktree's branch, after fetching and pulling in it
/// (failures only warned about); `k` gets the branch.
pub open spec fn source_prog(dir: Seq<char>, f: Seq<char>, k: spec_fn(Seq<char>) -> Prog) -> Prog {
    git(
        worktree_list_call(dir),
        |r: GitReplyView| match output_of(r) {
            Err(_) => Prog::Finish(Err(list_failed_message())),
            Ok(out) => match worktree_named(porcelain_worktrees(out), f) {
                None => Prog::Finish(Err("source worktree '"@ + f + "' not found"@)),
                Some(w) => match w.branch {
                    None => Prog::Finish(Err(detached_message(f))),
                    Some(sb) => git(
                        fetch_all_plain_call(dir),
                        |fr: GitReplyView| {
                            let pull = git(
                                pull_call(w.path),
                                |pr: GitReplyView| if succeeded(pr) {
                                    k(sb)
                                } else {
                                    say(Level::Warning, "  Warning: failed to pull in source worktree"@, k(sb))
                                },
                            );
                            if succeeded(fr) {
                                pull
                            } else {
                                say(Level::Warning, "  Warning: failed to fetch from remote"@, pull)
                            }
                        },
                    ),
                },
            },
        },
    )
}

pub open spec fn add_from_head_call(dir: Seq<char>, branch: Seq<char>, path: Seq<char>) -> GitCallView {
    GitCallView { dir, args: seq!["worktree"@, "add"@, "-b"@, branch, path], mode: GitMode::Output }
}

/// The default worktree's files matching the patterns are copied into the
/// new one (when patterns are configured and that worktree is there).
pub open spec fn copy_prog(dir: Seq<char>, path: Seq<char>, patterns: Seq<Seq<char>>, then: Prog) -> Prog {
    if patterns.len() == 0 {
        then
    } else {
        drive(default_plan(dir), seq![], 4, copy_after_default(dir, path, patterns, then))
    }
}

pub open spec fn copy_after_default(dir: Seq<char>, path: Seq<char>, patterns: Seq<Seq<char>>, then: Prog) -> spec_fn(
    Result<Option<Seq<char>>, Seq<char>>,
) -> Prog {
    |d: Result<Option<Seq<char>>, Seq<char>>| match d {
        Err(m) => Prog::Finish(Err(m)),
        Ok(db) => {
            let b = match db {
                Some(x) => x,
                None => "main"@,
            };
            git(
                worktree_list_call(dir),
                |r: GitReplyView| match output_of(r) {
                    Err(_) => Prog::Finish(Err(list_failed_message())),
                    Ok(out) => match worktree_on(porcelain_worktrees(out), b) {
                        None => then,
                        Some(w) => fs(
                            FsQueryView::Exists(w.path),
                            |a: FsReplyView| if a is Yes {
                                crate::commands::copy_files::copy_files_prog(w.path, path, patterns, then)
                            } else {
                                then
                            },
                        ),
                    },
                },
            )
        },
    }
}

/// The worktree and its branch are created: on the existing branch, else
/// as a new branch from the start point (or `HEAD`); its upstream is set
/// when `origin` has the branch; the `.gitignore` is kept up to date for a
/// non-bare repository with `.wts`; configured files are copied.
pub open spec fn create_prog(
    ctx: ProjectContextView,
    patterns: Seq<Seq<char>>,
    name: Seq<char>,
    bn: Seq<char>,
    from: Option<Seq<char>>,
    start: Option<Seq<char>>,
) -> Prog {
    let dir = ctx.project_dir;
    let path = path_join(ctx.worktree_parent, name);
    let fin = say(Level::Success, "Worktree '"@ + name + "' created at "@ + path, navigate(path, Prog::Finish(Ok(()))));
    let copy = copy_prog(dir, path, patterns, fin);
    let gi = if ctx.layout_type == LayoutType::NonBare && ctx.worktree_folder == ".wts"@ {
        Prog::Do(EffectView::EnsureGitignore(ctx.project_root), |o: crate::commands::effects::OutcomeView| copy)
    } else {
        copy
    };
    let upstream = git(
        show_ref_call(dir, "refs/remotes/origin/"@ + bn),
        |r: GitReplyView| match check_of(r) {
            Err(m) => Prog::Finish(Err(m)),
            Ok(true) => git(set_upstream_call(path, bn), |u: GitReplyView| gi),
            Ok(false) => gi,
        },
    );
    let add = drive(exists_plan(dir, bn), seq![], 2, add_after_exists(dir, path, bn, from, start, upstream));
    let rest = create_dir_all(ctx.worktree_parent, add);
    fs(
        FsQueryView::Exists(path),
        |a: FsReplyView| if a is Yes {
            Prog::Finish(Err("worktree '"@ + name + "' already exists"@))
        } else {
            say(
                Level::Header,
                "Adding worktree '"@ + name + "'"@,
                say(
                    Level::Info,
                    "  Branch: "@ + bn,
                    match from {
                        Some(f) => say(Level::Info, "  From: "@ + f, rest),
                        None => rest,
                    },
                ),
            )
        },
    )
}

pub open spec fn add_after_exists(
    dir: Seq<char>,
    path: Seq<char>,
    bn: Seq<char>,
    from: Option<Seq<char>>,
    start: Option<Seq<char>>,
    then: Prog,
) -> spec_fn(Result<bool, Seq<char>>) -> Prog {
    |e: Result<bool, Seq<char>>| match e {
        Err(m) => Prog::Finish(Err(m)),
        Ok(ex) => {
            let c = if ex {
                add_call(dir, path, bn)
            } else {
                match start {
                    Some(s) => add_new_branch_call(dir, bn, path, s),
                    None => add_from_head_call(dir, bn, path),
                }
            };
            if ex && from is Some {
                say(Level::Warning, "  Branch already exists, --from will be ignored"@, git_or_fail(c, then))
            } else {
                git_or_fail(c, then)
            }
        },
    }
}

/// The worktree is added on an existing branch by checking it out
/// (`git worktree add <path> <branch>`, never with `-b`), and on a branch
/// that does not exist yet by creating it (`-b <branch>`, from the start
/// point when one is given). An ignored `--from` is announced first.
pub proof fn lemma_add_call_follows_existence(
    dir: Seq<char>,
    path: Seq<char>,
    bn: Seq<char>,
    from: Option<Seq<char>>,
    start: Option<Seq<char>>,
    then: Prog,
)
    ensures
        from is None ==> next_effect(add_after_exists(dir, path, bn, from, start, then)(Ok(true)), seq![])
            == EffectView::Git(GitCallView { dir, args: seq!["worktree"@, "add"@, path, bn], mode: GitMode::Output }),
        from is Some ==> next_effect(add_after_exists(dir, path, bn, from, start, then)(Ok(true)), seq![])
            == EffectView::Say(Level::Warning, "  Branch already exists, --from will be ignored"@),
        from is Some ==> next_effect(
            add_after_exists(dir, path, bn, from, start, then)(Ok(true)),
            seq![crate::commands::effects::OutcomeView::Ack],
        ) == EffectView::Git(GitCallView { dir, args: seq!["worktree"@, "add"@, path, bn], mode: GitMode::Output }),
        next_effect(add_after_exists(dir, path, bn, from, start, then)(Ok(false)), seq![]) == EffectView::Git(
            GitCallView {
                dir,
                args: seq!["worktree"@, "add"@, "-b"@, bn, path] + match start {
                    Some(s) => seq![s],
                    None => Seq::<Seq<char>>::empty(),
                },
                mode: GitMode::Output,
            },
        ),
{
    let os = seq![crate::commands::effects::OutcomeView::Ack];
    assert(os.drop_first() =~= Seq::<crate::commands::effects::OutcomeView>::empty());
    let p = add_after_exists(dir, path, bn, from, start, then)(Ok(true));
    if from is Some {
        let q = (p->Do_1)(os[0]);
        assert(q->Do_0 == EffectView::Git(GitCallView { dir, args: seq!["worktree"@, "add"@, path, bn], mode: GitMode::Output }));
        assert(next_effect(p, os) == next_effect(q, os.drop_first()));
        assert(next_effect(q, Seq::<crate::commands::effects::OutcomeView>::empty()) == q->Do_0);
    }
    match start {
        Some(s) => {
            assert(seq!["worktree"@, "add"@, "-b"@, bn, path] + seq![s] =~= seq!["worktree"@, "add"@, "-b"@, bn, path, s]);
        },
        None => {
            assert(seq!["worktree"@, "add"@, "-b"@, bn, path] + Seq::<Seq<char>>::empty() =~= seq!["worktree"@, "add"@, "-b"@, bn, path]);
        },
    }
}

pub open spec fn with_start(
    ctx: ProjectContextView,
    cfg: GlobalConfigView,
    name: Seq<char>,
    bn: Seq<char>,
    from: Option<Seq<char>>,
) -> spec_fn(Seq<char>) -> Prog {
    |sb: Seq<char>| create_prog(ctx, cfg.copy_files, name, bn, from, Some(sb))
}

pub open spec fn from_head(
    ctx: ProjectContextView,
    cfg: GlobalConfigView,
    name: Seq<char>,
    bn: Seq<char>,
) -> spec_fn(Seq<char>) -> Prog {
    |d: Seq<char>| create_prog(ctx, cfg.copy_files, name, bn, None, None)
}

/// The add command: a valid name; with `--from`, the source worktree's
/// branch as start point, else the main worktree made sure of; then the
/// worktree created (it must not exist yet) and offered for navigation.
pub open spec fn add_prog(
    ctx: ProjectContextView,
    cfg: GlobalConfigView,
    name: Seq<char>,
    branch: Option<Seq<char>>,
    from: Option<Seq<char>>,
) -> Prog {
    match name_problem(name, ctx.worktree_folder) {
        Some(p) => Prog::Finish(Err("invalid worktree name: "@ + p)),
        None => {
            let bn = branch_name_for(name, branch, cfg.branch_prefix);
            match from {
                Some(f) => source_prog(ctx.project_dir, f, with_start(ctx, cfg, name, bn, from)),
                None => init_main_prog(ctx.project_dir, ctx.worktree_parent, from_head(ctx, cfg, name, bn)),
            }
        },
    }
}

fn pull_and_fetch_exec(rn: &mut Runner, path: &str, dir: &str, Ghost(then): Ghost<Prog>) -> (r: Result<(), Effect>)
    requires
        old(rn).consistent(),
        old(rn).prog@ == pull_and_fetch(path@, dir@, then),
    ensures
        final(rn).consistent(),
        final(rn).outcomes == old(rn).outcomes,
        final(rn).whole == old(rn).whole,
        match r {
            Ok(()) => final(rn).prog@ == then,
            Err(e) => effect_view(e) == next_effect(old(rn).whole@, old(rn).views()),
        },
{
    let ghost second = git(fetch_all_plain_call(dir@), |r2: GitReplyView| then);
    match rn.perform(Effect::Git(make_call(path, crate::git::args1("pull"), GitMode::Output))) {
        Err(e) => {
            return Err(e);
        },
        Ok(_) => {},
    }
    match rn.perform(Effect::Git(make_call(dir, args2("fetch", "--all"), GitMode::Output))) {
        Err(e) => Err(e),
        Ok(_) => Ok(()),
    }
}

fn create_main_exec(rn: &mut Runner, dir: &str, parent: &str, b: &str, Ghost(then): Ghost<Prog>) -> (r: Result<(), Effect>)
    requires
        old(rn).consistent(),
        old(rn).prog@ == create_main(dir@, parent@, b@, then),
    ensures
        final(rn).consistent(),
        final(rn).outcomes == old(rn).outcomes,
        final(rn).whole == old(rn).whole,
        match r {
            Ok(()) => final(rn).prog@ == then,
            Err(e) => effect_view(e) == next_effect(old(rn).whole@, old(rn).views()),
        },
{
    let main = join(parent, b);
    let o = match rn.perform(Effect::CreateDirAll(parent.to_string())) {
        Err(e) => {
            return Err(e);
        },
        Ok(o) => o,
    };
    match done_result_of(&rn.outcomes[o]) {
        Err(m) => {
            return Err(rn.finish(Err(m)));
        },
        Ok(()) => {},
    }
    let ghost after_add = git(
        set_upstream_call(main@, b@),
        |r: GitReplyView| say(
            Level::Info,
            "Initialized main worktree for branch '"@ + b@ + "'"@,
            pull_and_fetch(main@, dir@, then),
        ),
    );
    match git_or_fail_exec(rn, make_call(dir, args4("worktree", "add", main.as_str(), b), GitMode::Output), Ghost(after_add)) {
        Err(e) => {
            return Err(e);
        },
        Ok(()) => {},
    }
    let empty: Vec<GitReply> = Vec::new();
    let c = match set_upstream(main.as_str(), b, &empty) {
        GitStep::Run(c) => c,
        GitStep::Done(_) => {
            return Ok(());
        },
    };
    match rn.perform(Effect::Git(c)) {
        Err(e) => {
            return Err(e);
        },
        Ok(_) => {},
    }
    match rn.perform(say_exec(Level::Info, join3("Initialized main worktree for branch '", b, "'"))) {
        Err(e) => {
            return Err(e);
        },
        Ok(_) => {},
    }
    pull_and_fetch_exec(rn, main.as_str(), dir, Ghost(then))
}

/// The first worktree on one of the usual default branches.
fn common_worktree_exec(ws: &Vec<Worktree>) -> (r: Option<(String, usize)>)
    ensures
        match (r, common_worktree(worktree_views(ws@))) {
            (Some((c, i)), Some((cv, w))) => c@ == cv && i < ws@.len() && ws@[i as int]@ == w,
            (None, None) => true,
            _ => false,
        },
{
    match worktree_on_exec(ws, "main") {
        Some(i) => {
            return Some(("main".to_string(), i));
        },
        None => {},
    }
    match worktree_on_exec(ws, "master") {
        Some(i) => {
            return Some(("master".to_string(), i));
        },
        None => {},
    }
    match worktree_on_exec(ws, "develop") {
        Some(i) => {
            return Some(("develop".to_string(), i));
        },
        None => {},
    }
    match worktree_on_exec(ws, "trunk") {
        Some(i) => Some(("trunk".to_string(), i)),
        None => None,
    }
}

/// Make sure the main worktree exists; the default branch.
fn init_main_worktree(
    rn: &mut Runner,
    dir: &str,
    parent: &str,
    Ghost(k): Ghost<spec_fn(Seq<char>) -> Prog>,
) -> (r: Result<String, Effect>)
    requires
        old(rn).consistent(),
        old(rn).prog@ == init_main_prog(dir@, parent@, k),
    ensures
        final(rn).consistent(),
        final(rn).outcomes == old(rn).outcomes,
        final(rn).whole == old(rn).whole,
        match r {
            Ok(b) => final(rn).prog@ == k(b@),
            Err(e) => effect_view(e) == next_effect(old(rn).whole@, old(rn).views()),
        },
{
    let db = match drive_default_branch(rn, dir, Ghost(after_default_for_init(dir@, parent@, k))) {
        Err(e) => {
            return Err(e);
        },
        Ok(Err(m)) => {
            return Err(rn.finish(Err(m)));
        },
        Ok(Ok(db)) => db,
    };
    let o = match rn.perform(Effect::Git(make_call(dir, args3("worktree", "list", "--porcelain"), GitMode::Output))) {
        Err(e) => {
            return Err(e);
        },
        Ok(o) => o,
    };
    let ws = match reply_of(&rn.outcomes[o]) {
        GitReply::Success(out) => parse_worktrees(out.as_str()),
        _ => {
            return Err(rn.finish(Err("Failed to list worktrees. Your git version may not support --porcelain.\n   Please upgrade git to version 2.7 or later.".to_string())));
        },
    };
    let ghost wv = worktree_views(ws@);
    let existing = match &db {
        Some(b) => worktree_on_exec(&ws, b.as_str()),
        None => None,
    };
    match existing {
        Some(i) => {
            let b = match db {
                Some(b) => b,
                None => String::new(),
            };
            return match pull_and_fetch_exec(rn, ws[i].path.as_str(), dir, Ghost(k(b@))) {
                Err(e) => Err(e),
                Ok(()) => Ok(b),
            };
        },
        None => {},
    }
    match common_worktree_exec(&ws) {
        Some((c, i)) => {
            return match pull_and_fetch_exec(rn, ws[i].path.as_str(), dir, Ghost(k(c@))) {
                Err(e) => Err(e),
                Ok(()) => Ok(c),
            };
        },
        None => {},
    }
    let b = match db {
        Some(b) => b,
        None => {
            let empty: Vec<GitReply> = Vec::new();
            let c = match set_config(dir, "remote.origin.fetch", "+refs/heads/*:refs/remotes/origin/*", &empty) {
                GitStep::Run(c) => c,
                GitStep::Done(_) => {
                    return Err(rn.finish(Err(String::new())));
                },
            };
            match rn.perform(Effect::Git(c)) {
                Err(e) => {
                    return Err(e);
                },
                Ok(_) => {},
            }
            match rn.perform(Effect::Git(make_call(dir, args2("fetch", "--all"), GitMode::Output))) {
                Err(e) => {
                    return Err(e);
                },
                Ok(_) => {},
            }
            match drive_default_branch(rn, dir, Ghost(retry_default(dir@, parent@, k))) {
                Err(e) => {
                    return Err(e);
                },
                Ok(Err(m)) => {
                    return Err(rn.finish(Err(m)));
                },
                Ok(Ok(None)) => {
                    return Err(rn.finish(Err("failed to detect default branch".to_string())));
                },
                Ok(Ok(Some(b))) => b,
            }
        },
    };
    match create_main_exec(rn, dir, parent, b.as_str(), Ghost(k(b@))) {
        Err(e) => Err(e),
        Ok(()) => Ok(b),
    }
}

/// `--from`: the source worktree's branch.
fn source_branch(
    rn: &mut Runner,
    dir: &str,
    f: &str,
    Ghost(k): Ghost<spec_fn(Seq<char>) -> Prog>,
) -> (r: Result<String, Effect>)
    requires
        old(rn).consistent(),
        old(rn).prog@ == source_prog(dir@, f@, k),
    ensures
        final(rn).consistent(),
        final(rn).outcomes == old(rn).outcomes,
        final(rn).whole == old(rn).whole,
        match r {
            Ok(b) => final(rn).prog@ == k(b@),
            Err(e) => effect_view(e) == next_effect(old(rn).whole@, old(rn).views()),
        },
{
    let o = match rn.perform(Effect::Git(make_call(dir, args3("worktree", "list", "--porcelain"), GitMode::Output))) {
        Err(e) => {
            return Err(e);
        },
        Ok(o) => o,
    };
    let ws = match reply_of(&rn.outcomes[o]) {
        GitReply::Success(out) => parse_worktrees(out.as_str()),
        _ => {
            return Err(rn.finish(Err("Failed to list worktrees. Your git version may not support --porcelain.\n   Please upgrade git to version 2.7 or later.".to_string())));
        },
    };
    let i = match find_worktree_by_name(&ws, f) {
        None => {
            return Err(rn.finish(Err(LazywtError::SourceWorktreeNotFound(f.to_string()).message())));
        },
        Some(i) => i,
    };
    let w = &ws[i];
    let sb = match &w.branch {
        None => {
            return Err(rn.finish(Err(join3("source worktree '", f, "' has a detached HEAD -- cannot branch from it"))));
        },
        Some(b) => b.clone(),
    };
    let o = match rn.perform(Effect::Git(make_call(dir, args2("fetch", "--all"), GitMode::Output))) {
        Err(e) => {
            return Err(e);
        },
        Ok(o) => o,
    };
    if !succeeded_exec(&reply_of(&rn.outcomes[o])) {
        match rn.perform(say_exec(Level::Warning, "  Warning: failed to fetch from remote".to_string())) {
            Err(e) => {
                return Err(e);
            },
            Ok(_) => {},
        }
    }
    let o = match rn.perform(Effect::Git(make_call(w.path.as_str(), crate::git::args1("pull"), GitMode::Output))) {
        Err(e) => {
            return Err(e);
        },
        Ok(o) => o,
    };
    if !succeeded_exec(&reply_of(&rn.outcomes[o])) {
        match rn.perform(say_exec(Level::Warning, "  Warning: failed to pull in source worktree".to_string())) {
            Err(e) => {
                return Err(e);
            },
            Ok(_) => {},
        }
    }
    Ok(sb)
}

fn copy_files_exec(
    rn: &mut Runner,
    dir: &str,
    path: &str,
    patterns: &Vec<String>,
    Ghost(then): Ghost<Prog>,
) -> (r: Result<(), Effect>)
    requires
        old(rn).consistent(),
        old(rn).prog@ == copy_prog(dir@, path@, string_views(patterns@), then),
    ensures
        final(rn).consistent(),
        final(rn).outcomes == old(rn).outcomes,
        final(rn).whole == old(rn).whole,
        match r {
            Ok(()) => final(rn).prog@ == then,
            Err(e) => effect_view(e) == next_effect(old(rn).whole@, old(rn).views()),
        },
{
    if patterns.len() == 0 {
        return Ok(());
    }
    let ghost pv = string_views(patterns@);
    let db = match drive_default_branch(rn, dir, Ghost(copy_after_default(dir@, path@, pv, then))) {
        Err(e) => {
            return Err(e);
        },
        Ok(Err(m)) => {
            return Err(rn.finish(Err(m)));
        },
        Ok(Ok(db)) => db,
    };
    let b = match db {
        Some(x) => x,
        None => "main".to_string(),
    };
    let o = match rn.perform(Effect::Git(make_call(dir, args3("worktree", "list", "--porcelain"), GitMode::Output))) {
        Err(e) => {
            return Err(e);
        },
        Ok(o) => o,
    };
    let ws = match reply_of(&rn.outcomes[o]) {
        GitReply::Success(out) => parse_worktrees(out.as_str()),
        _ => {
            return Err(rn.finish(Err("Failed to list worktrees. Your git version may not support --porcelain.\n   Please upgrade git to version 2.7 or later.".to_string())));
        },
    };
    let i = match worktree_on_exec(&ws, b.as_str()) {
        None => {
            return Ok(());
        },
        Some(i) => i,
    };
    let source = ws[i].path.clone();
    let o = match rn.perform(Effect::Fs(FsQuery::Exists(source.clone()))) {
        Err(e) => {
            return Err(e);
        },
        Ok(o) => o,
    };
    let present = match fs_answer_of(&rn.outcomes[o]) {
        FsReply::Yes => true,
        _ => false,
    };
    if !present {
        return Ok(());
    }
    crate::commands::copy_files::copy_files_exec(rn, source.as_str(), path, patterns, Ghost(then))
}

/// Create the worktree once its start point is known.
fn create_worktree(
    rn: &mut Runner,
    ctx: &ProjectContext,
    patterns: &Vec<String>,
    name: &str,
    bn: &str,
    from: Option<&str>,
    start: &Option<String>,
) -> (r: Result<(), Effect>)
    requires
        old(rn).consistent(),
        old(rn).prog@ == create_prog(ctx@, string_views(patterns@), name@, bn@, name_view(from), opt_view(*start)),
    ensures
        final(rn).consistent(),
        final(rn).outcomes == old(rn).outcomes,
        final(rn).whole == old(rn).whole,
        match r {
            Ok(()) => final(rn).prog@ == Prog::Finish(Ok(())),
            Err(e) => effect_view(e) == next_effect(old(rn).whole@, old(rn).views()),
        },
{
    let dir = ctx.project_dir.as_str();
    let path = join(ctx.worktree_parent.as_str(), name);
    let ghost pv = string_views(patterns@);
    let ghost fin = say(
        Level::Success,
        "Worktree '"@ + name@ + "' created at "@ + path@,
        navigate(path@, Prog::Finish(Ok(()))),
    );
    let ghost copy = copy_prog(dir@, path@, pv, fin);
    let nonbare_wts = ctx.layout_type == LayoutType::NonBare && chars_eq(
        &chars_of(ctx.worktree_folder.as_str()),
        &chars_of(".wts"),
    );
    let ghost gi = if nonbare_wts {
        Prog::Do(EffectView::EnsureGitignore(ctx.project_root@), |o: crate::commands::effects::OutcomeView| copy)
    } else {
        copy
    };
    let ghost upstream = git(
        show_ref_call(dir@, "refs/remotes/origin/"@ + bn@),
        |r: GitReplyView| match check_of(r) {
            Err(m) => Prog::Finish(Err(m)),
            Ok(true) => git(set_upstream_call(path@, bn@), |u: GitReplyView| gi),
            Ok(false) => gi,
        },
    );
    let o = match rn.perform(Effect::Fs(FsQuery::Exists(path.clone()))) {
        Err(e) => {
            return Err(e);
        },
        Ok(o) => o,
    };
    let present = match fs_answer_of(&rn.outcomes[o]) {
        FsReply::Yes => true,
        _ => false,
    };
    if present {
        return Err(rn.finish(Err(LazywtError::WorktreeExists(name.to_string()).message())));
    }
    match rn.perform(say_exec(Level::Header, join3("Adding worktree '", name, "'"))) {
        Err(e) => {
            return Err(e);
        },
        Ok(_) => {},
    }
    match rn.perform(say_exec(Level::Info, join_str("  Branch: ", bn))) {
        Err(e) => {
            return Err(e);
        },
        Ok(_) => {},
    }
    match from {
        Some(f) => {
            match rn.perform(say_exec(Level::Info, join_str("  From: ", f))) {
                Err(e) => {
                    return Err(e);
                },
                Ok(_) => {},
            }
        },
        None => {},
    }
    let o = match rn.perform(Effect::CreateDirAll(ctx.worktree_parent.clone())) {
        Err(e) => {
            return Err(e);
        },
        Ok(o) => o,
    };
    match done_result_of(&rn.outcomes[o]) {
        Err(m) => {
            return Err(rn.finish(Err(m)));
        },
        Ok(()) => {},
    }
    let ghost k = add_after_exists(dir@, path@, bn@, name_view(from), opt_view(*start), upstream);
    let exists = match drive_branch_exists(rn, dir, bn, Ghost(k)) {
        Err(e) => {
            return Err(e);
        },
        Ok(Err(m)) => {
            return Err(rn.finish(Err(m)));
        },
        Ok(Ok(x)) => x,
    };
    if exists && from.is_some() {
        match rn.perform(say_exec(Level::Warning, "  Branch already exists, --from will be ignored".to_string())) {
            Err(e) => {
                return Err(e);
            },
            Ok(_) => {},
        }
    }
    let c = if exists {
        make_call(dir, args4("worktree", "add", path.as_str(), bn), GitMode::Output)
    } else {
        match start {
            Some(s) => make_call(dir, crate::commands::steps::strings6("worktree", "add", "-b", bn, path.as_str(), s.as_str()), GitMode::Output),
            None => make_call(dir, crate::git::args5("worktree", "add", "-b", bn, path.as_str()), GitMode::Output),
        }
    };
    match git_or_fail_exec(rn, c, Ghost(upstream)) {
        Err(e) => {
            return Err(e);
        },
        Ok(()) => {},
    }
    let remote_ref = join_str("refs/remotes/origin/", bn);
    let o = match rn.perform(Effect::Git(make_call(dir, args4("show-ref", "--verify", "--quiet", remote_ref.as_str()), GitMode::Check))) {
        Err(e) => {
            return Err(e);
        },
        Ok(o) => o,
    };
    let reply = reply_of(&rn.outcomes[o]);
    match &reply {
        GitReply::Success(_) => {
            let empty: Vec<GitReply> = Vec::new();
            match set_upstream(path.as_str(), bn, &empty) {
                GitStep::Run(c) => {
                    match rn.perform(Effect::Git(c)) {
                        Err(e) => {
                            return Err(e);
                        },
                        Ok(_) => {},
                    }
                },
                GitStep::Done(_) => {
                    return Err(rn.finish(Err(String::new())));
                },
            }
        },
        GitReply::Failure(_) => {},
        GitReply::NotRun(m) => {
            return Err(rn.finish(Err(m.clone())));
        },
    }
    if nonbare_wts {
        match rn.perform(Effect::EnsureGitignore(ctx.project_root.clone())) {
            Err(e) => {
                return Err(e);
            },
            Ok(_) => {},
        }
    }
    match copy_files_exec(rn, dir, path.as_str(), patterns, Ghost(fin)) {
        Err(e) => {
            return Err(e);
        },
        Ok(()) => {},
    }
    match rn.perform(say_exec(Level::Success, crate::text::join4("Worktree '", name, "' created at ", path.as_str()))) {
        Err(e) => {
            return Err(e);
        },
        Ok(_) => {},
    }
    match rn.perform(Effect::Navigate(path)) {
        Err(e) => Err(e),
        Ok(_) => Ok(()),
    }
}

/// The add command's next effect, given the outcomes of those it asked for
/// so far.
pub fn run(
    ctx: &ProjectContext,
    config: &Config,
    name: &str,
    branch: Option<&str>,
    from: Option<&str>,
    outcomes: &Vec<Outcome>,
) -> (e: Effect)
    ensures
        effect_view(e) == next_effect(
            add_prog(ctx@, config@, name@, name_view(branch), name_view(from)),
            outcome_views(outcomes@),
        ),
{
    let mut rn = Runner::new(outcomes, Ghost(add_prog(ctx@, config@, name@, name_view(branch), name_view(from))));
    match validate_worktree_name(name, ctx.worktree_folder.as_str()) {
        Err(e) => {
            return rn.finish(Err(e.message()));
        },
        Ok(()) => {},
    }
    let bn = resolve_branch_name(name, branch, config.branch_prefix.as_str());
    let dir = ctx.project_dir.as_str();
    let start: Option<String> = match from {
        Some(f) => {
            match source_branch(&mut rn, dir, f, Ghost(with_start(ctx@, config@, name@, bn@, name_view(from)))) {
                Err(e) => {
                    return e;
                },
                Ok(sb) => Some(sb),
            }
        },
        None => {
            match init_main_worktree(&mut rn, dir, ctx.worktree_parent.as_str(), Ghost(from_head(ctx@, config@, name@, bn@))) {
                Err(e) => {
                    return e;
                },
                Ok(_) => None,
            }
        },
    };
    match create_worktree(&mut rn, ctx, &config.copy_files, name, bn.as_str(), from, &start) {
        Err(e) => e,
        Ok(()) => rn.finish(Ok(())),
    }
}

} // verus!
