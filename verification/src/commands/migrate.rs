//! Migrating a classic layout (worktrees under the bare directory's
//! `trees/`) to the modern one (a hidden bare directory beside the
//! worktrees), moving back what was moved when a move fails.
use vstd::prelude::*;

use crate::commands::effects::{
    answer_result_of, confirm, done_of, done_result_of, effect_view, fs, fs_answer_of, git, next_effect,
    outcome_views, reply_of, say, then_do, Effect, EffectView, Level, Outcome, OutcomeView, Prog, Runner,
};
use crate::commands::steps::say_exec;
use crate::config::Config;
use crate::error::LazywtError;
use crate::git::config::set_config_call;
use crate::git::operations::{FsQuery, FsQueryView, FsReply, FsReplyView};
use crate::git::status::status_call;
use crate::git::worktree::{
    list_failed_message, parse_porcelain as parse_worktrees, porcelain_worktrees, worktree_list_call,
    worktree_views, Worktree, WorktreeView,
};
use crate::git::{
    arg_views, args2, args3, make_call, output_of, reply_views, GitCall, GitCallView, GitMode, GitReply,
    GitReplyView, GitStep,
};
use crate::layout::{LayoutType, ProjectContext, ProjectContextView};
use crate::output::Status;
use crate::paths::{file_name, join, parent, path_file_name, path_join, path_parent, path_starts_with, starts_with_path};
use crate::text::{
    chars_eq, chars_of, decimal, join3, join4, join5, join_str, lines, opt_view, split_lines, string_of,
    u64_to_chars,
};

verus! {

// ------------------------------------------------------------------
// Pieces
// ------------------------------------------------------------------

/// The number of changed files that `git status --porcelain` lists; 0 when
/// git fails.
pub open spec fn dirty_count(r: GitReplyView) -> nat {
    match output_of(r) {
        Ok(o) => lines(o).len(),
        Err(_) => 0,
    }
}

/// The number of uncommitted changes in the worktree at `path`.
pub fn count_dirty_files(path: &str, replies: &Vec<GitReply>) -> (r: GitStep<usize>)
    ensures
        replies.len() == 0 ==> (r matches GitStep::Run(c) && c@ == status_call(path@)),
        replies.len() > 0 ==> (r matches GitStep::Done(n) && n == dirty_count(reply_views(replies@)[0])),
{
    if replies.len() == 0 {
        return GitStep::Run(make_call(path, args2("status", "--porcelain"), GitMode::Output));
    }
    match &replies[0] {
        GitReply::Success(out) => GitStep::Done(split_lines(&chars_of(out.as_str())).len()),
        _ => GitStep::Done(0),
    }
}

pub open spec fn dir_name_or(w: WorktreeView, fallback: Seq<char>) -> Seq<char> {
    match path_file_name(w.path) {
        Some(n) => n,
        None => fallback,
    }
}

/// The worktrees inside the bare directory, with their directory names:
/// these are moved.
pub open spec fn internal_of(ws: Seq<WorktreeView>, pd: Seq<char>) -> Seq<(Seq<char>, Seq<char>)>
    decreases ws.len(),
{
    if ws.len() == 0 {
        seq![]
    } else {
        let rest = internal_of(ws.drop_last(), pd);
        let w = ws.last();
        if !w.is_bare && path_starts_with(w.path, pd) {
            rest.push((w.path, dir_name_or(w, "unknown"@)))
        } else {
            rest
        }
    }
}

/// The worktrees elsewhere: these stay and are repaired.
pub open spec fn external_of(ws: Seq<WorktreeView>, pd: Seq<char>) -> Seq<Seq<char>>
    decreases ws.len(),
{
    if ws.len() == 0 {
        seq![]
    } else {
        let rest = external_of(ws.drop_last(), pd);
        let w = ws.last();
        if !w.is_bare && !path_starts_with(w.path, pd) {
            rest.push(w.path)
        } else {
            rest
        }
    }
}

pub open spec fn target_exists_message(name: Seq<char>) -> Seq<char> {
    "migration target '"@ + name + "' already exists"@
}

/// No moved worktree may land on an existing path.
pub open spec fn collisions(ints: Seq<(Seq<char>, Seq<char>)>, root: Seq<char>, i: int, then: Prog) -> Prog
    decreases ints.len() - i,
{
    if i < 0 || i >= ints.len() {
        then
    } else {
        fs(
            FsQueryView::Exists(path_join(root, ints[i].1)),
            |a: FsReplyView| if a is Yes {
                Prog::Finish(Err(target_exists_message(ints[i].1)))
            } else {
                collisions(ints, root, i + 1, then)
            },
        )
    }
}

/// Warn about the worktrees (from `i` on) with uncommitted changes, under
/// one heading.
pub open spec fn dirty_report(ws: Seq<WorktreeView>, i: int, warned: bool, then: Prog) -> Prog
    decreases ws.len() - i,
{
    if i < 0 || i >= ws.len() {
        then
    } else if ws[i].is_bare {
        dirty_report(ws, i + 1, warned, then)
    } else {
        git(
            status_call(ws[i].path),
            |r: GitReplyView| {
                let n = dirty_count(r);
                if n > 0 {
                    let line = say(
                        Level::Warning,
                        "  "@ + dir_name_or(ws[i], "unknown"@) + " has "@ + decimal(n) + " uncommitted change(s)"@,
                        dirty_report(ws, i + 1, true, then),
                    );
                    if warned {
                        line
                    } else {
                        say(Level::Warning, "Warning: some worktrees have uncommitted changes:"@, line)
                    }
                } else {
                    dirty_report(ws, i + 1, warned, then)
                }
            },
        )
    }
}

pub open spec fn worktree_lines(ints: Seq<(Seq<char>, Seq<char>)>, root: Seq<char>, i: int, then: Prog) -> Prog
    decreases ints.len() - i,
{
    if i < 0 || i >= ints.len() {
        then
    } else {
        say(
            Level::Info,
            "  Worktree: "@ + ints[i].0 + " -> "@ + path_join(root, ints[i].1),
            worktree_lines(ints, root, i + 1, then),
        )
    }
}

pub open spec fn external_lines(ext: Seq<Seq<char>>, i: int, then: Prog) -> Prog
    decreases ext.len() - i,
{
    if i < 0 || i >= ext.len() {
        then
    } else {
        say(Level::Info, "  External (not moved): "@ + ext[i], external_lines(ext, i + 1, then))
    }
}

/// The lines that report failed rollback moves.
pub open spec fn rollback_lines(errs: Seq<Seq<char>>) -> Seq<char>
    decreases errs.len(),
{
    if errs.len() == 0 {
        seq![]
    } else {
        rollback_lines(errs.drop_last()) + "  "@ + errs.last() + "\n"@
    }
}

/// The message of a failed move, with the failed rollback moves if any.
pub open spec fn failure_text(base: Seq<char>, errs: Seq<Seq<char>>) -> Seq<char> {
    if errs.len() == 0 {
        base
    } else {
        base + "\nRollback also failed:\n"@ + rollback_lines(errs)
    }
}

pub open spec fn fail_with(base: Seq<char>) -> spec_fn(Seq<Seq<char>>) -> Prog {
    |errs: Seq<Seq<char>>| Prog::Finish(Err("migration failed: "@ + failure_text(base, errs)))
}

/// Move back the first `n` completed moves, last first, collecting the
/// failures.
pub open spec fn rollback_prog(
    moves: Seq<(Seq<char>, Seq<char>)>,
    n: int,
    errs: Seq<Seq<char>>,
    k: spec_fn(Seq<Seq<char>>) -> Prog,
) -> Prog
    decreases n,
{
    if n <= 0 || n > moves.len() {
        k(errs)
    } else {
        let m = moves[n - 1];
        Prog::Do(
            EffectView::Rename { from: m.1, to: m.0 },
            |o: OutcomeView| match done_of(o) {
                Ok(_) => rollback_prog(moves, n - 1, errs, k),
                Err(e) => rollback_prog(
                    moves,
                    n - 1,
                    errs.push("Failed to rollback "@ + m.1 + " -> "@ + m.0 + ": "@ + e),
                    k,
                ),
            },
        )
    }
}

/// A git command whose failure ends the migration with `msg`.
pub open spec fn git_ctx(c: GitCallView, msg: Seq<char>, then: Prog) -> Prog {
    git(
        c,
        |r: GitReplyView| match output_of(r) {
            Err(_) => Prog::Finish(Err(msg)),
            Ok(_) => then,
        },
    )
}

pub open spec fn repair_call(dir: Seq<char>, paths: Seq<Seq<char>>) -> GitCallView {
    GitCallView { dir, args: seq!["worktree"@, "repair"@] + paths, mode: GitMode::Output }
}

pub open spec fn plain_list_call(dir: Seq<char>) -> GitCallView {
    GitCallView { dir, args: seq!["worktree"@, "list"@], mode: GitMode::Output }
}

pub open spec fn verify_lines(ls: Seq<Seq<char>>, i: int, then: Prog) -> Prog
    decreases ls.len() - i,
{
    if i < 0 || i >= ls.len() {
        then
    } else {
        say(Level::Info, "  "@ + ls[i], verify_lines(ls, i + 1, then))
    }
}

/// Where the moves went, but for the bare directory's new place.
pub open spec fn dests_except(done: Seq<(Seq<char>, Seq<char>)>, nb: Seq<char>) -> Seq<Seq<char>>
    decreases done.len(),
{
    if done.len() == 0 {
        seq![]
    } else {
        let rest = dests_except(done.drop_last(), nb);
        if done.last().1 != nb {
            rest.push(done.last().1)
        } else {
            rest
        }
    }
}

/// The paths that `worktree repair` is given: the moved worktrees (not the
/// bare directory) and the external ones.
pub open spec fn repair_paths(done: Seq<(Seq<char>, Seq<char>)>, nb: Seq<char>, ext: Seq<Seq<char>>) -> Seq<Seq<char>> {
    dests_except(done, nb) + ext
}

/// After the moves: configure the new bare directory, repair the
/// worktrees, remove the old worktree folder when empty, show `worktree
/// list`, and sum up.
pub open spec fn finish_prog(
    ctx: ProjectContextView,
    nb: Seq<char>,
    eff: Seq<char>,
    paths: Seq<Seq<char>>,
    n_int: nat,
    n_ext: nat,
) -> Prog {
    let summary = say(
        Level::Success,
        "Migration complete: "@ + ctx.project_name + " -> modern layout"@,
        say(
            Level::Info,
            "  "@ + decimal(n_int) + " worktree(s) moved"@,
            if n_ext > 0 {
                say(Level::Info, "  "@ + decimal(n_ext) + " external worktree(s) repaired in-place"@, Prog::Finish(Ok(())))
            } else {
                Prog::Finish(Ok(()))
            },
        ),
    );
    let verify = git(
        plain_list_call(nb),
        |r: GitReplyView| match output_of(r) {
            Err(_) => Prog::Finish(Err("verification failed: git worktree list"@)),
            Ok(out) => say(Level::Info, "Verification:"@, verify_lines(lines(out), 0, summary)),
        },
    );
    let old_trees = path_join(nb, ctx.worktree_folder);
    let cleanup = fs(
        FsQueryView::Exists(old_trees),
        |a: FsReplyView| if a is Yes {
            then_do(EffectView::RemoveDir(old_trees), verify)
        } else {
            verify
        },
    );
    git_ctx(
        set_config_call(nb, "core.bare"@, "true"@),
        "failed to set core.bare config"@,
        git_ctx(
            set_config_call(nb, "wt.layout"@, "modern"@),
            "failed to set wt.layout config"@,
            git_ctx(
                set_config_call(nb, "wt.baredir"@, eff),
                "failed to set wt.baredir config"@,
                if paths.len() > 0 {
                    git_ctx(repair_call(nb, paths), "git worktree repair failed"@, cleanup)
                } else {
                    cleanup
                },
            ),
        ),
    )
}

/// Move the bare directory last.
pub open spec fn bare_move(
    ctx: ProjectContextView,
    nb: Seq<char>,
    eff: Seq<char>,
    ext: Seq<Seq<char>>,
    n_int: nat,
) -> spec_fn(Seq<(Seq<char>, Seq<char>)>) -> Prog {
    |done: Seq<(Seq<char>, Seq<char>)>| then_do(
        EffectView::Progress("Moving bare repository"@),
        Prog::Do(
            EffectView::Rename { from: ctx.project_dir, to: nb },
            |o: OutcomeView| match done_of(o) {
                Err(e) => then_do(
                    EffectView::ProgressDone(Status::Error, "Failed to move bare repository"@),
                    rollback_prog(
                        done,
                        done.len() as int,
                        seq![],
                        fail_with("Failed to move "@ + ctx.project_dir + " -> "@ + nb + ": "@ + e),
                    ),
                ),
                Ok(_) => then_do(
                    EffectView::ProgressDone(Status::Success, "Bare repository moved"@),
                    finish_prog(ctx, nb, eff, repair_paths(done, nb, ext), n_int, ext.len()),
                ),
            },
        ),
    )
}

/// Move the worktrees from `i` on, remembering the moves made.
pub open spec fn move_each(
    ints: Seq<(Seq<char>, Seq<char>)>,
    root: Seq<char>,
    i: int,
    done: Seq<(Seq<char>, Seq<char>)>,
    then: spec_fn(Seq<(Seq<char>, Seq<char>)>) -> Prog,
) -> Prog
    decreases ints.len() - i,
{
    if i < 0 || i >= ints.len() {
        then(done)
    } else {
        let old = ints[i].0;
        let leaf = ints[i].1;
        let new = path_join(root, leaf);
        then_do(
            EffectView::Progress("Moving worktree '"@ + leaf + "'"@),
            Prog::Do(
                EffectView::Rename { from: old, to: new },
                |o: OutcomeView| match done_of(o) {
                    Err(e) => then_do(
                        EffectView::ProgressDone(Status::Error, "Failed to move '"@ + leaf + "'"@),
                        rollback_prog(
                            done,
                            done.len() as int,
                            seq![],
                            fail_with("Failed to move "@ + old + " -> "@ + new + ": "@ + e),
                        ),
                    ),
                    Ok(_) => then_do(
                        EffectView::ProgressDone(Status::Success, "Moved '"@ + leaf + "'"@),
                        move_each(ints, root, i + 1, done.push((old, new)), then),
                    ),
                },
            ),
        )
    }
}

/// Once confirmed: leave the bare directory if it is the current one (or
/// holds it), then move.
pub open spec fn after_migrate_confirm(
    ctx: ProjectContextView,
    root: Seq<char>,
    nb: Seq<char>,
    eff: Seq<char>,
    ints: Seq<(Seq<char>, Seq<char>)>,
    ext: Seq<Seq<char>>,
) -> spec_fn(Result<bool, Seq<char>>) -> Prog {
    |a: Result<bool, Seq<char>>| match a {
        Err(m) => Prog::Finish(Err(m)),
        Ok(false) => say(Level::Info, "Cancelled."@, Prog::Finish(Ok(()))),
        Ok(true) => fs(FsQueryView::CurrentDir, after_cwd(ctx, root, nb, eff, ints, ext)),
    }
}

/// Leave the bare directory if the current directory is in it, then move.
pub open spec fn after_cwd(
    ctx: ProjectContextView,
    root: Seq<char>,
    nb: Seq<char>,
    eff: Seq<char>,
    ints: Seq<(Seq<char>, Seq<char>)>,
    ext: Seq<Seq<char>>,
) -> spec_fn(FsReplyView) -> Prog {
    |c: FsReplyView| {
        let go = move_each(ints, root, 0, seq![], bare_move(ctx, nb, eff, ext, ints.len()));
        match c {
            FsReplyView::Text(cwd) => if path_starts_with(cwd, ctx.project_dir) && path_parent(root) is Some {
                then_do(EffectView::EnterDir(path_parent(root)->Some_0), go)
            } else {
                go
            },
            _ => go,
        }
    }
}

/// Everything after the worktrees are listed: collisions, uncommitted
/// changes, the plan, and (unless a dry run) the moves after asking.
pub open spec fn plan_prog(
    ctx: ProjectContextView,
    eff: Seq<char>,
    root: Seq<char>,
    nb: Seq<char>,
    ws: Seq<WorktreeView>,
    dry_run: bool,
    yes: bool,
) -> Prog {
    let ints = internal_of(ws, ctx.project_dir);
    let ext = external_of(ws, ctx.project_dir);
    let decide = if dry_run {
        say(Level::Info, "Dry run -- no changes made."@, Prog::Finish(Ok(())))
    } else {
        confirm("Proceed with migration?"@, yes, after_migrate_confirm(ctx, root, nb, eff, ints, ext))
    };
    let wl = worktree_lines(ints, root, 0, external_lines(ext, 0, decide));
    let preview = say(
        Level::Header,
        "Migration plan"@,
        say(
            Level::Info,
            "  Bare repo: "@ + ctx.project_dir + " -> "@ + nb,
            if eff != ".git"@ {
                say(Level::Info, "  Bare repo dir: "@ + eff, wl)
            } else {
                wl
            },
        ),
    );
    collisions(ints, root, 0, dirty_report(ws, 0, false, preview))
}

/// The bare directory's new name: the flag, else the configured one, else
/// `.git`.
pub open spec fn effective_bare_dir(flag: Option<Seq<char>>, configured: Option<Seq<char>>) -> Seq<char> {
    match flag {
        Some(b) => b,
        None => match configured {
            Some(b) => b,
            None => ".git"@,
        },
    }
}

/// The migrate command.
pub open spec fn migrate_prog(
    ctx: ProjectContextView,
    configured: Option<Seq<char>>,
    dry_run: bool,
    yes: bool,
    flag: Option<Seq<char>>,
) -> Prog {
    if ctx.layout_type == LayoutType::Modern {
        Prog::Finish(Err("already using modern layout"@))
    } else {
        let eff = effective_bare_dir(flag, configured);
        match path_parent(ctx.project_dir) {
            None => Prog::Finish(Err("migration failed: "@ + "bare repo has no parent directory"@)),
            Some(root) => {
                let nb = path_join(root, eff);
                fs(
                    FsQueryView::Exists(nb),
                    |a: FsReplyView| if a is Yes {
                        Prog::Finish(Err(target_exists_message(eff)))
                    } else {
                        git(
                            worktree_list_call(ctx.project_dir),
                            |r: GitReplyView| match output_of(r) {
                                Err(_) => Prog::Finish(Err(list_failed_message())),
                                Ok(out) => plan_prog(ctx, eff, root, nb, porcelain_worktrees(out), dry_run, yes),
                            },
                        )
                    },
                )
            },
        }
    }
}

// ------------------------------------------------------------------
// Running it
// ------------------------------------------------------------------

pub open spec fn pair_views(v: Seq<(String, String)>) -> Seq<(Seq<char>, Seq<char>)> {
    v.map_values(|p: (String, String)| (p.0@, p.1@))
}

pub open spec fn string_views(v: Seq<String>) -> Seq<Seq<char>> {
    v.map_values(|s: String| s@)
}

fn dir_name_or_exec(w: &Worktree, fallback: &str) -> (r: String)
    ensures
        r@ == dir_name_or(w@, fallback@),
{
    match file_name(w.path.as_str()) {
        Some(n) => n,
        None => fallback.to_string(),
    }
}

/// The worktrees to move (with their names) and those that stay.
fn classify(ws: &Vec<Worktree>, pd: &str) -> (r: (Vec<(String, String)>, Vec<String>))
    ensures
        pair_views(r.0@) == internal_of(worktree_views(ws@), pd@),
        string_views(r.1@) == external_of(worktree_views(ws@), pd@),
{
    let ghost all = worktree_views(ws@);
    let mut ints: Vec<(String, String)> = Vec::new();
    let mut ext: Vec<String> = Vec::new();
    let mut i: usize = 0;
    assert(all.take(0) =~= Seq::<WorktreeView>::empty());
    assert(pair_views(ints@) =~= Seq::<(Seq<char>, Seq<char>)>::empty());
    assert(string_views(ext@) =~= Seq::<Seq<char>>::empty());
    while i < ws.len()
        invariant
            i <= ws@.len(),
            all == worktree_views(ws@),
            pair_views(ints@) == internal_of(all.take(i as int), pd@),
            string_views(ext@) == external_of(all.take(i as int), pd@),
        decreases ws.len() - i,
    {
        proof {
            assert(all.take(i + 1).drop_last() =~= all.take(i as int));
            assert(all.take(i + 1).last() == ws@[i as int]@);
        }
        let w = &ws[i];
        if !w.is_bare {
            if starts_with_path(w.path.as_str(), pd) {
                let ghost before = pair_views(ints@);
                ints.push((w.path.clone(), dir_name_or_exec(w, "unknown")));
                assert(pair_views(ints@) =~= before.push((w@.path, dir_name_or(w@, "unknown"@))));
            } else {
                let ghost before = string_views(ext@);
                ext.push(w.path.clone());
                assert(string_views(ext@) =~= before.push(w@.path));
            }
        }
        i = i + 1;
    }
    assert(all.take(ws@.len() as int) =~= all);
    (ints, ext)
}

fn check_collisions(rn: &mut Runner, ints: &Vec<(String, String)>, root: &str, Ghost(then): Ghost<Prog>) -> (r: Result<(), Effect>)
    requires
        old(rn).consistent(),
        old(rn).prog@ == collisions(pair_views(ints@), root@, 0, then),
    ensures
        final(rn).consistent(),
        final(rn).outcomes == old(rn).outcomes,
        final(rn).whole == old(rn).whole,
        match r {
            Ok(()) => final(rn).prog@ == then,
            Err(e) => effect_view(e) == next_effect(old(rn).whole@, old(rn).views()),
        },
{
    let ghost iv = pair_views(ints@);
    let mut i: usize = 0;
    while i < ints.len()
        invariant
            i <= ints@.len(),
            iv == pair_views(ints@),
            rn.consistent(),
            rn.outcomes == old(rn).outcomes,
            rn.whole == old(rn).whole,
            rn.prog@ == collisions(iv, root@, i as int, then),
        decreases ints.len() - i,
    {
        let target = join(root, ints[i].1.as_str());
        let o = match rn.perform(Effect::Fs(FsQuery::Exists(target))) {
            Err(e) => {
                return Err(e);
            },
            Ok(o) => o,
        };
        match fs_answer_of(&rn.outcomes[o]) {
            FsReply::Yes => {
                return Err(rn.finish(Err(LazywtError::MigrateTargetExists(ints[i].1.clone()).message())));
            },
            _ => {},
        }
        i = i + 1;
    }
    Ok(())
}

fn report_dirty(rn: &mut Runner, ws: &Vec<Worktree>, Ghost(then): Ghost<Prog>) -> (r: Result<(), Effect>)
    requires
        old(rn).consistent(),
        old(rn).prog@ == dirty_report(worktree_views(ws@), 0, false, then),
    ensures
        final(rn).consistent(),
        final(rn).outcomes == old(rn).outcomes,
        final(rn).whole == old(rn).whole,
        match r {
            Ok(()) => final(rn).prog@ == then,
            Err(e) => effect_view(e) == next_effect(old(rn).whole@, old(rn).views()),
        },
{
    let ghost wv = worktree_views(ws@);
    let mut warned = false;
    let mut i: usize = 0;
    while i < ws.len()
        invariant
            i <= ws@.len(),
            wv == worktree_views(ws@),
            rn.consistent(),
            rn.outcomes == old(rn).outcomes,
            rn.whole == old(rn).whole,
            rn.prog@ == dirty_report(wv, i as int, warned, then),
        decreases ws.len() - i,
    {
        assert(wv[i as int] == ws@[i as int]@);
        let w = &ws[i];
        if !w.is_bare {
            let empty: Vec<GitReply> = Vec::new();
            let c = match count_dirty_files(w.path.as_str(), &empty) {
                GitStep::Run(c) => c,
                GitStep::Done(_) => {
                    return Err(rn.finish(Err(String::new())));
                },
            };
            let o = match rn.perform(Effect::Git(c)) {
                Err(e) => {
                    return Err(e);
                },
                Ok(o) => o,
            };
            let mut replies: Vec<GitReply> = Vec::new();
            replies.push(reply_of(&rn.outcomes[o]));
            assert(reply_views(replies@)[0] == crate::commands::effects::git_reply_of(
                crate::commands::effects::outcome_view(rn.outcomes@[o as int]),
            ));
            let n = match count_dirty_files(w.path.as_str(), &replies) {
                GitStep::Done(n) => n,
                GitStep::Run(_) => {
                    return Err(rn.finish(Err(String::new())));
                },
            };
            if n > 0 {
                if !warned {
                    match rn.perform(say_exec(Level::Warning, "Warning: some worktrees have uncommitted changes:".to_string())) {
                        Err(e) => {
                            return Err(e);
                        },
                        Ok(_) => {},
                    }
                    warned = true;
                }
                let text = join5(
                    "  ",
                    dir_name_or_exec(w, "unknown").as_str(),
                    " has ",
                    usize_text(n).as_str(),
                    " uncommitted change(s)",
                );
                match rn.perform(say_exec(Level::Warning, text)) {
                    Err(e) => {
                        return Err(e);
                    },
                    Ok(_) => {},
                }
            }
        }
        i = i + 1;
    }
    Ok(())
}

/// Move back the completed moves, last first; the failures.
fn rollback(
    rn: &mut Runner,
    moves: &Vec<(String, String)>,
    Ghost(k): Ghost<spec_fn(Seq<Seq<char>>) -> Prog>,
) -> (r: Result<Vec<String>, Effect>)
    requires
        old(rn).consistent(),
        old(rn).prog@ == rollback_prog(pair_views(moves@), moves@.len() as int, seq![], k),
    ensures
        final(rn).consistent(),
        final(rn).outcomes == old(rn).outcomes,
        final(rn).whole == old(rn).whole,
        match r {
            Ok(errs) => final(rn).prog@ == k(string_views(errs@)),
            Err(e) => effect_view(e) == next_effect(old(rn).whole@, old(rn).views()),
        },
{
    let ghost mv = pair_views(moves@);
    let mut errs: Vec<String> = Vec::new();
    let mut n: usize = moves.len();
    assert(string_views(errs@) =~= Seq::<Seq<char>>::empty());
    while n > 0
        invariant
            n <= moves@.len(),
            mv == pair_views(moves@),
            rn.consistent(),
            rn.outcomes == old(rn).outcomes,
            rn.whole == old(rn).whole,
            rn.prog@ == rollback_prog(mv, n as int, string_views(errs@), k),
        decreases n,
    {
        let m = &moves[n - 1];
        let o = match rn.perform(Effect::Rename { from: m.1.clone(), to: m.0.clone() }) {
            Err(e) => {
                return Err(e);
            },
            Ok(o) => o,
        };
        match done_result_of(&rn.outcomes[o]) {
            Ok(()) => {},
            Err(e) => {
                let ghost before = string_views(errs@);
                let text = join3(join4("Failed to rollback ", m.1.as_str(), " -> ", m.0.as_str()).as_str(), ": ", e.as_str());
                errs.push(text);
                assert(string_views(errs@) =~= before.push(
                    "Failed to rollback "@ + mv[n - 1].1 + " -> "@ + mv[n - 1].0 + ": "@ + e@,
                ));
            },
        }
        n = n - 1;
    }
    Ok(errs)
}

/// The message for a failed move.
fn failure_message(base: &str, errs: &Vec<String>) -> (r: String)
    ensures
        r@ == "migration failed: "@ + failure_text(base@, string_views(errs@)),
{
    let ghost ev = string_views(errs@);
    if errs.len() == 0 {
        return join_str("migration failed: ", base);
    }
    let mut text = join3("migration failed: ", base, "\nRollback also failed:\n");
    let ghost head = text@;
    let mut i: usize = 0;
    assert(ev.take(0) =~= Seq::<Seq<char>>::empty());
    assert(text@ =~= head + rollback_lines(ev.take(0)));
    while i < errs.len()
        invariant
            i <= errs@.len(),
            ev == string_views(errs@),
            head == "migration failed: "@ + base@ + "\nRollback also failed:\n"@,
            text@ == head + rollback_lines(ev.take(i as int)),
        decreases errs.len() - i,
    {
        proof {
            assert(ev.take(i + 1).drop_last() =~= ev.take(i as int));
            assert(ev.take(i + 1).last() == errs@[i as int]@);
        }
        text = join4(text.as_str(), "  ", errs[i].as_str(), "\n");
        i = i + 1;
    }
    assert(ev.take(errs@.len() as int) =~= ev);
    text
}

/// Move the worktrees; on a failure, move back and end the command.
fn move_worktrees(
    rn: &mut Runner,
    ints: &Vec<(String, String)>,
    root: &str,
    Ghost(then): Ghost<spec_fn(Seq<(Seq<char>, Seq<char>)>) -> Prog>,
) -> (r: Result<Vec<(String, String)>, Effect>)
    requires
        old(rn).consistent(),
        old(rn).prog@ == move_each(pair_views(ints@), root@, 0, seq![], then),
    ensures
        final(rn).consistent(),
        final(rn).outcomes == old(rn).outcomes,
        final(rn).whole == old(rn).whole,
        match r {
            Ok(done) => final(rn).prog@ == then(pair_views(done@)),
            Err(e) => effect_view(e) == next_effect(old(rn).whole@, old(rn).views()),
        },
{
    let ghost iv = pair_views(ints@);
    let mut done: Vec<(String, String)> = Vec::new();
    assert(pair_views(done@) =~= Seq::<(Seq<char>, Seq<char>)>::empty());
    let mut i: usize = 0;
    while i < ints.len()
        invariant
            i <= ints@.len(),
            iv == pair_views(ints@),
            rn.consistent(),
            rn.outcomes == old(rn).outcomes,
            rn.whole == old(rn).whole,
            rn.prog@ == move_each(iv, root@, i as int, pair_views(done@), then),
        decreases ints.len() - i,
    {
        let old_path = ints[i].0.clone();
        let leaf = ints[i].1.clone();
        let new_path = join(root, leaf.as_str());
        match rn.perform(Effect::Progress(join3("Moving worktree '", leaf.as_str(), "'"))) {
            Err(e) => {
                return Err(e);
            },
            Ok(_) => {},
        }
        let o = match rn.perform(Effect::Rename { from: old_path.clone(), to: new_path.clone() }) {
            Err(e) => {
                return Err(e);
            },
            Ok(o) => o,
        };
        match done_result_of(&rn.outcomes[o]) {
            Err(e) => {
                match rn.perform(Effect::ProgressDone(Status::Error, join3("Failed to move '", leaf.as_str(), "'"))) {
                    Err(x) => {
                        return Err(x);
                    },
                    Ok(_) => {},
                }
                let base = join3(join4("Failed to move ", old_path.as_str(), " -> ", new_path.as_str()).as_str(), ": ", e.as_str());
                let errs = match rollback(rn, &done, Ghost(fail_with(base@))) {
                    Err(x) => {
                        return Err(x);
                    },
                    Ok(errs) => errs,
                };
                return Err(rn.finish(Err(failure_message(base.as_str(), &errs))));
            },
            Ok(()) => {},
        }
        match rn.perform(Effect::ProgressDone(Status::Success, join3("Moved '", leaf.as_str(), "'"))) {
            Err(e) => {
                return Err(e);
            },
            Ok(_) => {},
        }
        let ghost before = pair_views(done@);
        done.push((old_path, new_path));
        assert(pair_views(done@) =~= before.push((iv[i as int].0, path_join(root@, iv[i as int].1))));
        i = i + 1;
    }
    Ok(done)
}

/// The paths to repair.
fn repair_paths_exec(done: &Vec<(String, String)>, nb: &str, ext: &Vec<String>) -> (r: Vec<String>)
    ensures
        string_views(r@) == repair_paths(pair_views(done@), nb@, string_views(ext@)),
{
    let ghost dv = pair_views(done@);
    let nbv = chars_of(nb);
    let mut out: Vec<String> = Vec::new();
    let mut i: usize = 0;
    assert(dv.take(0) =~= Seq::<(Seq<char>, Seq<char>)>::empty());
    assert(string_views(out@) =~= Seq::<Seq<char>>::empty());
    while i < done.len()
        invariant
            i <= done@.len(),
            dv == pair_views(done@),
            nbv@ == nb@,
            string_views(out@) == dests_except(dv.take(i as int), nb@),
        decreases done.len() - i,
    {
        proof {
            assert(dv.take(i + 1).drop_last() =~= dv.take(i as int));
            assert(dv.take(i + 1).last() == dv[i as int]);
        }
        if !chars_eq(&chars_of(done[i].1.as_str()), &nbv) {
            let ghost before = string_views(out@);
            out.push(done[i].1.clone());
            assert(string_views(out@) =~= before.push(dv[i as int].1));
        }
        i = i + 1;
    }
    assert(dv.take(done@.len() as int) =~= dv);
    let ghost moved = string_views(out@);
    let mut j: usize = 0;
    while j < ext.len()
        invariant
            j <= ext@.len(),
            string_views(out@) == moved + string_views(ext@).take(j as int),
        decreases ext.len() - j,
    {
        let ghost before = string_views(out@);
        out.push(ext[j].clone());
        assert(string_views(out@) =~= before.push(ext@[j as int]@));
        assert(string_views(ext@).take(j + 1) =~= string_views(ext@).take(j as int).push(ext@[j as int]@));
        j = j + 1;
    }
    assert(string_views(ext@).take(ext@.len() as int) =~= string_views(ext@));
    out
}

fn git_ctx_exec(rn: &mut Runner, c: GitCall, msg: &str, Ghost(then): Ghost<Prog>) -> (r: Result<(), Effect>)
    requires
        old(rn).consistent(),
        old(rn).prog@ == git_ctx(c@, msg@, then),
    ensures
        final(rn).consistent(),
        final(rn).outcomes == old(rn).outcomes,
        final(rn).whole == old(rn).whole,
        match r {
            Ok(()) => final(rn).prog@ == then,
            Err(e) => effect_view(e) == next_effect(old(rn).whole@, old(rn).views()),
        },
{
    let o = match rn.perform(Effect::Git(c)) {
        Err(e) => {
            return Err(e);
        },
        Ok(o) => o,
    };
    match reply_of(&rn.outcomes[o]) {
        GitReply::Success(_) => Ok(()),
        _ => Err(rn.finish(Err(msg.to_string()))),
    }
}

fn usize_text(n: usize) -> (r: String)
    ensures
        r@ == decimal(n as nat),
{
    string_of(&u64_to_chars(n as u64))
}

/// Configure, repair, clean up, verify and sum up.
fn finish_migration(
    rn: &mut Runner,
    ctx: &ProjectContext,
    nb: &str,
    eff: &str,
    paths: &Vec<String>,
    n_int: usize,
    n_ext: usize,
) -> (e: Effect)
    requires
        old(rn).consistent(),
        old(rn).prog@ == finish_prog(ctx@, nb@, eff@, string_views(paths@), n_int as nat, n_ext as nat),
    ensures
        effect_view(e) == next_effect(old(rn).whole@, old(rn).views()),
{
    let ghost pv = string_views(paths@);
    let ghost summary = say(
        Level::Success,
        "Migration complete: "@ + ctx@.project_name + " -> modern layout"@,
        say(
            Level::Info,
            "  "@ + decimal(n_int as nat) + " worktree(s) moved"@,
            if n_ext > 0 {
                say(Level::Info, "  "@ + decimal(n_ext as nat) + " external worktree(s) repaired in-place"@, Prog::Finish(Ok(())))
            } else {
                Prog::Finish(Ok(()))
            },
        ),
    );
    let ghost verify = git(
        plain_list_call(nb@),
        |r: GitReplyView| match output_of(r) {
            Err(_) => Prog::Finish(Err("verification failed: git worktree list"@)),
            Ok(out) => say(Level::Info, "Verification:"@, verify_lines(lines(out), 0, summary)),
        },
    );
    let old_trees = join(nb, ctx.worktree_folder.as_str());
    let ghost cleanup = fs(
        FsQueryView::Exists(old_trees@),
        |a: FsReplyView| if a is Yes {
            then_do(EffectView::RemoveDir(old_trees@), verify)
        } else {
            verify
        },
    );
    let ghost after_config = if pv.len() > 0 {
        git_ctx(repair_call(nb@, pv), "git worktree repair failed"@, cleanup)
    } else {
        cleanup
    };
    let ghost third = git_ctx(set_config_call(nb@, "wt.baredir"@, eff@), "failed to set wt.baredir config"@, after_config);
    let ghost second = git_ctx(set_config_call(nb@, "wt.layout"@, "modern"@), "failed to set wt.layout config"@, third);
    match git_ctx_exec(rn, make_call(nb, args3("config", "core.bare", "true"), GitMode::Output), "failed to set core.bare config", Ghost(second)) {
        Err(e) => {
            return e;
        },
        Ok(()) => {},
    }
    match git_ctx_exec(rn, make_call(nb, args3("config", "wt.layout", "modern"), GitMode::Output), "failed to set wt.layout config", Ghost(third)) {
        Err(e) => {
            return e;
        },
        Ok(()) => {},
    }
    match git_ctx_exec(rn, make_call(nb, args3("config", "wt.baredir", eff), GitMode::Output), "failed to set wt.baredir config", Ghost(after_config)) {
        Err(e) => {
            return e;
        },
        Ok(()) => {},
    }
    if paths.len() > 0 {
        let mut args = args2("worktree", "repair");
        let ghost start = arg_views(args@);
        let mut j: usize = 0;
        while j < paths.len()
            invariant
                j <= paths@.len(),
                start == seq!["worktree"@, "repair"@],
                pv == string_views(paths@),
                arg_views(args@) == start + pv.take(j as int),
            decreases paths.len() - j,
        {
            let ghost before = arg_views(args@);
            args.push(paths[j].clone());
            assert(arg_views(args@) =~= before.push(paths@[j as int]@));
            assert(pv.take(j + 1) =~= pv.take(j as int).push(paths@[j as int]@));
            j = j + 1;
        }
        assert(pv.take(paths@.len() as int) =~= pv);
        match git_ctx_exec(rn, make_call(nb, args, GitMode::Output), "git worktree repair failed", Ghost(cleanup)) {
            Err(e) => {
                return e;
            },
            Ok(()) => {},
        }
    }
    let o = match rn.perform(Effect::Fs(FsQuery::Exists(old_trees.clone()))) {
        Err(e) => {
            return e;
        },
        Ok(o) => o,
    };
    match fs_answer_of(&rn.outcomes[o]) {
        FsReply::Yes => {
            match rn.perform(Effect::RemoveDir(old_trees)) {
                Err(e) => {
                    return e;
                },
                Ok(_) => {},
            }
        },
        _ => {},
    }
    let o = match rn.perform(Effect::Git(make_call(nb, args2("worktree", "list"), GitMode::Output))) {
        Err(e) => {
            return e;
        },
        Ok(o) => o,
    };
    let out = match reply_of(&rn.outcomes[o]) {
        GitReply::Success(out) => out,
        _ => {
            return rn.finish(Err("verification failed: git worktree list".to_string()));
        },
    };
    match rn.perform(say_exec(Level::Info, "Verification:".to_string())) {
        Err(e) => {
            return e;
        },
        Ok(_) => {},
    }
    let ls = split_lines(&chars_of(out.as_str()));
    let ghost lv = crate::text::views(ls@);
    let mut i: usize = 0;
    while i < ls.len()
        invariant
            i <= ls@.len(),
            lv == crate::text::views(ls@),
            lv == lines(out@),
            rn.consistent(),
            rn.outcomes == old(rn).outcomes,
            rn.whole == old(rn).whole,
            rn.prog@ == verify_lines(lv, i as int, summary),
        decreases ls.len() - i,
    {
        match rn.perform(say_exec(Level::Info, join_str("  ", string_of(&ls[i]).as_str()))) {
            Err(e) => {
                return e;
            },
            Ok(_) => {},
        }
        i = i + 1;
    }
    match rn.perform(say_exec(Level::Success, join3("Migration complete: ", ctx.project_name.as_str(), " -> modern layout"))) {
        Err(e) => {
            return e;
        },
        Ok(_) => {},
    }
    match rn.perform(say_exec(Level::Info, join3("  ", usize_text(n_int).as_str(), " worktree(s) moved"))) {
        Err(e) => {
            return e;
        },
        Ok(_) => {},
    }
    if n_ext > 0 {
        match rn.perform(say_exec(Level::Info, join3("  ", usize_text(n_ext).as_str(), " external worktree(s) repaired in-place"))) {
            Err(e) => {
                return e;
            },
            Ok(_) => {},
        }
    }
    rn.finish(Ok(()))
}

/// Show the migration plan.
fn show_plan(
    rn: &mut Runner,
    dir: &str,
    nb: &str,
    eff: &str,
    root: &str,
    ints: &Vec<(String, String)>,
    ext: &Vec<String>,
    Ghost(decide): Ghost<Prog>,
) -> (r: Result<(), Effect>)
    requires
        old(rn).consistent(),
        old(rn).prog@ == say(
            Level::Header,
            "Migration plan"@,
            say(
                Level::Info,
                "  Bare repo: "@ + dir@ + " -> "@ + nb@,
                if eff@ != ".git"@ {
                    say(
                        Level::Info,
                        "  Bare repo dir: "@ + eff@,
                        worktree_lines(pair_views(ints@), root@, 0, external_lines(string_views(ext@), 0, decide)),
                    )
                } else {
                    worktree_lines(pair_views(ints@), root@, 0, external_lines(string_views(ext@), 0, decide))
                },
            ),
        ),
    ensures
        final(rn).consistent(),
        final(rn).outcomes == old(rn).outcomes,
        final(rn).whole == old(rn).whole,
        match r {
            Ok(()) => final(rn).prog@ == decide,
            Err(e) => effect_view(e) == next_effect(old(rn).whole@, old(rn).views()),
        },
{
    let ghost iv = pair_views(ints@);
    let ghost xv = string_views(ext@);
    let ghost xl = external_lines(xv, 0, decide);
    match rn.perform(say_exec(Level::Header, "Migration plan".to_string())) {
        Err(e) => {
            return Err(e);
        },
        Ok(_) => {},
    }
    match rn.perform(say_exec(Level::Info, join4("  Bare repo: ", dir, " -> ", nb))) {
        Err(e) => {
            return Err(e);
        },
        Ok(_) => {},
    }
    if !chars_eq(&chars_of(eff), &chars_of(".git")) {
        match rn.perform(say_exec(Level::Info, join_str("  Bare repo dir: ", eff))) {
            Err(e) => {
                return Err(e);
            },
            Ok(_) => {},
        }
    }
    let mut i: usize = 0;
    while i < ints.len()
        invariant
            i <= ints@.len(),
            iv == pair_views(ints@),
            rn.consistent(),
            rn.outcomes == old(rn).outcomes,
            rn.whole == old(rn).whole,
            rn.prog@ == worktree_lines(iv, root@, i as int, xl),
        decreases ints.len() - i,
    {
        let text = join4("  Worktree: ", ints[i].0.as_str(), " -> ", join(root, ints[i].1.as_str()).as_str());
        match rn.perform(say_exec(Level::Info, text)) {
            Err(e) => {
                return Err(e);
            },
            Ok(_) => {},
        }
        i = i + 1;
    }
    let mut j: usize = 0;
    while j < ext.len()
        invariant
            j <= ext@.len(),
            xv == string_views(ext@),
            rn.consistent(),
            rn.outcomes == old(rn).outcomes,
            rn.whole == old(rn).whole,
            rn.prog@ == external_lines(xv, j as int, decide),
        decreases ext.len() - j,
    {
        match rn.perform(say_exec(Level::Info, join_str("  External (not moved): ", ext[j].as_str()))) {
            Err(e) => {
                return Err(e);
            },
            Ok(_) => {},
        }
        j = j + 1;
    }
    Ok(())
}

/// Move, configure and verify.
fn execute(
    rn: &mut Runner,
    ctx: &ProjectContext,
    root: &str,
    nb: &str,
    eff: &str,
    ints: &Vec<(String, String)>,
    ext: &Vec<String>,
) -> (e: Effect)
    requires
        old(rn).consistent(),
        old(rn).prog@ == fs(
            FsQueryView::CurrentDir,
            after_cwd(ctx@, root@, nb@, eff@, pair_views(ints@), string_views(ext@)),
        ),
    ensures
        effect_view(e) == next_effect(old(rn).whole@, old(rn).views()),
{
    let dir = ctx.project_dir.as_str();
    let ghost iv = pair_views(ints@);
    let ghost xv = string_views(ext@);
    let o = match rn.perform(Effect::Fs(FsQuery::CurrentDir)) {
        Err(e) => {
            return e;
        },
        Ok(o) => o,
    };
    match fs_answer_of(&rn.outcomes[o]) {
        FsReply::Text(cwd) => {
            if starts_with_path(cwd.as_str(), dir) {
                match parent(root) {
                    Some(pp) => {
                        match rn.perform(Effect::EnterDir(pp)) {
                            Err(e) => {
                                return e;
                            },
                            Ok(_) => {},
                        }
                    },
                    None => {},
                }
            }
        },
        _ => {},
    }
    let ghost k = bare_move(ctx@, nb@, eff@, xv, iv.len());
    let done = match move_worktrees(rn, ints, root, Ghost(k)) {
        Err(e) => {
            return e;
        },
        Ok(d) => d,
    };
    let ghost dv = pair_views(done@);
    match rn.perform(Effect::Progress("Moving bare repository".to_string())) {
        Err(e) => {
            return e;
        },
        Ok(_) => {},
    }
    let o = match rn.perform(Effect::Rename { from: ctx.project_dir.clone(), to: nb.to_string() }) {
        Err(e) => {
            return e;
        },
        Ok(o) => o,
    };
    match done_result_of(&rn.outcomes[o]) {
        Err(e) => {
            match rn.perform(Effect::ProgressDone(Status::Error, "Failed to move bare repository".to_string())) {
                Err(x) => {
                    return x;
                },
                Ok(_) => {},
            }
            let base = join3(join4("Failed to move ", dir, " -> ", nb).as_str(), ": ", e.as_str());
            let errs = match rollback(rn, &done, Ghost(fail_with(base@))) {
                Err(x) => {
                    return x;
                },
                Ok(errs) => errs,
            };
            return rn.finish(Err(failure_message(base.as_str(), &errs)));
        },
        Ok(()) => {},
    }
    match rn.perform(Effect::ProgressDone(Status::Success, "Bare repository moved".to_string())) {
        Err(e) => {
            return e;
        },
        Ok(_) => {},
    }
    let paths = repair_paths_exec(&done, nb, ext);
    finish_migration(rn, ctx, nb, eff, &paths, ints.len(), ext.len())
}

/// The migrate command's next effect, given the outcomes of those it asked
/// for so far.
pub fn run(
    ctx: &ProjectContext,
    config: &Config,
    dry_run: bool,
    yes: bool,
    bare_dir: Option<&str>,
    outcomes: &Vec<Outcome>,
) -> (e: Effect)
    ensures
        effect_view(e) == next_effect(
            migrate_prog(ctx@, opt_view(config.bare_dir), dry_run, yes, crate::commands::steps::name_view(bare_dir)),
            outcome_views(outcomes@),
        ),
{
    let mut rn = Runner::new(
        outcomes,
        Ghost(migrate_prog(ctx@, opt_view(config.bare_dir), dry_run, yes, crate::commands::steps::name_view(bare_dir))),
    );
    if ctx.layout_type == LayoutType::Modern {
        return rn.finish(Err(LazywtError::AlreadyModernLayout.message()));
    }
    let eff: String = match bare_dir {
        Some(b) => b.to_string(),
        None => match &config.bare_dir {
            Some(b) => b.clone(),
            None => ".git".to_string(),
        },
    };
    let dir = ctx.project_dir.as_str();
    let root = match parent(dir) {
        None => {
            return rn.finish(Err(LazywtError::MigrateFailed("bare repo has no parent directory".to_string()).message()));
        },
        Some(r) => r,
    };
    let nb = join(root.as_str(), eff.as_str());
    let o = match rn.perform(Effect::Fs(FsQuery::Exists(nb.clone()))) {
        Err(e) => {
            return e;
        },
        Ok(o) => o,
    };
    match fs_answer_of(&rn.outcomes[o]) {
        FsReply::Yes => {
            return rn.finish(Err(LazywtError::MigrateTargetExists(eff.clone()).message()));
        },
        _ => {},
    }
    let o = match rn.perform(Effect::Git(make_call(dir, args3("worktree", "list", "--porcelain"), GitMode::Output))) {
        Err(e) => {
            return e;
        },
        Ok(o) => o,
    };
    let ws = match reply_of(&rn.outcomes[o]) {
        GitReply::Success(out) => parse_worktrees(out.as_str()),
        _ => {
            return rn.finish(Err("Failed to list worktrees. Your git version may not support --porcelain.\n   Please upgrade git to version 2.7 or later.".to_string()));
        },
    };
    let ghost wv = worktree_views(ws@);
    let (ints, ext) = classify(&ws, dir);
    let ghost iv = pair_views(ints@);
    let ghost xv = string_views(ext@);
    let ghost decide = if dry_run {
        say(Level::Info, "Dry run -- no changes made."@, Prog::Finish(Ok(())))
    } else {
        confirm("Proceed with migration?"@, yes, after_migrate_confirm(ctx@, root@, nb@, eff@, iv, xv))
    };
    let ghost xl = external_lines(xv, 0, decide);
    let ghost wl = worktree_lines(iv, root@, 0, xl);
    let ghost preview = say(
        Level::Header,
        "Migration plan"@,
        say(
            Level::Info,
            "  Bare repo: "@ + dir@ + " -> "@ + nb@,
            if eff@ != ".git"@ {
                say(Level::Info, "  Bare repo dir: "@ + eff@, wl)
            } else {
                wl
            },
        ),
    );
    match check_collisions(&mut rn, &ints, root.as_str(), Ghost(dirty_report(wv, 0, false, preview))) {
        Err(e) => {
            return e;
        },
        Ok(()) => {},
    }
    match report_dirty(&mut rn, &ws, Ghost(preview)) {
        Err(e) => {
            return e;
        },
        Ok(()) => {},
    }
    match show_plan(&mut rn, dir, nb.as_str(), eff.as_str(), root.as_str(), &ints, &ext, Ghost(decide)) {
        Err(e) => {
            return e;
        },
        Ok(()) => {},
    }
    if dry_run {
        return match rn.perform(say_exec(Level::Info, "Dry run -- no changes made.".to_string())) {
            Err(e) => e,
            Ok(_) => rn.finish(Ok(())),
        };
    }
    let o = match rn.perform(Effect::Confirm { message: "Proceed with migration?".to_string(), assume_yes: yes }) {
        Err(e) => {
            return e;
        },
        Ok(o) => o,
    };
    match answer_result_of(&rn.outcomes[o]) {
        Err(m) => {
            return rn.finish(Err(m));
        },
        Ok(false) => {
            return match rn.perform(say_exec(Level::Info, "Cancelled.".to_string())) {
                Err(e) => e,
                Ok(_) => rn.finish(Ok(())),
            };
        },
        Ok(true) => {},
    }
    execute(&mut rn, ctx, root.as_str(), nb.as_str(), eff.as_str(), &ints, &ext)
}

} // verus!
