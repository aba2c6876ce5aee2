//! Removing one worktree and its branch, never the default branch's, with
//! a warning when files copied into it have changed.
use vstd::prelude::*;

use crate::commands::copy_files::{differing_files_exec, differing_files_prog};
use crate::commands::effects::{confirm, drive, effect_view, fs, fs_answer_of, git, lines_of, lines_result_of, next_effect, outcome_views, reply_of, say, then_do, answer_result_of, Effect, EffectView, Level, Outcome, OutcomeView, Prog, Runner};
use crate::commands::steps::{default_plan, drive_default_branch, find_worktree_by_name, say_exec, succeeded, succeeded_exec, worktree_named, worktree_on, worktree_on_exec};
use crate::config::schema::{clone_strings, string_views};
use crate::config::Config;
use crate::error::LazywtError;
use crate::git::operations::{FsQuery, FsQueryView, FsReply, FsReplyView};
use crate::git::worktree::{list_failed_message, parse_porcelain as parse_worktrees, porcelain_worktrees, worktree_list_call, Worktree, WorktreeView};
use crate::git::{args3, args4, make_call, output_of, reply_message, GitCallView, GitMode, GitReply, GitReplyView};
use crate::layout::{ProjectContext, ProjectContextView};
use crate::output::Status;
use crate::text::{chars_eq, chars_of, join3, join_str, opt_view};

verus! {

pub open spec fn remove_call(dir: Seq<char>, path: Seq<char>) -> GitCallView {
    GitCallView { dir, args: seq!["worktree"@, "remove"@, path, "--force"@], mode: GitMode::Output }
}

pub open spec fn branch_delete_call(dir: Seq<char>, branch: Seq<char>) -> GitCallView {
    GitCallView { dir, args: seq!["branch"@, "-D"@, branch], mode: GitMode::Output }
}

/// One warning line per differing file, from `i` on.
pub open spec fn diff_lines(ds: Seq<Seq<char>>, i: int, then: Prog) -> Prog
    decreases ds.len() - i,
{
    if i < 0 || i >= ds.len() {
        then
    } else {
        say(Level::Warning, "    - "@ + ds[i], diff_lines(ds, i + 1, then))
    }
}

/// Warn about the changed copies, if any.
pub open spec fn report_differences(then: Prog) -> spec_fn(Seq<Seq<char>>) -> Prog {
    |ds: Seq<Seq<char>>| if ds.len() == 0 {
        then
    } else {
        say(
            Level::Warning,
            "  Warning: Copy-tracked files differ from default worktree:"@,
            diff_lines(
                ds,
                0,
                say(
                    Level::Warning,
                    "  These changes will be lost when the worktree is removed."@,
                    say(Level::Blank, Seq::empty(), then),
                ),
            ),
        )
    }
}

/// When files are copied into new worktrees, warn about those that differ
/// in the worktree to remove from the default worktree's.
pub open spec fn copy_check(
    dir: Seq<char>,
    target: Seq<char>,
    patterns: Seq<Seq<char>>,
    db: Option<Seq<char>>,
    then: Prog,
) -> Prog {
    if patterns.len() == 0 {
        then
    } else {
        let b = match db {
            Some(x) => x,
            None => "main"@,
        };
        git(
            worktree_list_call(dir),
            |r: GitReplyView| match output_of(r) {
                Err(_) => Prog::Finish(Err(list_failed_message())),
                Ok(out) => match worktree_on(porcelain_worktrees(out), b) {
                    None => then,
                    Some(w) => fs(
                        FsQueryView::Exists(w.path),
                        |a: FsReplyView| if a is Yes {
                            differing_files_prog(target, w.path, patterns, report_differences(then))
                        } else {
                            then
                        },
                    ),
                },
            },
        )
    }
}

/// Delete the worktree's branch, warning when that fails.
pub open spec fn delete_branch(dir: Seq<char>, branch: Option<Seq<char>>, then: Prog) -> Prog {
    match branch {
        None => then,
        Some(b) => git(
            branch_delete_call(dir, b),
            |r: GitReplyView| if succeeded(r) {
                then
            } else {
                say(Level::Warning, "Could not delete branch '"@ + b + "' (it may have already been deleted)"@, then)
            },
        ),
    }
}

pub open spec fn remove_failed_message(details: Seq<char>) -> Seq<char> {
    "Failed to remove worktree. Ensure no programs have files open in the worktree directory.\nDetails: "@
        + details
}

/// What the confirmation leads to.
pub open spec fn after_confirm(dir: Seq<char>, name: Seq<char>, t: WorktreeView) -> spec_fn(Result<bool, Seq<char>>) -> Prog {
    |a: Result<bool, Seq<char>>| match a {
        Err(m) => Prog::Finish(Err(m)),
        Ok(false) => say(Level::Info, "Cancelled."@, Prog::Finish(Ok(()))),
        Ok(true) => then_do(
            EffectView::EnterDir(dir),
            then_do(
                EffectView::Progress("Removing worktree"@),
                git(
                    remove_call(dir, t.path),
                    |r: GitReplyView| match output_of(r) {
                        Err(e) => then_do(
                            EffectView::ProgressDone(Status::Error, "Failed to remove worktree"@),
                            Prog::Finish(Err(remove_failed_message(e))),
                        ),
                        Ok(_) => then_do(
                            EffectView::ProgressDone(Status::Success, "Worktree removed"@),
                            delete_branch(
                                dir,
                                t.branch,
                                say(Level::Success, "Worktree '"@ + name + "' removed"@, Prog::Finish(Ok(()))),
                            ),
                        ),
                    },
                ),
            ),
        ),
    }
}

/// Show what goes, ask, then remove.
pub open spec fn remove_confirmed(dir: Seq<char>, name: Seq<char>, t: WorktreeView, yes: bool) -> Prog {
    let ask = confirm("Remove worktree '"@ + name + "'?"@, yes, after_confirm(dir, name, t));
    say(
        Level::Header,
        "Remove worktree '"@ + name + "'"@,
        say(
            Level::Info,
            "  Path: "@ + t.path,
            match t.branch {
                Some(b) => say(Level::Info, "  Branch: "@ + b, ask),
                None => ask,
            },
        ),
    )
}

/// The default branch's worktree (by name or branch) is protected.
pub open spec fn remove_after_default(
    dir: Seq<char>,
    patterns: Seq<Seq<char>>,
    name: Seq<char>,
    t: WorktreeView,
    yes: bool,
) -> spec_fn(Result<Option<Seq<char>>, Seq<char>>) -> Prog {
    |d: Result<Option<Seq<char>>, Seq<char>>| match d {
        Err(m) => Prog::Finish(Err(m)),
        Ok(db) => if db is Some && (name == db->Some_0 || t.branch == db) {
            Prog::Finish(Err("cannot remove default branch worktree '"@ + name + "'"@))
        } else {
            copy_check(dir, t.path, patterns, db, remove_confirmed(dir, name, t, yes))
        },
    }
}

/// The remove command: find the worktree by its directory name, refuse the
/// default branch's, warn about changed copied files, ask, remove the
/// worktree (forced) and delete its branch.
pub open spec fn remove_prog(ctx: ProjectContextView, patterns: Seq<Seq<char>>, name: Seq<char>, yes: bool) -> Prog {
    let dir = ctx.project_dir;
    git(
        worktree_list_call(dir),
        |r: GitReplyView| match output_of(r) {
            Err(_) => Prog::Finish(Err(list_failed_message())),
            Ok(out) => match worktree_named(porcelain_worktrees(out), name) {
                None => Prog::Finish(Err("worktree '"@ + name + "' not found"@)),
                Some(t) => drive(default_plan(dir), seq![], 4, remove_after_default(dir, patterns, name, t, yes)),
            },
        },
    )
}

fn copy_check_exec(
    rn: &mut Runner,
    dir: &str,
    target: &str,
    patterns: &Vec<String>,
    db: &Option<String>,
    Ghost(then): Ghost<Prog>,
) -> (r: Result<(), Effect>)
    requires
        old(rn).consistent(),
        old(rn).prog@ == copy_check(dir@, target@, string_views(patterns@), opt_view(*db), then),
    ensures
        final(rn).consistent(),
        final(rn).outcomes == old(rn).outcomes,
        final(rn).whole == old(rn).whole,
        match r {
            Ok(()) => final(rn).prog@ == then,
            Err(e) => effect_view(e) == next_effect(old(rn).whole@, old(rn).views()),
        },
{
    if patterns.len() == 0 {
        return Ok(());
    }
    let b = match db {
        Some(x) => x.clone(),
        None => "main".to_string(),
    };
    let o = match rn.perform(Effect::Git(make_call(dir, args3("worktree", "list", "--porcelain"), GitMode::Output))) {
        Err(e) => {
            return Err(e);
        },
        Ok(o) => o,
    };
    let ws = match reply_of(&rn.outcomes[o]) {
        GitReply::Success(out) => parse_worktrees(out.as_str()),
        _ => {
            return Err(rn.finish(Err("Failed to list worktrees. Your git version may not support --porcelain.\n   Please upgrade git to version 2.7 or later.".to_string())));
        },
    };
    let i = match worktree_on_exec(&ws, b.as_str()) {
        None => {
            return Ok(());
        },
        Some(i) => i,
    };
    let source = ws[i].path.clone();
    let o = match rn.perform(Effect::Fs(FsQuery::Exists(source.clone()))) {
        Err(e) => {
            return Err(e);
        },
        Ok(o) => o,
    };
    let present = match fs_answer_of(&rn.outcomes[o]) {
        FsReply::Yes => true,
        _ => false,
    };
    if !present {
        return Ok(());
    }
    let ds = match differing_files_exec(rn, target, source.as_str(), patterns, Ghost(report_differences(then))) {
        Err(e) => {
            return Err(e);
        },
        Ok(ds) => ds,
    };
    report_differences_exec(rn, &ds, Ghost(then))
}

/// Follow `report_differences` for the files found.
fn report_differences_exec(rn: &mut Runner, ds: &Vec<String>, Ghost(then): Ghost<Prog>) -> (r: Result<(), Effect>)
    requires
        old(rn).consistent(),
        old(rn).prog@ == (report_differences(then))(string_views(ds@)),
    ensures
        final(rn).consistent(),
        final(rn).outcomes == old(rn).outcomes,
        final(rn).whole == old(rn).whole,
        match r {
            Ok(()) => final(rn).prog@ == then,
            Err(e) => effect_view(e) == next_effect(old(rn).whole@, old(rn).views()),
        },
{
    let ghost dv = string_views(ds@);
    if ds.len() == 0 {
        return Ok(());
    }
    match rn.perform(say_exec(Level::Warning, "  Warning: Copy-tracked files differ from default worktree:".to_string())) {
        Err(e) => {
            return Err(e);
        },
        Ok(_) => {},
    }
    let ghost tail = say(
        Level::Warning,
        "  These changes will be lost when the worktree is removed."@,
        say(Level::Blank, Seq::empty(), then),
    );
    let mut i: usize = 0;
    while i < ds.len()
        invariant
            i <= ds@.len(),
            dv == string_views(ds@),
            rn.consistent(),
            rn.outcomes == old(rn).outcomes,
            rn.whole == old(rn).whole,
            rn.prog@ == diff_lines(dv, i as int, tail),
        decreases ds.len() - i,
    {
        match rn.perform(say_exec(Level::Warning, join_str("    - ", ds[i].as_str()))) {
            Err(e) => {
                return Err(e);
            },
            Ok(_) => {},
        }
        i = i + 1;
    }
    match rn.perform(say_exec(Level::Warning, "  These changes will be lost when the worktree is removed.".to_string())) {
        Err(e) => {
            return Err(e);
        },
        Ok(_) => {},
    }
    match rn.perform(say_exec(Level::Blank, String::new())) {
        Err(e) => Err(e),
        Ok(_) => Ok(()),
    }
}

/// The remove command's next effect, given the outcomes of those it asked
/// for so far.
pub fn run(ctx: &ProjectContext, config: &Config, name: &str, yes: bool, outcomes: &Vec<Outcome>) -> (e: Effect)
    ensures
        effect_view(e) == next_effect(
            remove_prog(ctx@, string_views(config.copy_files@), name@, yes),
            outcome_views(outcomes@),
        ),
{
    let dir = ctx.project_dir.as_str();
    let mut rn = Runner::new(outcomes, Ghost(remove_prog(ctx@, string_views(config.copy_files@), name@, yes)));
    let o = match rn.perform(Effect::Git(make_call(dir, args3("worktree", "list", "--porcelain"), GitMode::Output))) {
        Err(e) => {
            return e;
        },
        Ok(o) => o,
    };
    let ws = match reply_of(&rn.outcomes[o]) {
        GitReply::Success(out) => parse_worktrees(out.as_str()),
        _ => {
            return rn.finish(Err("Failed to list worktrees. Your git version may not support --porcelain.\n   Please upgrade git to version 2.7 or later.".to_string()));
        },
    };
    let ti = match find_worktree_by_name(&ws, name) {
        None => {
            return rn.finish(Err(LazywtError::WorktreeNotFound(name.to_string()).message()));
        },
        Some(i) => i,
    };
    let t = &ws[ti];
    let ghost tv = t@;
    let ghost pv = string_views(config.copy_files@);
    let db = match drive_default_branch(&mut rn, dir, Ghost(remove_after_default(dir@, pv, name@, tv, yes))) {
        Err(e) => {
            return e;
        },
        Ok(Err(m)) => {
            return rn.finish(Err(m));
        },
        Ok(Ok(db)) => db,
    };
    let protected = match &db {
        Some(d) => {
            let dv = chars_of(d.as_str());
            chars_eq(&chars_of(name), &dv) || match &t.branch {
                Some(b) => chars_eq(&chars_of(b.as_str()), &dv),
                None => false,
            }
        },
        None => false,
    };
    if protected {
        return rn.finish(Err(LazywtError::CannotRemoveDefault(name.to_string()).message()));
    }
    match copy_check_exec(&mut rn, dir, t.path.as_str(), &config.copy_files, &db, Ghost(remove_confirmed(dir@, name@, tv, yes))) {
        Err(e) => {
            return e;
        },
        Ok(()) => {},
    }
    match rn.perform(say_exec(Level::Header, join3("Remove worktree '", name, "'"))) {
        Err(e) => {
            return e;
        },
        Ok(_) => {},
    }
    match rn.perform(say_exec(Level::Info, join_str("  Path: ", t.path.as_str()))) {
        Err(e) => {
            return e;
        },
        Ok(_) => {},
    }
    match &t.branch {
        Some(b) => {
            match rn.perform(say_exec(Level::Info, join_str("  Branch: ", b.as_str()))) {
                Err(e) => {
                    return e;
                },
                Ok(_) => {},
            }
        },
        None => {},
    }
    let o = match rn.perform(Effect::Confirm { message: join3("Remove worktree '", name, "'?"), assume_yes: yes }) {
        Err(e) => {
            return e;
        },
        Ok(o) => o,
    };
    match answer_result_of(&rn.outcomes[o]) {
        Err(m) => {
            return rn.finish(Err(m));
        },
        Ok(false) => {
            return match rn.perform(say_exec(Level::Info, "Cancelled.".to_string())) {
                Err(e) => e,
                Ok(_) => rn.finish(Ok(())),
            };
        },
        Ok(true) => {},
    }
    match rn.perform(Effect::EnterDir(dir.to_string())) {
        Err(e) => {
            return e;
        },
        Ok(_) => {},
    }
    match rn.perform(Effect::Progress("Removing worktree".to_string())) {
        Err(e) => {
            return e;
        },
        Ok(_) => {},
    }
    let o = match rn.perform(Effect::Git(make_call(dir, args4("worktree", "remove", t.path.as_str(), "--force"), GitMode::Output))) {
        Err(e) => {
            return e;
        },
        Ok(o) => o,
    };
    let removed = reply_of(&rn.outcomes[o]);
    if !succeeded_exec(&removed) {
        let details = reply_message(&removed);
        return match rn.perform(Effect::ProgressDone(Status::Error, "Failed to remove worktree".to_string())) {
            Err(e) => e,
            Ok(_) => rn.finish(Err(join_str("Failed to remove worktree. Ensure no programs have files open in the worktree directory.\nDetails: ", details.as_str()))),
        };
    }
    match rn.perform(Effect::ProgressDone(Status::Success, "Worktree removed".to_string())) {
        Err(e) => {
            return e;
        },
        Ok(_) => {},
    }
    match &t.branch {
        Some(b) => {
            let o = match rn.perform(Effect::Git(make_call(dir, args3("branch", "-D", b.as_str()), GitMode::Output))) {
                Err(e) => {
                    return e;
                },
                Ok(o) => o,
            };
            if !succeeded_exec(&reply_of(&rn.outcomes[o])) {
                let msg = join3("Could not delete branch '", b.as_str(), "' (it may have already been deleted)");
                match rn.perform(say_exec(Level::Warning, msg)) {
                    Err(e) => {
                        return e;
                    },
                    Ok(_) => {},
                }
            }
        },
        None => {},
    }
    match rn.perform(say_exec(Level::Success, join3("Worktree '", name, "' removed"))) {
        Err(e) => {
            return e;
        },
        Ok(_) => {},
    }
    rn.finish(Ok(()))
}

/// Warn about the files that the patterns match under `target` and that
/// changed since they were copied from `source`: the next effect, given the
/// outcomes so far.
pub fn check_copy_files_diff(target: &str, source: &str, patterns: &Vec<String>, outcomes: &Vec<Outcome>) -> (e: Effect)
    ensures
        effect_view(e) == next_effect(
            differing_files_prog(target@, source@, string_views(patterns@), report_differences(Prog::Finish(Ok(())))),
            outcome_views(outcomes@),
        ),
{
    let ghost done = Prog::Finish(Ok(()));
    let mut rn = Runner::new(
        outcomes,
        Ghost(differing_files_prog(target@, source@, string_views(patterns@), report_differences(done))),
    );
    let ds = match differing_files_exec(&mut rn, target, source, patterns, Ghost(report_differences(done))) {
        Err(e) => {
            return e;
        },
        Ok(ds) => ds,
    };
    match report_differences_exec(&mut rn, &ds, Ghost(done)) {
        Err(e) => e,
        Ok(()) => rn.finish(Ok(())),
    }
}

} // verus!
