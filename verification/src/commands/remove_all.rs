//! Removing every worktree but the default branch's, going on past
//! failures.
use vstd::prelude::*;

use crate::commands::effects::{answer_result_of, confirm, drive, effect_view, git, next_effect, outcome_views, reply_of, say, then_do, Effect, EffectView, Level, Outcome, Prog, Runner};
use crate::commands::remove::{branch_delete_call, remove_call};
use crate::commands::steps::{default_plan, drive_default_branch, say_exec, succeeded_exec};
use crate::git::worktree::{list_failed_message, parse_porcelain as parse_worktrees, porcelain_worktrees, worktree_list_call, worktree_views, Worktree, WorktreeView};
use crate::git::{args3, args4, make_call, output_of, reply_message, GitMode, GitReply, GitReplyView};
use crate::layout::{ProjectContext, ProjectContextView};
use crate::output::CROSS;
use crate::paths::{file_name, path_file_name};
use crate::text::{chars_eq, chars_of, decimal, join3, join4, opt_view, string_of, u64_to_chars};

verus! {

/// The worktree's directory name, or `fallback`.
pub open spec fn dir_name_or(w: WorktreeView, fallback: Seq<char>) -> Seq<char> {
    match path_file_name(w.path) {
        Some(n) => n,
        None => fallback,
    }
}

/// A worktree that may go: not bare, and neither named after nor on the
/// default branch.
pub open spec fn is_removable(w: WorktreeView, db: Option<Seq<char>>) -> bool {
    !w.is_bare && match db {
        Some(d) => dir_name_or(w, ""@) != d && w.branch != Some(d),
        None => true,
    }
}

/// The removable worktrees, in order.
pub open spec fn removable(ws: Seq<WorktreeView>, db: Option<Seq<char>>) -> Seq<WorktreeView> {
    ws.filter(|w: WorktreeView| is_removable(w, db))
}

/// One line per worktree to remove, from `i` on.
pub open spec fn listed(rs: Seq<WorktreeView>, i: int, then: Prog) -> Prog
    decreases rs.len() - i,
{
    if i < 0 || i >= rs.len() {
        then
    } else {
        say(Level::Info, "  "@ + CROSS@ + " "@ + dir_name_or(rs[i], "unknown"@), listed(rs, i + 1, then))
    }
}

/// Remove the worktrees from `i` on, counting those removed and those that
/// failed; a removed worktree's branch is deleted unless it is the default
/// branch.
pub open spec fn remove_each(dir: Seq<char>, rs: Seq<WorktreeView>, db: Option<Seq<char>>, i: int, removed: nat, failed: nat) -> Prog
    decreases rs.len() - i,
{
    if i < 0 || i >= rs.len() {
        if failed == 0 {
            say(Level::Success, "All "@ + decimal(removed) + " worktrees removed"@, Prog::Finish(Ok(())))
        } else {
            say(Level::Warning, decimal(removed) + " removed, "@ + decimal(failed) + " failed"@, Prog::Finish(Ok(())))
        }
    } else {
        let w = rs[i];
        let name = dir_name_or(w, "unknown"@);
        git(
            remove_call(dir, w.path),
            |r: GitReplyView| match output_of(r) {
                Ok(_) => {
                    let next = say(
                        Level::Success,
                        "Removed '"@ + name + "'"@,
                        remove_each(dir, rs, db, i + 1, removed + 1, failed),
                    );
                    match w.branch {
                        Some(b) => if db != Some(b) {
                            git(branch_delete_call(dir, b), |x: GitReplyView| next)
                        } else {
                            next
                        },
                        None => next,
                    }
                },
                Err(e) => say(
                    Level::Warning,
                    "Failed to remove '"@ + name + "': "@ + e,
                    remove_each(dir, rs, db, i + 1, removed, (failed + 1) as nat),
                ),
            },
        )
    }
}

pub open spec fn after_confirm_all(dir: Seq<char>, rs: Seq<WorktreeView>, db: Option<Seq<char>>) -> spec_fn(
    Result<bool, Seq<char>>,
) -> Prog {
    |a: Result<bool, Seq<char>>| match a {
        Err(m) => Prog::Finish(Err(m)),
        Ok(false) => say(Level::Info, "Cancelled."@, Prog::Finish(Ok(()))),
        Ok(true) => then_do(EffectView::EnterDir(dir), remove_each(dir, rs, db, 0, 0, 0)),
    }
}

pub open spec fn remove_all_after_default(dir: Seq<char>, ws: Seq<WorktreeView>, yes: bool) -> spec_fn(
    Result<Option<Seq<char>>, Seq<char>>,
) -> Prog {
    |d: Result<Option<Seq<char>>, Seq<char>>| match d {
        Err(m) => Prog::Finish(Err(m)),
        Ok(db) => {
            let rs = removable(ws, db);
            if rs.len() == 0 {
                say(Level::Info, "No worktrees to remove."@, Prog::Finish(Ok(())))
            } else {
                say(
                    Level::Header,
                    "Remove All Worktrees"@,
                    listed(rs, 0, confirm("Remove all listed worktrees?"@, yes, after_confirm_all(dir, rs, db))),
                )
            }
        },
    }
}

/// The remove-all command: list the worktrees that may go, ask, then
/// remove each, reporting how many were removed and how many failed.
pub open spec fn remove_all_prog(ctx: ProjectContextView, yes: bool) -> Prog {
    let dir = ctx.project_dir;
    git(
        worktree_list_call(dir),
        |r: GitReplyView| match output_of(r) {
            Err(_) => Prog::Finish(Err(list_failed_message())),
            Ok(out) => drive(default_plan(dir), seq![], 4, remove_all_after_default(dir, porcelain_worktrees(out), yes)),
        },
    )
}

fn dir_name_or_exec(w: &Worktree, fallback: &str) -> (r: String)
    ensures
        r@ == dir_name_or(w@, fallback@),
{
    match file_name(w.path.as_str()) {
        Some(n) => n,
        None => fallback.to_string(),
    }
}

fn is_removable_exec(w: &Worktree, db: &Option<String>) -> (r: bool)
    ensures
        r == is_removable(w@, opt_view(*db)),
{
    if w.is_bare {
        return false;
    }
    match db {
        Some(d) => {
            let dv = chars_of(d.as_str());
            let named = chars_eq(&chars_of(dir_name_or_exec(w, "").as_str()), &dv);
            let on = match &w.branch {
                Some(b) => chars_eq(&chars_of(b.as_str()), &dv),
                None => false,
            };
            !named && !on
        },
        None => true,
    }
}

/// The indices of the removable worktrees.
fn removable_exec(ws: &Vec<Worktree>, db: &Option<String>) -> (r: Vec<usize>)
    ensures
        r@.len() == removable(worktree_views(ws@), opt_view(*db)).len(),
        forall|k: int|
            0 <= k < r@.len() ==> #[trigger] r@[k] < ws@.len() && ws@[r@[k] as int]@ == removable(
                worktree_views(ws@),
                opt_view(*db),
            )[k],
{
    let ghost all = worktree_views(ws@);
    let ghost dbv = opt_view(*db);
    let ghost pred = |w: WorktreeView| is_removable(w, dbv);
    let mut out: Vec<usize> = Vec::new();
    let mut i: usize = 0;
    assert(all.take(0) =~= Seq::<WorktreeView>::empty());
    while i < ws.len()
        invariant
            i <= ws@.len(),
            all == worktree_views(ws@),
            dbv == opt_view(*db),
            pred == (|w: WorktreeView| is_removable(w, dbv)),
            out@.len() == all.take(i as int).filter(pred).len(),
            forall|k: int| 0 <= k < out@.len() ==> #[trigger] out@[k] < i && ws@[out@[k] as int]@ == all.take(i as int).filter(pred)[k],
        decreases ws.len() - i,
    {
        proof {
            assert(all.take(i + 1).drop_last() =~= all.take(i as int));
            assert(all.take(i + 1).last() == ws@[i as int]@);
            reveal(Seq::filter);
        }
        if is_removable_exec(&ws[i], db) {
            out.push(i);
        }
        i = i + 1;
    }
    assert(all.take(ws@.len() as int) =~= all);
    out
}

fn usize_text(n: usize) -> (r: String)
    ensures
        r@ == decimal(n as nat),
{
    string_of(&u64_to_chars(n as u64))
}

/// The remove-all command's next effect, given the outcomes of those it
/// asked for so far.
pub fn run(ctx: &ProjectContext, yes: bool, outcomes: &Vec<Outcome>) -> (e: Effect)
    ensures
        effect_view(e) == next_effect(remove_all_prog(ctx@, yes), outcome_views(outcomes@)),
{
    let dir = ctx.project_dir.as_str();
    let mut rn = Runner::new(outcomes, Ghost(remove_all_prog(ctx@, yes)));
    let o = match rn.perform(Effect::Git(make_call(dir, args3("worktree", "list", "--porcelain"), GitMode::Output))) {
        Err(e) => {
            return e;
        },
        Ok(o) => o,
    };
    let ws = match reply_of(&rn.outcomes[o]) {
        GitReply::Success(out) => parse_worktrees(out.as_str()),
        _ => {
            return rn.finish(Err("Failed to list worktrees. Your git version may not support --porcelain.\n   Please upgrade git to version 2.7 or later.".to_string()));
        },
    };
    let ghost wv = worktree_views(ws@);
    let db = match drive_default_branch(&mut rn, dir, Ghost(remove_all_after_default(dir@, wv, yes))) {
        Err(e) => {
            return e;
        },
        Ok(Err(m)) => {
            return rn.finish(Err(m));
        },
        Ok(Ok(db)) => db,
    };
    let ghost dbv = opt_view(db);
    let rs = removable_exec(&ws, &db);
    let ghost rv = removable(wv, dbv);
    if rs.len() == 0 {
        return match rn.perform(say_exec(Level::Info, "No worktrees to remove.".to_string())) {
            Err(e) => e,
            Ok(_) => rn.finish(Ok(())),
        };
    }
    match rn.perform(say_exec(Level::Header, "Remove All Worktrees".to_string())) {
        Err(e) => {
            return e;
        },
        Ok(_) => {},
    }
    let ghost ask = confirm("Remove all listed worktrees?"@, yes, after_confirm_all(dir@, rv, dbv));
    let mut i: usize = 0;
    while i < rs.len()
        invariant
            i <= rs@.len(),
            rs@.len() == rv.len(),
            forall|k: int| 0 <= k < rs@.len() ==> #[trigger] rs@[k] < ws@.len() && ws@[rs@[k] as int]@ == rv[k],
            rn.consistent(),
            rn.outcomes == outcomes,
            rn.whole@ == remove_all_prog(ctx@, yes),
            rn.prog@ == listed(rv, i as int, ask),
        decreases rs.len() - i,
    {
        let w = &ws[rs[i]];
        let text = join4("  ", CROSS, " ", dir_name_or_exec(w, "unknown").as_str());
        match rn.perform(say_exec(Level::Info, text)) {
            Err(e) => {
                return e;
            },
            Ok(_) => {},
        }
        i = i + 1;
    }
    let o = match rn.perform(Effect::Confirm { message: "Remove all listed worktrees?".to_string(), assume_yes: yes }) {
        Err(e) => {
            return e;
        },
        Ok(o) => o,
    };
    match answer_result_of(&rn.outcomes[o]) {
        Err(m) => {
            return rn.finish(Err(m));
        },
        Ok(false) => {
            return match rn.perform(say_exec(Level::Info, "Cancelled.".to_string())) {
                Err(e) => e,
                Ok(_) => rn.finish(Ok(())),
            };
        },
        Ok(true) => {},
    }
    match rn.perform(Effect::EnterDir(dir.to_string())) {
        Err(e) => {
            return e;
        },
        Ok(_) => {},
    }
    let mut removed: usize = 0;
    let mut failed: usize = 0;
    let mut i: usize = 0;
    while i < rs.len()
        invariant
            i <= rs@.len(),
            removed + failed == i,
            rs@.len() == rv.len(),
            forall|k: int| 0 <= k < rs@.len() ==> #[trigger] rs@[k] < ws@.len() && ws@[rs@[k] as int]@ == rv[k],
            dbv == opt_view(db),
            rn.consistent(),
            rn.outcomes == outcomes,
            rn.whole@ == remove_all_prog(ctx@, yes),
            rn.prog@ == remove_each(dir@, rv, dbv, i as int, removed as nat, failed as nat),
        decreases rs.len() - i,
    {
        let w = &ws[rs[i]];
        let name = dir_name_or_exec(w, "unknown");
        let o = match rn.perform(Effect::Git(make_call(dir, args4("worktree", "remove", w.path.as_str(), "--force"), GitMode::Output))) {
            Err(e) => {
                return e;
            },
            Ok(o) => o,
        };
        let reply = reply_of(&rn.outcomes[o]);
        if succeeded_exec(&reply) {
            match &w.branch {
                Some(b) => {
                    let is_default = match &db {
                        Some(d) => chars_eq(&chars_of(d.as_str()), &chars_of(b.as_str())),
                        None => false,
                    };
                    if !is_default {
                        match rn.perform(Effect::Git(make_call(dir, args3("branch", "-D", b.as_str()), GitMode::Output))) {
                            Err(e) => {
                                return e;
                            },
                            Ok(_) => {},
                        }
                    }
                },
                None => {},
            }
            match rn.perform(say_exec(Level::Success, join3("Removed '", name.as_str(), "'"))) {
                Err(e) => {
                    return e;
                },
                Ok(_) => {},
            }
            removed = removed + 1;
        } else {
            let text = join4("Failed to remove '", name.as_str(), "': ", reply_message(&reply).as_str());
            match rn.perform(say_exec(Level::Warning, text)) {
                Err(e) => {
                    return e;
                },
                Ok(_) => {},
            }
            failed = failed + 1;
        }
        i = i + 1;
    }
    let summary = if failed == 0 {
        say_exec(Level::Success, join3("All ", usize_text(removed).as_str(), " worktrees removed"))
    } else {
        say_exec(Level::Warning, join4(usize_text(removed).as_str(), " removed, ", usize_text(failed).as_str(), " failed"))
    };
    match rn.perform(summary) {
        Err(e) => {
            return e;
        },
        Ok(_) => {},
    }
    rn.finish(Ok(()))
}

} // verus!
