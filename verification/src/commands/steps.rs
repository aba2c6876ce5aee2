//! Pieces that several commands are made of: git commands whose failure
//! ends the command or is ignored, and the git queries that commands drive
//! to their answers.
use vstd::prelude::*;

use crate::commands::effects::{drive, effect_view, git, next_effect, reply_of, Effect, EffectView, Level, Prog, Runner};
use crate::git::branch::{bool_step_view, branch_exists, branch_exists_plan, default_branch_plan, detect_default_branch};
use crate::git::worktree::{worktree_views, Worktree, WorktreeView};
use crate::git::{arg_views, output_of, reply_message, reply_views, GitCall, GitCallView, GitMode, GitReply, GitReplyView, GitStep, StepSpec};
use crate::paths::{file_name, path_file_name};
use crate::text::{chars_eq, chars_of, trim};

verus! {

pub open spec fn succeeded(r: GitReplyView) -> bool {
    output_of(r) is Ok
}

pub open spec fn fetch_ref_call(dir: Seq<char>, remote: Seq<char>, r: Seq<char>) -> GitCallView {
    GitCallView { dir, args: seq!["fetch"@, remote, r], mode: GitMode::Output }
}

/// The first non-bare worktree on the given branch.
pub open spec fn worktree_on(ws: Seq<WorktreeView>, b: Seq<char>) -> Option<WorktreeView>
    decreases ws.len(),
{
    if ws.len() == 0 {
        None
    } else if !ws[0].is_bare && ws[0].branch == Some(b) {
        Some(ws[0])
    } else {
        worktree_on(ws.drop_first(), b)
    }
}

/// The default-branch query, refreshing `origin/HEAD` first when
/// `allow_network`.
pub open spec fn default_plan_for(dir: Seq<char>, allow_network: bool) -> spec_fn(Seq<GitReplyView>) -> StepSpec<
    Result<Option<Seq<char>>, Seq<char>>,
> {
    |rs: Seq<GitReplyView>| default_branch_plan(dir, allow_network, rs)
}

/// The default-branch query, run without network.
pub open spec fn default_plan(dir: Seq<char>) -> spec_fn(Seq<GitReplyView>) -> StepSpec<
    Result<Option<Seq<char>>, Seq<char>>,
> {
    default_plan_for(dir, false)
}

pub open spec fn opt_result_view(v: Result<Option<String>, String>) -> Result<Option<Seq<char>>, Seq<char>> {
    match v {
        Ok(Some(b)) => Ok(Some(b@)),
        Ok(None) => Ok(None),
        Err(e) => Err(e@),
    }
}

/// The default-branch query needs at most four git commands, so the
/// allowance of four that the commands give it never cuts it short: a
/// larger one changes nothing.
pub proof fn lemma_default_branch_allowance(
    dir: Seq<char>,
    allow_network: bool,
    k: spec_fn(Result<Option<Seq<char>>, Seq<char>>) -> Prog,
)
    ensures
        drive(default_plan_for(dir, allow_network), seq![], 4, k) == drive(default_plan_for(dir, allow_network), seq![], 5, k),
{
    let plan = default_plan_for(dir, allow_network);
    assert forall|x: Seq<GitReplyView>| x.len() >= 4 implies #[trigger] plan(x) is Done by {
        if allow_network {
            assert(x.drop_first().len() >= 3);
        }
    }
    crate::commands::effects::lemma_drive_enough(plan, seq![], 4, k, 4);
}

/// The branch-existence query needs at most two git commands, so the
/// allowance of two never cuts it short.
pub proof fn lemma_branch_exists_allowance(dir: Seq<char>, b: Seq<char>, k: spec_fn(Result<bool, Seq<char>>) -> Prog)
    ensures
        drive(exists_plan(dir, b), seq![], 2, k) == drive(exists_plan(dir, b), seq![], 3, k),
{
    let plan = exists_plan(dir, b);
    assert forall|x: Seq<GitReplyView>| x.len() >= 2 implies #[trigger] plan(x) is Done by {}
    crate::commands::effects::lemma_drive_enough(plan, seq![], 2, k, 2);
}

/// Run the default-branch query, without network, through the runner.
pub fn drive_default_branch(
    rn: &mut Runner,
    dir: &str,
    Ghost(k): Ghost<spec_fn(Result<Option<Seq<char>>, Seq<char>>) -> Prog>,
) -> (r: Result<Result<Option<String>, String>, Effect>)
    requires
        old(rn).consistent(),
        old(rn).prog@ == drive(default_plan(dir@), seq![], 4, k),
    ensures
        final(rn).consistent(),
        final(rn).outcomes == old(rn).outcomes,
        final(rn).whole == old(rn).whole,
        match r {
            Ok(v) => final(rn).prog@ == k(opt_result_view(v)),
            Err(e) => crate::commands::effects::effect_view(e) == crate::commands::effects::next_effect(
                old(rn).whole@,
                old(rn).views(),
            ),
        },
{
    drive_default_branch_for(rn, dir, false, Ghost(k))
}

/// Run the default-branch query through the runner.
pub fn drive_default_branch_for(
    rn: &mut Runner,
    dir: &str,
    allow_network: bool,
    Ghost(k): Ghost<spec_fn(Result<Option<Seq<char>>, Seq<char>>) -> Prog>,
) -> (r: Result<Result<Option<String>, String>, Effect>)
    requires
        old(rn).consistent(),
        old(rn).prog@ == drive(default_plan_for(dir@, allow_network), seq![], 4, k),
    ensures
        final(rn).consistent(),
        final(rn).outcomes == old(rn).outcomes,
        final(rn).whole == old(rn).whole,
        match r {
            Ok(v) => final(rn).prog@ == k(opt_result_view(v)),
            Err(e) => crate::commands::effects::effect_view(e) == crate::commands::effects::next_effect(
                old(rn).whole@,
                old(rn).views(),
            ),
        },
{
    let mut rs: Vec<GitReply> = Vec::new();
    assert(crate::git::reply_views(rs@) =~= Seq::<GitReplyView>::empty());
    loop
        invariant
            rn.consistent(),
            rn.outcomes == old(rn).outcomes,
            rn.whole == old(rn).whole,
            rn.views() == old(rn).views(),
            rs@.len() <= 4,
            rn.prog@ == drive(default_plan_for(dir@, allow_network), crate::git::reply_views(rs@), (4 - rs@.len()) as nat, k),
        decreases 4 - rs@.len(),
    {
        match detect_default_branch(dir, allow_network, &rs) {
            GitStep::Run(c) => {
                if rs.len() >= 4 {
                    return Err(rn.finish(Err(String::new())));
                }
                match rn.perform(Effect::Git(c)) {
                    Err(e) => {
                        return Err(e);
                    },
                    Ok(i) => {
                        let ghost before = crate::git::reply_views(rs@);
                        let reply = reply_of(&rn.outcomes[i]);
                        rs.push(reply);
                        assert(crate::git::reply_views(rs@) =~= before.push(reply@));
                    },
                }
            },
            GitStep::Done(v) => {
                return Ok(v);
            },
        }
    }
}

pub fn say_exec(level: Level, text: String) -> (e: Effect)
    ensures
        crate::commands::effects::effect_view(e) == crate::commands::effects::EffectView::Say(level, text@),
{
    Effect::Say(level, text)
}

pub fn succeeded_exec(r: &GitReply) -> (b: bool)
    ensures
        b == succeeded(r@),
{
    match r {
        GitReply::Success(_) => true,
        _ => false,
    }
}

pub fn worktree_on_exec(ws: &Vec<Worktree>, b: &str) -> (r: Option<usize>)
    ensures
        match (r, worktree_on(worktree_views(ws@), b@)) {
            (Some(i), Some(w)) => i < ws@.len() && ws@[i as int]@ == w,
            (None, None) => true,
            _ => false,
        },
{
    let ghost all = worktree_views(ws@);
    let bv = chars_of(b);
    let mut i: usize = 0;
    assert(all.skip(0) =~= all);
    while i < ws.len()
        invariant
            i <= ws@.len(),
            all == worktree_views(ws@),
            bv@ == b@,
            worktree_on(all.skip(i as int), b@) == worktree_on(all, b@),
        decreases ws.len() - i,
    {
        assert(all.skip(i as int)[0] == ws@[i as int]@);
        let w = &ws[i];
        let on = match &w.branch {
            Some(x) => chars_eq(&chars_of(x.as_str()), &bv),
            None => false,
        };
        if !w.is_bare && on {
            return Some(i);
        }
        assert(all.skip(i as int).drop_first() =~= all.skip(i + 1));
        i = i + 1;
    }
    None
}

pub open spec fn add_call(dir: Seq<char>, path: Seq<char>, branch: Seq<char>) -> GitCallView {
    GitCallView { dir, args: seq!["worktree"@, "add"@, path, branch], mode: GitMode::Output }
}

pub open spec fn add_new_branch_call(dir: Seq<char>, branch: Seq<char>, path: Seq<char>, start: Seq<char>) -> GitCallView {
    GitCallView { dir, args: seq!["worktree"@, "add"@, "-b"@, branch, path, start], mode: GitMode::Output }
}

/// A git command whose failure ends the command with its message.
pub open spec fn git_or_fail(c: GitCallView, then: Prog) -> Prog {
    git(
        c,
        |r: GitReplyView| match output_of(r) {
            Err(m) => Prog::Finish(Err(m)),
            Ok(_) => then,
        },
    )
}

pub open spec fn exists_plan(dir: Seq<char>, b: Seq<char>) -> spec_fn(Seq<GitReplyView>) -> StepSpec<
    Result<bool, Seq<char>>,
> {
    |rs: Seq<GitReplyView>| branch_exists_plan(dir, b, rs)
}

pub open spec fn name_view(name: Option<&str>) -> Option<Seq<char>> {
    match name {
        Some(s) => Some(s@),
        None => None,
    }
}

pub fn strings6(a: &str, b: &str, c: &str, d: &str, e: &str, f: &str) -> (r: Vec<String>)
    ensures
        arg_views(r@) == seq![a@, b@, c@, d@, e@, f@],
{
    let mut v: Vec<String> = Vec::new();
    v.push(a.to_string());
    v.push(b.to_string());
    v.push(c.to_string());
    v.push(d.to_string());
    v.push(e.to_string());
    v.push(f.to_string());
    assert(arg_views(v@) =~= seq![a@, b@, c@, d@, e@, f@]);
    v
}

/// Perform a git command; its failure finishes the command.
pub fn git_or_fail_exec(rn: &mut Runner, c: crate::git::GitCall, Ghost(then): Ghost<Prog>) -> (r: Result<(), Effect>)
    requires
        old(rn).consistent(),
        old(rn).prog@ == git_or_fail(c@, then),
    ensures
        final(rn).consistent(),
        final(rn).outcomes == old(rn).outcomes,
        final(rn).whole == old(rn).whole,
        match r {
            Ok(()) => final(rn).prog@ == then,
            Err(e) => effect_view(e) == next_effect(old(rn).whole@, old(rn).views()),
        },
{
    let o = match rn.perform(Effect::Git(c)) {
        Err(e) => {
            return Err(e);
        },
        Ok(o) => o,
    };
    let reply = reply_of(&rn.outcomes[o]);
    match &reply {
        GitReply::Success(_) => Ok(()),
        _ => Err(rn.finish(Err(reply_message(&reply)))),
    }
}

/// Perform a git command whatever comes of it.
pub fn git_ignored(rn: &mut Runner, c: crate::git::GitCall, Ghost(then): Ghost<Prog>) -> (r: Result<(), Effect>)
    requires
        old(rn).consistent(),
        old(rn).prog@ == git(c@, |r: GitReplyView| then),
    ensures
        final(rn).consistent(),
        final(rn).outcomes == old(rn).outcomes,
        final(rn).whole == old(rn).whole,
        match r {
            Ok(()) => final(rn).prog@ == then,
            Err(e) => effect_view(e) == next_effect(old(rn).whole@, old(rn).views()),
        },
{
    match rn.perform(Effect::Git(c)) {
        Err(e) => Err(e),
        Ok(_) => Ok(()),
    }
}

pub fn drive_branch_exists(
    rn: &mut Runner,
    dir: &str,
    b: &str,
    Ghost(k): Ghost<spec_fn(Result<bool, Seq<char>>) -> Prog>,
) -> (r: Result<Result<bool, String>, Effect>)
    requires
        old(rn).consistent(),
        old(rn).prog@ == drive(exists_plan(dir@, b@), seq![], 2, k),
    ensures
        final(rn).consistent(),
        final(rn).outcomes == old(rn).outcomes,
        final(rn).whole == old(rn).whole,
        match r {
            Ok(Ok(x)) => final(rn).prog@ == k(Ok(x)),
            Ok(Err(m)) => final(rn).prog@ == k(Err(m@)),
            Err(e) => effect_view(e) == next_effect(old(rn).whole@, old(rn).views()),
        },
{
    let mut rs: Vec<GitReply> = Vec::new();
    assert(reply_views(rs@) =~= Seq::<GitReplyView>::empty());
    loop
        invariant
            rn.consistent(),
            rn.outcomes == old(rn).outcomes,
            rn.whole == old(rn).whole,
            rs@.len() <= 2,
            rn.prog@ == drive(exists_plan(dir@, b@), reply_views(rs@), (2 - rs@.len()) as nat, k),
        decreases 2 - rs@.len(),
    {
        let step = branch_exists(dir, b, &rs);
        assert(bool_step_view(step) == (exists_plan(dir@, b@))(reply_views(rs@)));
        match step {
            GitStep::Run(c) => {
                if rs.len() >= 2 {
                    return Err(rn.finish(Err(String::new())));
                }
                match rn.perform(Effect::Git(c)) {
                    Err(e) => {
                        return Err(e);
                    },
                    Ok(i) => {
                        let ghost before = reply_views(rs@);
                        let reply = reply_of(&rn.outcomes[i]);
                        rs.push(reply);
                        assert(reply_views(rs@) =~= before.push(reply@));
                    },
                }
            },
            GitStep::Done(v) => {
                return Ok(v);
            },
        }
    }
}

/// The first non-bare worktree whose directory is named `f`.
pub open spec fn worktree_named(ws: Seq<WorktreeView>, f: Seq<char>) -> Option<WorktreeView>
    decreases ws.len(),
{
    if ws.len() == 0 {
        None
    } else if !ws[0].is_bare && path_file_name(ws[0].path) == Some(f) {
        Some(ws[0])
    } else {
        worktree_named(ws.drop_first(), f)
    }
}

/// The first non-bare worktree whose directory is named `f`.
pub fn find_worktree_by_name(ws: &Vec<Worktree>, f: &str) -> (r: Option<usize>)
    ensures
        match (r, worktree_named(worktree_views(ws@), f@)) {
            (Some(i), Some(w)) => i < ws@.len() && ws@[i as int]@ == w,
            (None, None) => true,
            _ => false,
        },
{
    let ghost all = worktree_views(ws@);
    let fv = chars_of(f);
    let mut i: usize = 0;
    assert(all.skip(0) =~= all);
    while i < ws.len()
        invariant
            i <= ws@.len(),
            all == worktree_views(ws@),
            fv@ == f@,
            worktree_named(all.skip(i as int), f@) == worktree_named(all, f@),
        decreases ws.len() - i,
    {
        assert(all.skip(i as int)[0] == ws@[i as int]@);
        let w = &ws[i];
        let named = match file_name(w.path.as_str()) {
            Some(n) => chars_eq(&chars_of(n.as_str()), &fv),
            None => false,
        };
        if !w.is_bare && named {
            return Some(i);
        }
        assert(all.skip(i as int).drop_first() =~= all.skip(i + 1));
        i = i + 1;
    }
    None
}

/// The trimmed output of a successful run, or `fallback`.
pub open spec fn trimmed_or(r: GitReplyView, fallback: Seq<char>) -> Seq<char> {
    match output_of(r) {
        Ok(o) => trim(o),
        Err(_) => fallback,
    }
}

} // verus!
