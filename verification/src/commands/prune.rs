//! Pruning: removing worktrees whose directory is gone or whose branch is
//! merged into the default branch.
use vstd::prelude::*;

use crate::commands::effects::{
    answer_result_of, confirm, drive, effect_view, fs, fs_answer_of, git, lemma_next_effect_step, next_effect,
    outcome_views, reply_of, say, then_do, Effect, EffectView, Level, Outcome, OutcomeView, Prog, Runner,
};
use crate::commands::remove::{branch_delete_call, remove_call};
use crate::commands::steps::{default_plan, drive_default_branch, say_exec, succeeded_exec, trimmed_or};
use crate::git::operations::{FsQuery, FsQueryView, FsReply, FsReplyView};
use crate::git::status::{parse_porcelain, status_call, status_clean, status_from, WorktreeStatus};
use crate::git::worktree::{
    list_failed_message, parse_porcelain as parse_worktrees, porcelain_worktrees, worktree_list_call,
    worktree_views, Worktree, WorktreeView,
};
use crate::git::{
    args2, args3, args4, make_call, output_of, reply_message, trimmed_output, GitCallView, GitMode, GitReply,
    GitReplyView,
};
use crate::layout::{ProjectContext, ProjectContextView};
use crate::paths::{file_name, path_file_name};
use crate::text::{
    chars_eq, chars_of, decimal, lines, opt_view, split_lines, string_of, trim, trim_chars, u64_to_chars,
};

verus! {

/// A worktree that pruning would remove, and why (`merged` or `orphan`).
#[derive(Debug)]
pub struct PruneCandidate {
    pub name: String,
    pub path: String,
    pub branch: Option<String>,
    pub reason: String,
}

/// The merged branches that `git branch --merged` lists: trimmed lines,
/// blank ones left out.
pub open spec fn merged_names(ls: Seq<Seq<char>>) -> Seq<Seq<char>>
    decreases ls.len(),
{
    if ls.len() == 0 {
        seq![]
    } else {
        let rest = merged_names(ls.drop_last());
        if trim(ls.last()).len() > 0 {
            rest.push(trim(ls.last()))
        } else {
            rest
        }
    }
}

pub fn parse_merged_branches(output: &str) -> (r: Vec<String>)
    ensures
        r@.map_values(|s: String| s@) == merged_names(lines(output@)),
{
    let ls = split_lines(&chars_of(output));
    let ghost all = crate::text::views(ls@);
    let mut out: Vec<String> = Vec::new();
    let mut i: usize = 0;
    assert(all.take(0) =~= Seq::<Seq<char>>::empty());
    while i < ls.len()
        invariant
            i <= ls.len(),
            all == crate::text::views(ls@),
            all == lines(output@),
            out@.map_values(|s: String| s@) == merged_names(all.take(i as int)),
        decreases ls.len() - i,
    {
        proof {
            assert(all.take(i + 1).drop_last() =~= all.take(i as int));
            assert(all.take(i + 1).last() == ls@[i as int]@);
        }
        let t = trim_chars(&ls[i]);
        if t.len() > 0 {
            let ghost before = out@.map_values(|s: String| s@);
            out.push(string_of(&t));
            assert(out@.map_values(|s: String| s@) =~= before.push(t@));
        }
        i = i + 1;
    }
    assert(all.take(i as int) =~= all);
    out
}

/// What is learned about a worktree while assessing it.
pub struct PruneFacts {
    /// Its directory exists.
    pub path_exists: Option<bool>,
    /// The default branch's commit (empty when unknown).
    pub default_sha: Option<String>,
    /// The branch's commit (empty when unknown).
    pub branch_sha: Option<String>,
    /// It has no uncommitted changes.
    pub clean: Option<bool>,
}

/// What assessing a worktree needs next, or its verdict.
pub enum PruneStep {
    /// Whether its directory exists.
    AskExists,
    /// The commits of the default branch and of its branch
    /// (`git rev-parse`, trimmed; empty on failure).
    AskShas,
    /// Whether it is clean (`git status`).
    AskClean,
    /// Leave it.
    Keep,
    /// Remove it.
    Remove(PruneCandidate),
    /// Leave it, reporting it as skipped for this reason.
    Skipped(String, String),
}

pub enum PruneStepView {
    AskExists,
    AskShas,
    AskClean,
    Keep,
    Remove { name: Seq<char>, path: Seq<char>, branch: Option<Seq<char>>, reason: Seq<char> },
    Skipped(Seq<char>, Seq<char>),
}

pub open spec fn prune_step_view(s: PruneStep) -> PruneStepView {
    match s {
        PruneStep::AskExists => PruneStepView::AskExists,
        PruneStep::AskShas => PruneStepView::AskShas,
        PruneStep::AskClean => PruneStepView::AskClean,
        PruneStep::Keep => PruneStepView::Keep,
        PruneStep::Remove(c) => PruneStepView::Remove {
            name: c.name@,
            path: c.path@,
            branch: opt_view(c.branch),
            reason: c.reason@,
        },
        PruneStep::Skipped(n, r) => PruneStepView::Skipped(n@, r@),
    }
}

/// The assessment of one worktree: bare worktrees and the default branch's
/// stay; a missing directory or a prunable worktree is an orphan; a branch
/// merged into the default one is removed, unless it sits at the default
/// branch's very commit (fresh, nothing done on it) or has changes and the
/// removal is not forced (then it is reported as skipped).
pub open spec fn prune_plan(
    w: WorktreeView,
    default_branch: Seq<char>,
    merged: Seq<Seq<char>>,
    force: bool,
    exists: Option<bool>,
    shas: Option<(Seq<char>, Seq<char>)>,
    clean: Option<bool>,
) -> PruneStepView {
    let name = match path_file_name(w.path) {
        Some(n) => n,
        None => Seq::empty(),
    };
    let branch = match w.branch {
        Some(b) => b,
        None => Seq::empty(),
    };
    if w.is_bare || branch == default_branch {
        PruneStepView::Keep
    } else if exists is None {
        PruneStepView::AskExists
    } else if !exists->0 || w.is_prunable {
        PruneStepView::Remove { name, path: w.path, branch: w.branch, reason: "orphan"@ }
    } else if !(branch.len() > 0 && merged.contains(branch)) {
        PruneStepView::Keep
    } else if shas is None {
        PruneStepView::AskShas
    } else if shas matches Some((da, db)) && da == db {
        PruneStepView::Keep
    } else if clean is None {
        PruneStepView::AskClean
    } else if !clean->0 && !force {
        PruneStepView::Skipped(name, "dirty + merged"@)
    } else {
        PruneStepView::Remove { name, path: w.path, branch: w.branch, reason: "merged"@ }
    }
}

/// Pruning keeps the bare repository and the default branch's worktree
/// whatever is known of them, and removes a merged worktree with changes
/// only when forced.
pub proof fn lemma_prune_spares(
    w: WorktreeView,
    default_branch: Seq<char>,
    merged: Seq<Seq<char>>,
    force: bool,
    exists: Option<bool>,
    shas: Option<(Seq<char>, Seq<char>)>,
    clean: Option<bool>,
)
    ensures
        (w.is_bare || w.branch == Some(default_branch)) ==> prune_plan(w, default_branch, merged, force, exists, shas, clean)
            is Keep,
        prune_plan(w, default_branch, merged, force, exists, shas, clean) matches PruneStepView::Remove { reason, .. }
            && reason == "merged"@ ==> force || clean == Some(true),
{
    reveal_strlit("merged");
    reveal_strlit("orphan");
    assert("orphan"@[0] != "merged"@[0]);
}

/// Forcing decides a dirty, merged worktree: one that exists, is not
/// prunable, whose branch (not the default one) is listed as merged at
/// another commit than the default branch's, and that has changes, is
/// skipped as "dirty + merged" without force and removed as merged with it.
pub proof fn lemma_prune_force(
    w: WorktreeView,
    default_branch: Seq<char>,
    merged: Seq<Seq<char>>,
    da: Seq<char>,
    db: Seq<char>,
)
    requires
        !w.is_bare,
        !w.is_prunable,
        w.branch matches Some(b) && b.len() > 0 && b != default_branch && merged.contains(b),
        da != db,
    ensures
        prune_plan(w, default_branch, merged, false, Some(true), Some((da, db)), Some(false)) == PruneStepView::Skipped(
            match path_file_name(w.path) {
                Some(n) => n,
                None => Seq::empty(),
            },
            "dirty + merged"@,
        ),
        prune_plan(w, default_branch, merged, true, Some(true), Some((da, db)), Some(false)) == (PruneStepView::Remove {
            name: match path_file_name(w.path) {
                Some(n) => n,
                None => Seq::empty(),
            },
            path: w.path,
            branch: w.branch,
            reason: "merged"@,
        }),
{
}

fn clone_opt(o: &Option<String>) -> (r: Option<String>)
    ensures
        opt_view(r) == opt_view(*o),
{
    match o {
        Some(s) => Some(s.clone()),
        None => None,
    }
}

fn listed(names: &Vec<String>, b: &Vec<char>) -> (r: bool)
    ensures
        r == names@.map_values(|s: String| s@).contains(b@),
{
    let mut i: usize = 0;
    while i < names.len()
        invariant
            i <= names.len(),
            forall|k: int| 0 <= k < i ==> names@[k]@ != b@,
        decreases names.len() - i,
    {
        if chars_eq(&chars_of(names[i].as_str()), b) {
            assert(names@.map_values(|s: String| s@)[i as int] == b@);
            return true;
        }
        i = i + 1;
    }
    proof {
        if names@.map_values(|s: String| s@).contains(b@) {
            let views = names@.map_values(|s: String| s@);
            let k = choose|k: int| 0 <= k < views.len() && views[k] == b@;
            assert(names@[k]@ == b@);
        }
    }
    false
}

/// Assess one worktree for pruning from what is known of it so far.
pub fn assess_worktree(wt: &Worktree, default_branch: &str, merged: &Vec<String>, force: bool, facts: &PruneFacts) -> (r: PruneStep)
    ensures
        prune_step_view(r) == prune_plan(
            wt@,
            default_branch@,
            merged@.map_values(|s: String| s@),
            force,
            facts.path_exists,
            match (facts.default_sha, facts.branch_sha) {
                (Some(a), Some(b)) => Some((a@, b@)),
                _ => None,
            },
            facts.clean,
        ),
{
    let name = match file_name(wt.path.as_str()) {
        Some(n) => n,
        None => String::new(),
    };
    let branch: Vec<char> = match &wt.branch {
        Some(b) => chars_of(b.as_str()),
        None => Vec::new(),
    };
    if wt.is_bare || chars_eq(&branch, &chars_of(default_branch)) {
        return PruneStep::Keep;
    }
    let present = match facts.path_exists {
        Some(e) => e,
        None => {
            return PruneStep::AskExists;
        },
    };
    if !present || wt.is_prunable {
        return PruneStep::Remove(
            PruneCandidate {
                name,
                path: wt.path.clone(),
                branch: clone_opt(&wt.branch),
                reason: "orphan".to_string(),
            },
        );
    }
    if !(branch.len() > 0 && listed(merged, &branch)) {
        return PruneStep::Keep;
    }
    let (a, b) = match (&facts.default_sha, &facts.branch_sha) {
        (Some(a), Some(b)) => (a, b),
        _ => {
            return PruneStep::AskShas;
        },
    };
    if chars_eq(&chars_of(a.as_str()), &chars_of(b.as_str())) {
        return PruneStep::Keep;
    }
    let clean = match facts.clean {
        Some(c) => c,
        None => {
            return PruneStep::AskClean;
        },
    };
    if !clean && !force {
        return PruneStep::Skipped(name, "dirty + merged".to_string());
    }
    PruneStep::Remove(
        PruneCandidate {
            name,
            path: wt.path.clone(),
            branch: clone_opt(&wt.branch),
            reason: "merged".to_string(),
        },
    )
}

// ------------------------------------------------------------------
// The command
// ------------------------------------------------------------------

pub open spec fn rev_parse_call(dir: Seq<char>, rev: Seq<char>) -> GitCallView {
    GitCallView { dir, args: seq!["rev-parse"@, rev], mode: GitMode::Output }
}

pub open spec fn merged_call(dir: Seq<char>, d: Seq<char>) -> GitCallView {
    GitCallView {
        dir,
        args: seq!["branch"@, "--merged"@, d, "--format=%(refname:short)"@],
        mode: GitMode::Output,
    }
}

pub open spec fn branch_or_empty(w: WorktreeView) -> Seq<char> {
    match w.branch {
        Some(b) => b,
        None => Seq::empty(),
    }
}

/// Assess one worktree, finding out what the assessment asks for: whether
/// its directory exists, the two commits (`rev-parse`, trimmed, empty on
/// failure), and whether it is clean.
pub open spec fn assess_prog(
    dir: Seq<char>,
    w: WorktreeView,
    d: Seq<char>,
    merged: Seq<Seq<char>>,
    force: bool,
    k: spec_fn(PruneStepView) -> Prog,
) -> Prog {
    let p0 = prune_plan(w, d, merged, force, None, None, None);
    if p0 is AskExists {
        fs(
            FsQueryView::Exists(w.path),
            |a: FsReplyView| {
                let e = Some(a is Yes);
                let p1 = prune_plan(w, d, merged, force, e, None, None);
                if p1 is AskShas {
                    git(
                        rev_parse_call(dir, d),
                        |r1: GitReplyView| git(
                            rev_parse_call(dir, branch_or_empty(w)),
                            |r2: GitReplyView| {
                                let shas = Some((trimmed_or(r1, Seq::empty()), trimmed_or(r2, Seq::empty())));
                                let p2 = prune_plan(w, d, merged, force, e, shas, None);
                                if p2 is AskClean {
                                    git(
                                        status_call(w.path),
                                        |s: GitReplyView| k(
                                            prune_plan(w, d, merged, force, e, shas, Some(status_clean(status_from(s)))),
                                        ),
                                    )
                                } else {
                                    k(p2)
                                }
                            },
                        ),
                    )
                } else {
                    k(p1)
                }
            },
        )
    } else {
        k(p0)
    }
}

/// Assess the worktrees from `i` on, gathering the candidates and the
/// skipped ones.
pub open spec fn collect_prog(
    dir: Seq<char>,
    ws: Seq<WorktreeView>,
    d: Seq<char>,
    merged: Seq<Seq<char>>,
    force: bool,
    i: int,
    cands: Seq<PruneStepView>,
    skipped: Seq<(Seq<char>, Seq<char>)>,
    k: spec_fn(Seq<PruneStepView>, Seq<(Seq<char>, Seq<char>)>) -> Prog,
) -> Prog
    decreases ws.len() - i, 1int,
{
    if i < 0 || i >= ws.len() {
        k(cands, skipped)
    } else {
        assess_prog(dir, ws[i], d, merged, force, collect_next(dir, ws, d, merged, force, i, cands, skipped, k))
    }
}

/// How gathering goes on after the worktree at `i` is assessed.
pub open spec fn collect_next(
    dir: Seq<char>,
    ws: Seq<WorktreeView>,
    d: Seq<char>,
    merged: Seq<Seq<char>>,
    force: bool,
    i: int,
    cands: Seq<PruneStepView>,
    skipped: Seq<(Seq<char>, Seq<char>)>,
    k: spec_fn(Seq<PruneStepView>, Seq<(Seq<char>, Seq<char>)>) -> Prog,
) -> spec_fn(PruneStepView) -> Prog
    decreases ws.len() - i, 0int,
{
    |v: PruneStepView| if i < 0 || i >= ws.len() {
        k(cands, skipped)
    } else {
        match v {
            PruneStepView::Remove { .. } => collect_prog(dir, ws, d, merged, force, i + 1, cands.push(v), skipped, k),
            PruneStepView::Skipped(n, r) => collect_prog(dir, ws, d, merged, force, i + 1, cands, skipped.push((n, r)), k),
            _ => collect_prog(dir, ws, d, merged, force, i + 1, cands, skipped, k),
        }
    }
}

/// A worktree that pruning would skip without force and remove with it:
/// not bare, not prunable, on a non-empty branch other than the default one
/// that is listed as merged.
pub open spec fn dirty_merged_candidate(w: WorktreeView, d: Seq<char>, merged: Seq<Seq<char>>) -> bool {
    &&& !w.is_bare
    &&& !w.is_prunable
    &&& w.branch matches Some(b) && b.len() > 0 && b != d && merged.contains(b)
}

/// The replies that show such a worktree dirty at another commit than the
/// default branch: its directory exists, the two `rev-parse` replies differ
/// and `git status` lists changes.
pub open spec fn dirty_merged_replies(r1: GitReplyView, r2: GitReplyView, s: GitReplyView) -> Seq<OutcomeView> {
    seq![
        OutcomeView::Fs(FsReplyView::Yes),
        OutcomeView::Git(r1),
        OutcomeView::Git(r2),
        OutcomeView::Git(s),
    ]
}

proof fn lemma_assess_dirty_merged(
    dir: Seq<char>,
    w: WorktreeView,
    d: Seq<char>,
    merged: Seq<Seq<char>>,
    force: bool,
    k: spec_fn(PruneStepView) -> Prog,
    r1: GitReplyView,
    r2: GitReplyView,
    s: GitReplyView,
    rest: Seq<OutcomeView>,
)
    requires
        dirty_merged_candidate(w, d, merged),
        trimmed_or(r1, Seq::empty()) != trimmed_or(r2, Seq::empty()),
        !status_clean(status_from(s)),
    ensures
        next_effect(assess_prog(dir, w, d, merged, force, k), dirty_merged_replies(r1, r2, s) + rest) == next_effect(
            k(prune_plan(
                w,
                d,
                merged,
                force,
                Some(true),
                Some((trimmed_or(r1, Seq::empty()), trimmed_or(r2, Seq::empty()))),
                Some(false),
            )),
            rest,
        ),
{
    let shas = Some((trimmed_or(r1, Seq::empty()), trimmed_or(r2, Seq::empty())));
    let p = assess_prog(dir, w, d, merged, force, k);
    let o0 = OutcomeView::Fs(FsReplyView::Yes);
    let o1 = OutcomeView::Git(r1);
    let o2 = OutcomeView::Git(r2);
    let o3 = OutcomeView::Git(s);
    let p1 = (p->Do_1)(o0);
    let p2 = (p1->Do_1)(o1);
    let p3 = (p2->Do_1)(o2);
    assert(p3 == git(
        status_call(w.path),
        |st: GitReplyView| k(prune_plan(w, d, merged, force, Some(true), shas, Some(status_clean(status_from(st))))),
    ));
    lemma_next_effect_step(p3, o3, rest);
    lemma_next_effect_step(p2, o2, seq![o3] + rest);
    lemma_next_effect_step(p1, o1, seq![o2] + (seq![o3] + rest));
    lemma_next_effect_step(p, o0, seq![o1] + (seq![o2] + (seq![o3] + rest)));
    assert(dirty_merged_replies(r1, r2, s) + rest =~= seq![o0] + (seq![o1] + (seq![o2] + (seq![o3] + rest))));
}

/// Forcing decides a dirty, merged worktree in the gathering of candidates:
/// fed the same replies for it (its directory exists, its commit differs
/// from the default branch's, `git status` lists changes), gathering without
/// force adds it to the skipped worktrees as "dirty + merged" and not to the
/// candidates, and gathering with force adds it to the candidates as merged
/// and not to the skipped ones.
pub proof fn lemma_collect_force(
    dir: Seq<char>,
    ws: Seq<WorktreeView>,
    d: Seq<char>,
    merged: Seq<Seq<char>>,
    i: int,
    cands: Seq<PruneStepView>,
    skipped: Seq<(Seq<char>, Seq<char>)>,
    k: spec_fn(Seq<PruneStepView>, Seq<(Seq<char>, Seq<char>)>) -> Prog,
    r1: GitReplyView,
    r2: GitReplyView,
    s: GitReplyView,
    rest: Seq<OutcomeView>,
)
    requires
        0 <= i < ws.len(),
        dirty_merged_candidate(ws[i], d, merged),
        trimmed_or(r1, Seq::empty()) != trimmed_or(r2, Seq::empty()),
        !status_clean(status_from(s)),
    ensures
        next_effect(collect_prog(dir, ws, d, merged, false, i, cands, skipped, k), dirty_merged_replies(r1, r2, s) + rest)
            == next_effect(
            collect_prog(
                dir,
                ws,
                d,
                merged,
                false,
                i + 1,
                cands,
                skipped.push((
                    match path_file_name(ws[i].path) {
                        Some(n) => n,
                        None => Seq::empty(),
                    },
                    "dirty + merged"@,
                )),
                k,
            ),
            rest,
        ),
        next_effect(collect_prog(dir, ws, d, merged, true, i, cands, skipped, k), dirty_merged_replies(r1, r2, s) + rest)
            == next_effect(
            collect_prog(
                dir,
                ws,
                d,
                merged,
                true,
                i + 1,
                cands.push(
                    PruneStepView::Remove {
                        name: match path_file_name(ws[i].path) {
                            Some(n) => n,
                            None => Seq::empty(),
                        },
                        path: ws[i].path,
                        branch: ws[i].branch,
                        reason: "merged"@,
                    },
                ),
                skipped,
                k,
            ),
            rest,
        ),
{
    let w = ws[i];
    let da = trimmed_or(r1, Seq::empty());
    let db = trimmed_or(r2, Seq::empty());
    lemma_prune_force(w, d, merged, da, db);
    lemma_assess_dirty_merged(dir, w, d, merged, false, collect_next(dir, ws, d, merged, false, i, cands, skipped, k), r1, r2, s, rest);
    lemma_assess_dirty_merged(dir, w, d, merged, true, collect_next(dir, ws, d, merged, true, i, cands, skipped, k), r1, r2, s, rest);
}

pub open spec fn cand_name(c: PruneStepView) -> Seq<char> {
    match c {
        PruneStepView::Remove { name, .. } => name,
        _ => Seq::empty(),
    }
}

pub open spec fn cand_path(c: PruneStepView) -> Seq<char> {
    match c {
        PruneStepView::Remove { path, .. } => path,
        _ => Seq::empty(),
    }
}

pub open spec fn cand_branch(c: PruneStepView) -> Option<Seq<char>> {
    match c {
        PruneStepView::Remove { branch, .. } => branch,
        _ => None,
    }
}

pub open spec fn cand_reason(c: PruneStepView) -> Seq<char> {
    match c {
        PruneStepView::Remove { reason, .. } => reason,
        _ => Seq::empty(),
    }
}

/// The candidates and the skipped worktrees of the repository, for the
/// default branch `d`.
pub open spec fn find_prog(
    dir: Seq<char>,
    d: Seq<char>,
    force: bool,
    k: spec_fn(Seq<PruneStepView>, Seq<(Seq<char>, Seq<char>)>) -> Prog,
) -> Prog {
    git(
        worktree_list_call(dir),
        |r: GitReplyView| match output_of(r) {
            Err(_) => Prog::Finish(Err(list_failed_message())),
            Ok(out) => git(
                merged_call(dir, d),
                |m: GitReplyView| {
                    let merged = match output_of(m) {
                        Ok(o) => merged_names(lines(o)),
                        Err(_) => seq![],
                    };
                    collect_prog(dir, porcelain_worktrees(out), d, merged, force, 0, seq![], seq![], k)
                },
            ),
        },
    )
}

pub open spec fn skip_lines(sk: Seq<(Seq<char>, Seq<char>)>, i: int, then: Prog) -> Prog
    decreases sk.len() - i,
{
    if i < 0 || i >= sk.len() {
        then
    } else {
        say(Level::Warning, "  "@ + sk[i].0 + " ("@ + sk[i].1 + ")"@, skip_lines(sk, i + 1, then))
    }
}

pub open spec fn cand_lines(cs: Seq<PruneStepView>, i: int, then: Prog) -> Prog
    decreases cs.len() - i,
{
    if i < 0 || i >= cs.len() {
        then
    } else {
        say(Level::Info, "  "@ + cand_name(cs[i]) + " ("@ + cand_reason(cs[i]) + ")"@, cand_lines(cs, i + 1, then))
    }
}

pub open spec fn prune_worktree_call(dir: Seq<char>) -> GitCallView {
    GitCallView { dir, args: seq!["worktree"@, "prune"@], mode: GitMode::Output }
}

pub open spec fn remove_plain_call(dir: Seq<char>, path: Seq<char>) -> GitCallView {
    GitCallView { dir, args: seq!["worktree"@, "remove"@, path], mode: GitMode::Output }
}

pub open spec fn branch_delete_safe_call(dir: Seq<char>, branch: Seq<char>) -> GitCallView {
    GitCallView { dir, args: seq!["branch"@, "-d"@, branch], mode: GitMode::Output }
}

/// Remove the candidates from `i` on: an orphan by `worktree prune`, a
/// merged one by `worktree remove` (forced only with `force`); then its
/// branch goes (`-d` when merged, `-D` when orphaned).
pub open spec fn remove_cands(dir: Seq<char>, cs: Seq<PruneStepView>, force: bool, i: int, removed: nat) -> Prog
    decreases cs.len() - i,
{
    if i < 0 || i >= cs.len() {
        say(Level::Success, "Pruned "@ + decimal(removed) + "/"@ + decimal(cs.len()) + " worktrees"@, Prog::Finish(Ok(())))
    } else {
        let c = cs[i];
        let reason = cand_reason(c);
        let call = if reason == "orphan"@ {
            prune_worktree_call(dir)
        } else if force {
            remove_call(dir, cand_path(c))
        } else {
            remove_plain_call(dir, cand_path(c))
        };
        git(
            call,
            |r: GitReplyView| match output_of(r) {
                Ok(_) => {
                    let next = say(
                        Level::Success,
                        "Removed "@ + cand_name(c) + " ("@ + reason + ")"@,
                        remove_cands(dir, cs, force, i + 1, removed + 1),
                    );
                    match cand_branch(c) {
                        Some(b) => if reason == "merged"@ {
                            git(branch_delete_safe_call(dir, b), |x: GitReplyView| next)
                        } else if reason == "orphan"@ {
                            git(branch_delete_call(dir, b), |x: GitReplyView| next)
                        } else {
                            next
                        },
                        None => next,
                    }
                },
                Err(e) => say(
                    Level::Warning,
                    "Failed to remove "@ + cand_name(c) + ": "@ + e,
                    remove_cands(dir, cs, force, i + 1, removed),
                ),
            },
        )
    }
}

/// How a candidate's worktree is removed: an orphan by `git worktree
/// prune`; any other by `git worktree remove <path>`, with `--force` exactly
/// when pruning is forced (so that a forced prune removes worktrees with
/// changes, which a plain removal refuses).
pub proof fn lemma_prune_removal_call(dir: Seq<char>, cs: Seq<PruneStepView>, force: bool, i: int, removed: nat)
    requires
        0 <= i < cs.len(),
    ensures
        remove_cands(dir, cs, force, i, removed) matches Prog::Do(EffectView::Git(c), _) && c.dir == dir && c.args == (
        if cand_reason(cs[i]) == "orphan"@ {
            seq!["worktree"@, "prune"@]
        } else if force {
            seq!["worktree"@, "remove"@, cand_path(cs[i]), "--force"@]
        } else {
            seq!["worktree"@, "remove"@, cand_path(cs[i])]
        }),
{
}

pub open spec fn after_prune_confirm(dir: Seq<char>, cs: Seq<PruneStepView>, force: bool) -> spec_fn(
    Result<bool, Seq<char>>,
) -> Prog {
    |a: Result<bool, Seq<char>>| match a {
        Err(m) => Prog::Finish(Err(m)),
        Ok(false) => say(Level::Info, "Cancelled."@, Prog::Finish(Ok(()))),
        Ok(true) => then_do(EffectView::EnterDir(dir), remove_cands(dir, cs, force, 0, 0)),
    }
}

/// Report the skipped worktrees, show the candidates, ask, and remove.
pub open spec fn report_prog(dir: Seq<char>, force: bool, yes: bool) -> spec_fn(
    Seq<PruneStepView>,
    Seq<(Seq<char>, Seq<char>)>,
) -> Prog {
    |cs: Seq<PruneStepView>, sk: Seq<(Seq<char>, Seq<char>)>| {
        let rest = if cs.len() == 0 {
            say(Level::Info, "Nothing to prune -- all worktrees are clean."@, Prog::Finish(Ok(())))
        } else {
            say(
                Level::Header,
                "Prune worktrees"@,
                cand_lines(
                    cs,
                    0,
                    say(
                        Level::Blank,
                        Seq::empty(),
                        confirm(
                            "Remove "@ + decimal(cs.len()) + " worktree(s)?"@,
                            yes,
                            after_prune_confirm(dir, cs, force),
                        ),
                    ),
                ),
            )
        };
        if sk.len() > 0 {
            say(
                Level::Warning,
                "Skipped dirty worktrees (use --force to include):"@,
                skip_lines(sk, 0, say(Level::Blank, Seq::empty(), rest)),
            )
        } else {
            rest
        }
    }
}

pub open spec fn prune_after_default(dir: Seq<char>, force: bool, yes: bool) -> spec_fn(
    Result<Option<Seq<char>>, Seq<char>>,
) -> Prog {
    |d: Result<Option<Seq<char>>, Seq<char>>| match d {
        Err(m) => Prog::Finish(Err(m)),
        Ok(None) => Prog::Finish(Err("Could not detect default branch"@)),
        Ok(Some(b)) => find_prog(dir, b, force, report_prog(dir, force, yes)),
    }
}

/// The prune command: with the default branch known, remove orphaned
/// worktrees and those whose branch is merged (clean ones, or all with
/// `force`), after asking.
pub open spec fn prune_prog(ctx: ProjectContextView, force: bool, yes: bool) -> Prog {
    drive(default_plan(ctx.project_dir), seq![], 4, prune_after_default(ctx.project_dir, force, yes))
}

pub open spec fn cand_step_view(c: PruneCandidate) -> PruneStepView {
    PruneStepView::Remove { name: c.name@, path: c.path@, branch: opt_view(c.branch), reason: c.reason@ }
}

pub open spec fn cand_views(cs: Seq<PruneCandidate>) -> Seq<PruneStepView> {
    cs.map_values(|c: PruneCandidate| cand_step_view(c))
}

pub open spec fn skip_views(sk: Seq<(String, String)>) -> Seq<(Seq<char>, Seq<char>)> {
    sk.map_values(|p: (String, String)| (p.0@, p.1@))
}

fn facts(path_exists: Option<bool>, shas: &Option<(String, String)>, clean: Option<bool>) -> (r: PruneFacts)
    ensures
        r.path_exists == path_exists,
        r.clean == clean,
        match (r.default_sha, r.branch_sha) {
            (Some(a), Some(b)) => shas matches Some((x, y)) && a@ == x@ && b@ == y@,
            _ => shas is None,
        },
{
    match shas {
        Some((a, b)) => PruneFacts { path_exists, default_sha: Some(a.clone()), branch_sha: Some(b.clone()), clean },
        None => PruneFacts { path_exists, default_sha: None, branch_sha: None, clean },
    }
}

/// Assess one worktree, asking what the assessment needs.
fn assess(
    rn: &mut Runner,
    dir: &str,
    w: &Worktree,
    d: &str,
    merged: &Vec<String>,
    force: bool,
    Ghost(k): Ghost<spec_fn(PruneStepView) -> Prog>,
) -> (r: Result<PruneStep, Effect>)
    requires
        old(rn).consistent(),
        old(rn).prog@ == assess_prog(dir@, w@, d@, merged@.map_values(|s: String| s@), force, k),
    ensures
        final(rn).consistent(),
        final(rn).outcomes == old(rn).outcomes,
        final(rn).whole == old(rn).whole,
        match r {
            Ok(v) => final(rn).prog@ == k(prune_step_view(v)),
            Err(e) => effect_view(e) == next_effect(old(rn).whole@, old(rn).views()),
        },
{
    let none: Option<(String, String)> = None;
    let step = assess_worktree(w, d, merged, force, &facts(None, &none, None));
    match step {
        PruneStep::AskExists => {},
        _ => {
            return Ok(step);
        },
    }
    let o = match rn.perform(Effect::Fs(FsQuery::Exists(w.path.clone()))) {
        Err(e) => {
            return Err(e);
        },
        Ok(o) => o,
    };
    let e = match fs_answer_of(&rn.outcomes[o]) {
        FsReply::Yes => true,
        _ => false,
    };
    let step = assess_worktree(w, d, merged, force, &facts(Some(e), &none, None));
    match step {
        PruneStep::AskShas => {},
        _ => {
            return Ok(step);
        },
    }
    let o = match rn.perform(Effect::Git(make_call(dir, args2("rev-parse", d), GitMode::Output))) {
        Err(x) => {
            return Err(x);
        },
        Ok(o) => o,
    };
    let a = match trimmed_output(&reply_of(&rn.outcomes[o])) {
        Some(t) => string_of(&t),
        None => String::new(),
    };
    let branch: String = match &w.branch {
        Some(b) => b.clone(),
        None => String::new(),
    };
    let o = match rn.perform(Effect::Git(make_call(dir, args2("rev-parse", branch.as_str()), GitMode::Output))) {
        Err(x) => {
            return Err(x);
        },
        Ok(o) => o,
    };
    let b = match trimmed_output(&reply_of(&rn.outcomes[o])) {
        Some(t) => string_of(&t),
        None => String::new(),
    };
    let shas = Some((a, b));
    let step = assess_worktree(w, d, merged, force, &facts(Some(e), &shas, None));
    match step {
        PruneStep::AskClean => {},
        _ => {
            return Ok(step);
        },
    }
    let o = match rn.perform(Effect::Git(make_call(w.path.as_str(), args2("status", "--porcelain"), GitMode::Output))) {
        Err(x) => {
            return Err(x);
        },
        Ok(o) => o,
    };
    let st = match reply_of(&rn.outcomes[o]) {
        GitReply::Success(out) => parse_porcelain(out.as_str()),
        _ => WorktreeStatus::default(),
    };
    Ok(assess_worktree(w, d, merged, force, &facts(Some(e), &shas, Some(st.is_clean()))))
}

/// Find the worktrees to prune and those skipped as dirty.
fn find_prune_candidates(
    rn: &mut Runner,
    dir: &str,
    d: &str,
    force: bool,
    Ghost(k): Ghost<spec_fn(Seq<PruneStepView>, Seq<(Seq<char>, Seq<char>)>) -> Prog>,
) -> (r: Result<(Vec<PruneCandidate>, Vec<(String, String)>), Effect>)
    requires
        old(rn).consistent(),
        old(rn).prog@ == find_prog(dir@, d@, force, k),
    ensures
        final(rn).consistent(),
        final(rn).outcomes == old(rn).outcomes,
        final(rn).whole == old(rn).whole,
        match r {
            Ok((cs, sk)) => final(rn).prog@ == k(cand_views(cs@), skip_views(sk@)),
            Err(e) => effect_view(e) == next_effect(old(rn).whole@, old(rn).views()),
        },
{
    let o = match rn.perform(Effect::Git(make_call(dir, args3("worktree", "list", "--porcelain"), GitMode::Output))) {
        Err(e) => {
            return Err(e);
        },
        Ok(o) => o,
    };
    let ws = match reply_of(&rn.outcomes[o]) {
        GitReply::Success(out) => parse_worktrees(out.as_str()),
        _ => {
            return Err(rn.finish(Err("Failed to list worktrees. Your git version may not support --porcelain.\n   Please upgrade git to version 2.7 or later.".to_string())));
        },
    };
    let o = match rn.perform(Effect::Git(make_call(dir, args4("branch", "--merged", d, "--format=%(refname:short)"), GitMode::Output))) {
        Err(e) => {
            return Err(e);
        },
        Ok(o) => o,
    };
    let merged = match reply_of(&rn.outcomes[o]) {
        GitReply::Success(out) => parse_merged_branches(out.as_str()),
        _ => {
            let v: Vec<String> = Vec::new();
            assert(v@.map_values(|s: String| s@) =~= Seq::<Seq<char>>::empty());
            v
        },
    };
    let ghost wv = worktree_views(ws@);
    let ghost mv = merged@.map_values(|s: String| s@);
    let mut cands: Vec<PruneCandidate> = Vec::new();
    let mut skipped: Vec<(String, String)> = Vec::new();
    let mut i: usize = 0;
    assert(cand_views(cands@) =~= Seq::<PruneStepView>::empty());
    assert(skip_views(skipped@) =~= Seq::<(Seq<char>, Seq<char>)>::empty());
    while i < ws.len()
        invariant
            i <= ws@.len(),
            wv == worktree_views(ws@),
            mv == merged@.map_values(|s: String| s@),
            rn.consistent(),
            rn.outcomes == old(rn).outcomes,
            rn.whole == old(rn).whole,
            rn.prog@ == collect_prog(dir@, wv, d@, mv, force, i as int, cand_views(cands@), skip_views(skipped@), k),
        decreases ws.len() - i,
    {
        assert(wv[i as int] == ws@[i as int]@);
        let ghost cv = cand_views(cands@);
        let ghost sv = skip_views(skipped@);
        let ghost next = collect_next(dir@, wv, d@, mv, force, i as int, cv, sv, k);
        let step = match assess(rn, dir, &ws[i], d, &merged, force, Ghost(next)) {
            Err(e) => {
                return Err(e);
            },
            Ok(s) => s,
        };
        match step {
            PruneStep::Remove(c) => {
                cands.push(c);
                assert(cand_views(cands@) =~= cv.push(prune_step_view(step)));
            },
            PruneStep::Skipped(n, r) => {
                skipped.push((n, r));
                assert(skip_views(skipped@) =~= sv.push((n@, r@)));
            },
            _ => {},
        }
        i = i + 1;
    }
    Ok((cands, skipped))
}

fn usize_text(n: usize) -> (r: String)
    ensures
        r@ == decimal(n as nat),
{
    string_of(&u64_to_chars(n as u64))
}

/// The prune command's next effect, given the outcomes of those it asked
/// for so far.
pub fn run(ctx: &ProjectContext, force: bool, yes: bool, outcomes: &Vec<Outcome>) -> (e: Effect)
    ensures
        effect_view(e) == next_effect(prune_prog(ctx@, force, yes), outcome_views(outcomes@)),
{
    let dir = ctx.project_dir.as_str();
    let mut rn = Runner::new(outcomes, Ghost(prune_prog(ctx@, force, yes)));
    let d = match drive_default_branch(&mut rn, dir, Ghost(prune_after_default(dir@, force, yes))) {
        Err(e) => {
            return e;
        },
        Ok(Err(m)) => {
            return rn.finish(Err(m));
        },
        Ok(Ok(None)) => {
            return rn.finish(Err("Could not detect default branch".to_string()));
        },
        Ok(Ok(Some(b))) => b,
    };
    let (cands, skipped) = match find_prune_candidates(&mut rn, dir, d.as_str(), force, Ghost(report_prog(dir@, force, yes))) {
        Err(e) => {
            return e;
        },
        Ok(x) => x,
    };
    let ghost cv = cand_views(cands@);
    let ghost sv = skip_views(skipped@);
    let ghost rest = if cv.len() == 0 {
        say(Level::Info, "Nothing to prune -- all worktrees are clean."@, Prog::Finish(Ok(())))
    } else {
        say(
            Level::Header,
            "Prune worktrees"@,
            cand_lines(
                cv,
                0,
                say(
                    Level::Blank,
                    Seq::empty(),
                    confirm("Remove "@ + decimal(cv.len()) + " worktree(s)?"@, yes, after_prune_confirm(dir@, cv, force)),
                ),
            ),
        )
    };
    if skipped.len() > 0 {
        match rn.perform(say_exec(Level::Warning, "Skipped dirty worktrees (use --force to include):".to_string())) {
            Err(e) => {
                return e;
            },
            Ok(_) => {},
        }
        let mut i: usize = 0;
        while i < skipped.len()
            invariant
                i <= skipped@.len(),
                sv == skip_views(skipped@),
                rn.consistent(),
                rn.outcomes == outcomes,
                rn.whole@ == prune_prog(ctx@, force, yes),
                rn.prog@ == skip_lines(sv, i as int, say(Level::Blank, Seq::empty(), rest)),
            decreases skipped.len() - i,
        {
            let text = crate::text::join5("  ", skipped[i].0.as_str(), " (", skipped[i].1.as_str(), ")");
            match rn.perform(say_exec(Level::Warning, text)) {
                Err(e) => {
                    return e;
                },
                Ok(_) => {},
            }
            i = i + 1;
        }
        match rn.perform(say_exec(Level::Blank, String::new())) {
            Err(e) => {
                return e;
            },
            Ok(_) => {},
        }
    }
    if cands.len() == 0 {
        return match rn.perform(say_exec(Level::Info, "Nothing to prune -- all worktrees are clean.".to_string())) {
            Err(e) => e,
            Ok(_) => rn.finish(Ok(())),
        };
    }
    match rn.perform(say_exec(Level::Header, "Prune worktrees".to_string())) {
        Err(e) => {
            return e;
        },
        Ok(_) => {},
    }
    let ghost ask = say(
        Level::Blank,
        Seq::empty(),
        confirm("Remove "@ + decimal(cv.len()) + " worktree(s)?"@, yes, after_prune_confirm(dir@, cv, force)),
    );
    let mut i: usize = 0;
    while i < cands.len()
        invariant
            i <= cands@.len(),
            cv == cand_views(cands@),
            rn.consistent(),
            rn.outcomes == outcomes,
            rn.whole@ == prune_prog(ctx@, force, yes),
            rn.prog@ == cand_lines(cv, i as int, ask),
        decreases cands.len() - i,
    {
        let text = crate::text::join5("  ", cands[i].name.as_str(), " (", cands[i].reason.as_str(), ")");
        match rn.perform(say_exec(Level::Info, text)) {
            Err(e) => {
                return e;
            },
            Ok(_) => {},
        }
        i = i + 1;
    }
    match rn.perform(say_exec(Level::Blank, String::new())) {
        Err(e) => {
            return e;
        },
        Ok(_) => {},
    }
    let question = crate::text::join3("Remove ", usize_text(cands.len()).as_str(), " worktree(s)?");
    let o = match rn.perform(Effect::Confirm { message: question, assume_yes: yes }) {
        Err(e) => {
            return e;
        },
        Ok(o) => o,
    };
    match answer_result_of(&rn.outcomes[o]) {
        Err(m) => {
            return rn.finish(Err(m));
        },
        Ok(false) => {
            return match rn.perform(say_exec(Level::Info, "Cancelled.".to_string())) {
                Err(e) => e,
                Ok(_) => rn.finish(Ok(())),
            };
        },
        Ok(true) => {},
    }
    match rn.perform(Effect::EnterDir(dir.to_string())) {
        Err(e) => {
            return e;
        },
        Ok(_) => {},
    }
    let mut removed: usize = 0;
    let mut i: usize = 0;
    while i < cands.len()
        invariant
            i <= cands@.len(),
            removed <= i,
            cv == cand_views(cands@),
            rn.consistent(),
            rn.outcomes == outcomes,
            rn.whole@ == prune_prog(ctx@, force, yes),
            rn.prog@ == remove_cands(dir@, cv, force, i as int, removed as nat),
        decreases cands.len() - i,
    {
        let c = &cands[i];
        let orphan = chars_eq(&chars_of(c.reason.as_str()), &chars_of("orphan"));
        let merged_reason = chars_eq(&chars_of(c.reason.as_str()), &chars_of("merged"));
        let call = if orphan {
            make_call(dir, args2("worktree", "prune"), GitMode::Output)
        } else if force {
            make_call(dir, args4("worktree", "remove", c.path.as_str(), "--force"), GitMode::Output)
        } else {
            make_call(dir, args3("worktree", "remove", c.path.as_str()), GitMode::Output)
        };
        let o = match rn.perform(Effect::Git(call)) {
            Err(e) => {
                return e;
            },
            Ok(o) => o,
        };
        let reply = reply_of(&rn.outcomes[o]);
        if succeeded_exec(&reply) {
            match &c.branch {
                Some(b) => {
                    if merged_reason {
                        match rn.perform(Effect::Git(make_call(dir, args3("branch", "-d", b.as_str()), GitMode::Output))) {
                            Err(e) => {
                                return e;
                            },
                            Ok(_) => {},
                        }
                    } else if orphan {
                        match rn.perform(Effect::Git(make_call(dir, args3("branch", "-D", b.as_str()), GitMode::Output))) {
                            Err(e) => {
                                return e;
                            },
                            Ok(_) => {},
                        }
                    }
                },
                None => {},
            }
            let text = crate::text::join5("Removed ", c.name.as_str(), " (", c.reason.as_str(), ")");
            match rn.perform(say_exec(Level::Success, text)) {
                Err(e) => {
                    return e;
                },
                Ok(_) => {},
            }
            removed = removed + 1;
        } else {
            let text = crate::text::join4("Failed to remove ", c.name.as_str(), ": ", reply_message(&reply).as_str());
            match rn.perform(say_exec(Level::Warning, text)) {
                Err(e) => {
                    return e;
                },
                Ok(_) => {},
            }
        }
        i = i + 1;
    }
    let text = crate::text::join5("Pruned ", usize_text(removed).as_str(), "/", usize_text(cands.len()).as_str(), " worktrees");
    match rn.perform(say_exec(Level::Success, text)) {
        Err(e) => {
            return e;
        },
        Ok(_) => {},
    }
    rn.finish(Ok(()))
}

} // verus!
