//! Everything known about one worktree for a listing, and how it is
//! gathered: a batch of repository-wide facts, then each worktree in turn
//! (only its dirty state in the short listing).
use vstd::prelude::*;

use crate::commands::effects::{drive, drive_fs, effect_view, fs, fs_answer_of, git, next_effect, outcome_view, reply_of, Effect, Outcome, OutcomeView, Prog, Runner};
use crate::commands::steps::drive_default_branch;
use crate::git::branch_info::{parse_for_each_ref_at, BranchMap};
use crate::git::line_diff::{line_diff_head, numstat_fits, numstat_in_range};
use crate::git::main_relationship::{check_merge_tree_support, detect_main_relationship, rel_step_view};
use crate::git::operations::{detect_operation, fs_reply_view, fs_reply_views, op_step_view, FsQuery, FsReply, FsStep};
use crate::git::status::parse_porcelain;
use crate::git::worktree::{parse_porcelain as parse_worktrees, worktree_views};
use crate::git::{args2, args3, args4, make_call, reply_views, GitReply, GitStep};
use crate::paths::{file_name, starts_with_path};
use crate::text::{chars_eq, chars_of, join3, opt_view, split_lines, string_of, trim_chars};
use crate::commands::migrate::dir_name_or;
use crate::commands::prune::rev_parse_call;
use crate::commands::steps::{default_plan, trimmed_or};
use crate::git::branch_info::{for_each_ref_call, for_each_ref_map};
use crate::git::line_diff::{numstat_call, numstat_totals};
use crate::git::main_relationship::{merge_tree_probe_call, relationship_plan};
use crate::git::operations::{operation_plan, FsPlan, FsQueryView, FsReplyView};
use crate::git::status::{clean_status, porcelain_v2_status, status_call, status_from, status_v2_call};
use crate::git::worktree::{list_failed_message, porcelain_worktrees, worktree_list_call};
use crate::git::{check_of, output_of, GitCallView, GitMode, GitReplyView, StepSpec};
use crate::paths::path_starts_with;
use crate::text::{lines, trim};

use crate::git::branch_info::{BranchInfo, BranchInfoView};
use crate::git::line_diff::LineDiff;
use crate::git::main_relationship::MainRelationship;
use crate::git::operations::ActiveOperation;
use crate::git::status::WorktreeStatus;
use crate::git::worktree::{Worktree, WorktreeView};

verus! {

/// What a listing shows of one worktree.
pub struct WorktreeInfo {
    pub worktree: Worktree,
    pub status: WorktreeStatus,
    pub main_rel: MainRelationship,
    pub operation: ActiveOperation,
    pub branch_info: Option<BranchInfo>,
    pub line_diff_head: Option<LineDiff>,
    pub line_diff_main: Option<LineDiff>,
    pub is_current: bool,
    pub display_name: String,
    /// The worktree's directory is gone (or git calls it prunable).
    pub is_orphan: bool,
    /// Its branch is merged into the default branch.
    pub is_merged: bool,
}

pub struct WorktreeInfoView {
    pub worktree: WorktreeView,
    pub status: WorktreeStatus,
    pub main_rel: MainRelationship,
    pub operation: ActiveOperation,
    pub branch_info: Option<BranchInfoView>,
    pub line_diff_head: Option<LineDiff>,
    pub line_diff_main: Option<LineDiff>,
    pub is_current: bool,
    pub display_name: Seq<char>,
    pub is_orphan: bool,
    pub is_merged: bool,
}

impl View for WorktreeInfo {
    type V = WorktreeInfoView;

    open spec fn view(&self) -> WorktreeInfoView {
        WorktreeInfoView {
            worktree: self.worktree@,
            status: self.status,
            main_rel: self.main_rel,
            operation: self.operation,
            branch_info: match self.branch_info {
                Some(b) => Some(b@),
                None => None,
            },
            line_diff_head: self.line_diff_head,
            line_diff_main: self.line_diff_main,
            is_current: self.is_current,
            display_name: self.display_name@,
            is_orphan: self.is_orphan,
            is_merged: self.is_merged,
        }
    }
}

pub open spec fn info_views(v: Seq<WorktreeInfo>) -> Seq<WorktreeInfoView> {
    v.map_values(|i: WorktreeInfo| i@)
}


// ------------------------------------------------------------------
// Gathering
// ------------------------------------------------------------------

/// What is known of the repository before the worktrees are visited.
pub struct Batch {
    /// The default branch (`main` when it cannot be told).
    pub default: Seq<char>,
    /// Its commit (empty when unknown).
    pub default_head: Seq<char>,
    /// `git merge-tree` works.
    pub merge_tree: bool,
    pub branches: Map<Seq<char>, BranchInfoView>,
    /// The branches merged into the default one.
    pub merged: Seq<Seq<char>>,
}

pub open spec fn bare_info(w: WorktreeView) -> WorktreeInfoView {
    WorktreeInfoView {
        worktree: w,
        status: clean_status(),
        main_rel: MainRelationship::IsDefault,
        operation: ActiveOperation::Idle,
        branch_info: None,
        line_diff_head: None,
        line_diff_main: None,
        is_current: false,
        display_name: Seq::empty(),
        is_orphan: false,
        is_merged: false,
    }
}

/// The facts of a worktree's branch, if it has a branch with facts.
pub open spec fn branch_facts(bm: Map<Seq<char>, BranchInfoView>, b: Option<Seq<char>>) -> Option<BranchInfoView> {
    match b {
        Some(x) => if bm.contains_key(x) {
            Some(bm[x])
        } else {
            None
        },
        None => None,
    }
}

/// A prunable worktree: an orphan, nothing asked of git.
pub open spec fn prunable_info(w: WorktreeView, cur: bool, bm: Map<Seq<char>, BranchInfoView>) -> WorktreeInfoView {
    WorktreeInfoView {
        worktree: w,
        status: clean_status(),
        main_rel: MainRelationship::Orphan,
        operation: ActiveOperation::Idle,
        branch_info: branch_facts(bm, w.branch),
        line_diff_head: None,
        line_diff_main: None,
        is_current: cur,
        display_name: dir_name_or(w, "unknown"@),
        is_orphan: true,
        is_merged: false,
    }
}

/// The totals of a `diff --numstat` reply; zero when git failed.
pub open spec fn diff_of(r: GitReplyView) -> LineDiff {
    match output_of(r) {
        Ok(out) => LineDiff { insertions: numstat_totals(out).0 as u32, deletions: numstat_totals(out).1 as u32 },
        Err(_) => LineDiff { insertions: 0, deletions: 0 },
    }
}

/// Whether the current directory lies in the worktree (its canonical
/// path); `false` without a current directory.
pub open spec fn current_prog(cwd: Option<Seq<char>>, path: Seq<char>, k: spec_fn(bool) -> Prog) -> Prog {
    match cwd {
        None => k(false),
        Some(c) => fs(
            FsQueryView::Canonical(path),
            |a: FsReplyView| match a {
                FsReplyView::Text(canon) => k(path_starts_with(c, canon)),
                _ => k(false),
            },
        ),
    }
}

/// A worktree is current exactly when the current directory lies at or
/// below its canonical path: both rooted alike, with the canonical path's
/// components a prefix of the current directory's (so the worktree itself
/// and any directory inside it count, and a directory above it does not).
/// Without a current directory, or when the path has no canonical form, it
/// is not current.
pub proof fn lemma_current_iff_within(cwd: Option<Seq<char>>, path: Seq<char>, k: spec_fn(bool) -> Prog, canon: Seq<char>, m: Seq<char>)
    ensures
        cwd is None ==> current_prog(cwd, path, k) == k(false),
        cwd matches Some(c) ==> {
            &&& current_prog(cwd, path, k) is Do
            &&& current_prog(cwd, path, k)->Do_0 == crate::commands::effects::EffectView::Fs(FsQueryView::Canonical(path))
            &&& (current_prog(cwd, path, k)->Do_1)(OutcomeView::Fs(FsReplyView::Text(canon))) == k(
                crate::paths::has_root(c) == crate::paths::has_root(canon) && crate::paths::components(canon).is_prefix_of(
                    crate::paths::components(c),
                ),
            )
            &&& (current_prog(cwd, path, k)->Do_1)(OutcomeView::Fs(FsReplyView::Text(c))) == k(true)
            &&& (current_prog(cwd, path, k)->Do_1)(OutcomeView::Fs(FsReplyView::Failed(m))) == k(false)
        },
{
    match cwd {
        Some(c) => {
            let cc = crate::paths::components(c);
            let cb = crate::paths::components(canon);
            if cb.len() <= cc.len() {
                assert(cb.is_prefix_of(cc) == (cc.take(cb.len() as int) == cb)) by {
                    assert(cc.take(cb.len() as int) =~= cc.subrange(0, cb.len() as int));
                }
            }
            assert(cc.take(cc.len() as int) =~= cc);
        },
        None => {},
    }
}

pub open spec fn head_or_empty(w: WorktreeView) -> Seq<char> {
    match w.head {
        Some(h) => h,
        None => Seq::empty(),
    }
}

pub open spec fn branch_or_empty(w: WorktreeView) -> Seq<char> {
    match w.branch {
        Some(b) => b,
        None => Seq::empty(),
    }
}

pub open spec fn rel_plan(dir: Seq<char>, w: WorktreeView, b: Batch) -> spec_fn(Seq<GitReplyView>) -> StepSpec<
    MainRelationship,
> {
    |rs: Seq<GitReplyView>| relationship_plan(
        dir,
        branch_or_empty(w),
        head_or_empty(w),
        b.default,
        b.default_head,
        b.merge_tree,
        rs,
    )
}

pub open spec fn op_plan(path: Seq<char>) -> spec_fn(Seq<FsReplyView>) -> FsPlan<ActiveOperation> {
    |rs: Seq<FsReplyView>| operation_plan(path, rs)
}

/// The relationship query needs at most five git commands, so the
/// allowance of five that the listing gives it never cuts it short.
pub proof fn lemma_relationship_allowance(dir: Seq<char>, w: WorktreeView, b: Batch, k: spec_fn(MainRelationship) -> Prog)
    ensures
        drive(rel_plan(dir, w, b), seq![], 5, k) == drive(rel_plan(dir, w, b), seq![], 6, k),
{
    let plan = rel_plan(dir, w, b);
    assert forall|x: Seq<GitReplyView>| x.len() >= 5 implies #[trigger] plan(x) is Done by {}
    crate::commands::effects::lemma_drive_enough(plan, seq![], 5, k, 5);
}

/// Finding the git directory takes at most five questions and probing it
/// for an operation at most three more, so the allowance of eight never
/// cuts the operation query short.
pub proof fn lemma_operation_allowance(path: Seq<char>, k: spec_fn(ActiveOperation) -> Prog)
    ensures
        drive_fs(op_plan(path), seq![], 8, k) == drive_fs(op_plan(path), seq![], 9, k),
{
    let plan = op_plan(path);
    assert forall|x: Seq<FsReplyView>| x.len() >= 8 implies #[trigger] plan(x) is Done by {
        match crate::git::operations::git_dir_plan(path, x) {
            crate::git::operations::GitDirPlan::Dir(gd, n) => {
                assert(x.skip(n).len() >= 3);
            },
            _ => {},
        }
    }
    crate::commands::effects::lemma_drive_fs_enough(plan, seq![], 8, k, 8);
}

/// The worktree's record once everything is known.
pub open spec fn full_info(
    w: WorktreeView,
    b: Batch,
    cur: bool,
    st: WorktreeStatus,
    rel: MainRelationship,
    op: ActiveOperation,
    ldh: LineDiff,
    ldm: Option<LineDiff>,
    orphan: bool,
    merged: bool,
) -> WorktreeInfoView {
    WorktreeInfoView {
        worktree: w,
        status: st,
        main_rel: rel,
        operation: op,
        branch_info: branch_facts(b.branches, w.branch),
        line_diff_head: Some(ldh),
        line_diff_main: ldm,
        is_current: cur,
        display_name: dir_name_or(w, "unknown"@),
        is_orphan: orphan,
        is_merged: merged,
    }
}

/// Whether the branch is merged into the default one: listed as merged
/// and not at the default branch's very commit.
pub open spec fn merged_tail(
    dir: Seq<char>,
    w: WorktreeView,
    b: Batch,
    cur: bool,
    st: WorktreeStatus,
    rel: MainRelationship,
    op: ActiveOperation,
    ldh: LineDiff,
    ldm: Option<LineDiff>,
    orphan: bool,
    k: spec_fn(WorktreeInfoView) -> Prog,
) -> Prog {
    let bn = branch_or_empty(w);
    if bn.len() == 0 || bn == b.default || !b.merged.contains(bn) {
        k(full_info(w, b, cur, st, rel, op, ldh, ldm, orphan, false))
    } else {
        git(
            rev_parse_call(dir, bn),
            |r: GitReplyView| k(full_info(w, b, cur, st, rel, op, ldh, ldm, orphan, trimmed_or(r, Seq::empty()) != b.default_head)),
        )
    }
}

/// After the line counts: whether the directory exists, then merged.
pub open spec fn after_ldm(
    dir: Seq<char>,
    w: WorktreeView,
    b: Batch,
    cur: bool,
    st: WorktreeStatus,
    rel: MainRelationship,
    op: ActiveOperation,
    ldh: LineDiff,
    k: spec_fn(WorktreeInfoView) -> Prog,
) -> spec_fn(Option<LineDiff>) -> Prog {
    |ldm: Option<LineDiff>| fs(
        FsQueryView::Exists(w.path),
        |a: FsReplyView| merged_tail(dir, w, b, cur, st, rel, op, ldh, ldm, !(a is Yes), k),
    )
}

/// After the operation: the uncommitted line counts, then the counts
/// against the default branch (for another branch, with its commit known).
pub open spec fn after_op(
    dir: Seq<char>,
    w: WorktreeView,
    b: Batch,
    cur: bool,
    st: WorktreeStatus,
    rel: MainRelationship,
    k: spec_fn(WorktreeInfoView) -> Prog,
) -> spec_fn(ActiveOperation) -> Prog {
    |op: ActiveOperation| git(
        numstat_call(w.path, "HEAD"@),
        |r: GitReplyView| {
            let next = after_ldm(dir, w, b, cur, st, rel, op, diff_of(r), k);
            if branch_or_empty(w) != b.default && b.default_head.len() > 0 {
                git(
                    numstat_call(dir, b.default + "..."@ + head_or_empty(w)),
                    |r2: GitReplyView| next(Some(diff_of(r2))),
                )
            } else {
                next(None)
            }
        },
    )
}

pub open spec fn after_rel(
    dir: Seq<char>,
    w: WorktreeView,
    b: Batch,
    cur: bool,
    st: WorktreeStatus,
    k: spec_fn(WorktreeInfoView) -> Prog,
) -> spec_fn(MainRelationship) -> Prog {
    |rel: MainRelationship| drive_fs(op_plan(w.path), seq![], 8, after_op(dir, w, b, cur, st, rel, k))
}

/// After the status: the relationship to the default branch (an orphan
/// when either commit is unknown).
pub open spec fn after_status(dir: Seq<char>, w: WorktreeView, b: Batch, cur: bool, k: spec_fn(WorktreeInfoView) -> Prog) -> spec_fn(
    WorktreeStatus,
) -> Prog {
    |st: WorktreeStatus| if head_or_empty(w).len() == 0 || b.default_head.len() == 0 {
        (after_rel(dir, w, b, cur, st, k))(MainRelationship::Orphan)
    } else {
        drive(rel_plan(dir, w, b), seq![], 5, after_rel(dir, w, b, cur, st, k))
    }
}

/// The extended status (`--porcelain=v2 --branch`, else the plain one).
pub open spec fn status_prog(path: Seq<char>, k: spec_fn(WorktreeStatus) -> Prog) -> Prog {
    git(
        status_v2_call(path),
        |r: GitReplyView| match output_of(r) {
            Ok(out) => k(porcelain_v2_status(out)),
            Err(_) => git(status_call(path), |r2: GitReplyView| k(status_from(r2))),
        },
    )
}

pub open spec fn after_current(dir: Seq<char>, w: WorktreeView, b: Batch, k: spec_fn(WorktreeInfoView) -> Prog) -> spec_fn(
    bool,
) -> Prog {
    |cur: bool| if w.is_prunable {
        k(prunable_info(w, cur, b.branches))
    } else {
        status_prog(w.path, after_status(dir, w, b, cur, k))
    }
}

/// Everything about one worktree (a bare one: nothing to ask).
pub open spec fn info_prog(dir: Seq<char>, cwd: Option<Seq<char>>, w: WorktreeView, b: Batch, k: spec_fn(WorktreeInfoView) -> Prog) -> Prog {
    if w.is_bare {
        k(bare_info(w))
    } else {
        current_prog(cwd, w.path, after_current(dir, w, b, k))
    }
}

/// The records of the worktrees from `i` on, after `acc`.
pub open spec fn collect_each(
    dir: Seq<char>,
    cwd: Option<Seq<char>>,
    ws: Seq<WorktreeView>,
    b: Batch,
    i: int,
    acc: Seq<WorktreeInfoView>,
    k: spec_fn(Seq<WorktreeInfoView>) -> Prog,
) -> Prog
    decreases ws.len() - i, 1int,
{
    if i < 0 || i >= ws.len() {
        k(acc)
    } else {
        info_prog(dir, cwd, ws[i], b, collect_next(dir, cwd, ws, b, i, acc, k))
    }
}

pub open spec fn collect_next(
    dir: Seq<char>,
    cwd: Option<Seq<char>>,
    ws: Seq<WorktreeView>,
    b: Batch,
    i: int,
    acc: Seq<WorktreeInfoView>,
    k: spec_fn(Seq<WorktreeInfoView>) -> Prog,
) -> spec_fn(WorktreeInfoView) -> Prog
    decreases ws.len() - i, 0int,
{
    |v: WorktreeInfoView| if i < 0 || i >= ws.len() {
        k(acc)
    } else {
        collect_each(dir, cwd, ws, b, i + 1, acc.push(v), k)
    }
}

pub open spec fn merged_call(dir: Seq<char>, d: Seq<char>) -> GitCallView {
    GitCallView { dir, args: seq!["branch"@, "--merged"@, d, "--format=%(refname:short)"@], mode: GitMode::Output }
}

/// The default branch that the listing works with: the detected one, or
/// `main` when none is found.
pub open spec fn listing_default(d: Result<Option<Seq<char>>, Seq<char>>) -> Seq<char> {
    match d {
        Ok(Some(x)) => x,
        _ => "main"@,
    }
}

pub open spec fn batch_after_default(
    dir: Seq<char>,
    cwd: Option<Seq<char>>,
    ws: Seq<WorktreeView>,
    bm: Map<Seq<char>, BranchInfoView>,
    k: spec_fn(Seq<WorktreeInfoView>, Seq<char>) -> Prog,
) -> spec_fn(Result<Option<Seq<char>>, Seq<char>>) -> Prog {
    |d: Result<Option<Seq<char>>, Seq<char>>| {
        let db = listing_default(d);
        git(
            merge_tree_probe_call(dir),
            |p: GitReplyView| git(
                merged_call(dir, db),
                |m: GitReplyView| git(
                    rev_parse_call(dir, db),
                    |h: GitReplyView| collect_each(
                        dir,
                        cwd,
                        ws,
                        Batch {
                            default: db,
                            default_head: trimmed_or(h, Seq::empty()),
                            merge_tree: check_of(p) == Ok::<bool, Seq<char>>(true),
                            branches: bm,
                            merged: match output_of(m) {
                                Ok(o) => lines(o).map_values(|l: Seq<char>| trim(l)),
                                Err(_) => seq![],
                            },
                        },
                        0,
                        seq![],
                        |infos: Seq<WorktreeInfoView>| k(infos, db),
                    ),
                ),
            ),
        )
    }
}

/// The batch phase: the branches' facts (ages at `now`), the default
/// branch and its commit, `merge-tree` support and the merged branches.
pub open spec fn batch_prog(
    dir: Seq<char>,
    cwd: Option<Seq<char>>,
    ws: Seq<WorktreeView>,
    now: i64,
    k: spec_fn(Seq<WorktreeInfoView>, Seq<char>) -> Prog,
) -> Prog {
    git(
        for_each_ref_call(dir),
        |r: GitReplyView| {
            let bm = match output_of(r) {
                Ok(out) => for_each_ref_map(out, now),
                Err(_) => Map::empty(),
            };
            drive(default_plan(dir), seq![], 4, batch_after_default(dir, cwd, ws, bm, k))
        },
    )
}

/// A short record: names, whether current, dirty state, orphaned.
pub open spec fn short_info(w: WorktreeView, cur: bool, st: WorktreeStatus, orphan: bool) -> WorktreeInfoView {
    WorktreeInfoView {
        worktree: w,
        status: st,
        main_rel: MainRelationship::IsDefault,
        operation: ActiveOperation::Idle,
        branch_info: None,
        line_diff_head: None,
        line_diff_main: None,
        is_current: cur,
        display_name: dir_name_or(w, "unknown"@),
        is_orphan: orphan,
        is_merged: false,
    }
}

/// An orphan is prunable, or not bare and without its directory.
pub open spec fn short_orphan(w: WorktreeView, cur: bool, st: WorktreeStatus, k: spec_fn(WorktreeInfoView) -> Prog) -> Prog {
    if w.is_prunable {
        k(short_info(w, cur, st, true))
    } else if w.is_bare {
        k(short_info(w, cur, st, false))
    } else {
        fs(FsQueryView::Exists(w.path), |a: FsReplyView| k(short_info(w, cur, st, !(a is Yes))))
    }
}

pub open spec fn short_after_current(w: WorktreeView, k: spec_fn(WorktreeInfoView) -> Prog) -> spec_fn(bool) -> Prog {
    |cur: bool| if w.is_bare || w.is_prunable {
        short_orphan(w, cur, clean_status(), k)
    } else {
        git(status_call(w.path), |r: GitReplyView| short_orphan(w, cur, status_from(r), k))
    }
}

pub open spec fn short_info_prog(cwd: Option<Seq<char>>, w: WorktreeView, k: spec_fn(WorktreeInfoView) -> Prog) -> Prog {
    if w.is_bare {
        (short_after_current(w, k))(false)
    } else {
        current_prog(cwd, w.path, short_after_current(w, k))
    }
}

pub open spec fn short_each(
    cwd: Option<Seq<char>>,
    ws: Seq<WorktreeView>,
    i: int,
    acc: Seq<WorktreeInfoView>,
    k: spec_fn(Seq<WorktreeInfoView>) -> Prog,
) -> Prog
    decreases ws.len() - i, 1int,
{
    if i < 0 || i >= ws.len() {
        k(acc)
    } else {
        short_info_prog(cwd, ws[i], short_next(cwd, ws, i, acc, k))
    }
}

pub open spec fn short_next(
    cwd: Option<Seq<char>>,
    ws: Seq<WorktreeView>,
    i: int,
    acc: Seq<WorktreeInfoView>,
    k: spec_fn(Seq<WorktreeInfoView>) -> Prog,
) -> spec_fn(WorktreeInfoView) -> Prog
    decreases ws.len() - i, 0int,
{
    |v: WorktreeInfoView| if i < 0 || i >= ws.len() {
        k(acc)
    } else {
        short_each(cwd, ws, i + 1, acc.push(v), k)
    }
}

/// All worktrees' records: the short ones, or the full ones (branch ages
/// taken at `now`), handed on with the default branch that the full
/// listing works with (empty for the short one).
pub open spec fn collect_prog(
    dir: Seq<char>,
    cwd: Option<Seq<char>>,
    short: bool,
    now: i64,
    k: spec_fn(Seq<WorktreeInfoView>, Seq<char>) -> Prog,
) -> Prog {
    git(
        worktree_list_call(dir),
        |r: GitReplyView| match output_of(r) {
            Err(_) => Prog::Finish(Err(list_failed_message())),
            Ok(out) => if short {
                short_each(cwd, porcelain_worktrees(out), 0, seq![], |infos: Seq<WorktreeInfoView>| k(infos, Seq::empty()))
            } else {
                batch_prog(dir, cwd, porcelain_worktrees(out), now, k)
            },
        },
    )
}

// ------------------------------------------------------------------
// Running it
// ------------------------------------------------------------------

/// Every numstat-like reply among the outcomes has totals that fit `u32`
/// (larger totals would overflow the counters).
pub open spec fn numstat_ok(os: Seq<OutcomeView>) -> bool {
    forall|i: int|
        0 <= i < os.len() ==> match #[trigger] os[i] {
            OutcomeView::Git(GitReplyView::Success(out)) => numstat_in_range(out),
            _ => true,
        }
}

/// Whether the outcomes meet `numstat_ok`.
pub fn numstat_outcomes_fit(outcomes: &Vec<Outcome>) -> (r: bool)
    ensures
        r == numstat_ok(crate::commands::effects::outcome_views(outcomes@)),
{
    let ghost ov = crate::commands::effects::outcome_views(outcomes@);
    let mut i: usize = 0;
    while i < outcomes.len()
        invariant
            i <= outcomes@.len(),
            ov == crate::commands::effects::outcome_views(outcomes@),
            forall|k: int|
                0 <= k < i ==> match #[trigger] ov[k] {
                    OutcomeView::Git(GitReplyView::Success(out)) => numstat_in_range(out),
                    _ => true,
                },
        decreases outcomes.len() - i,
    {
        assert(ov[i as int] == outcome_view(outcomes@[i as int]));
        match &outcomes[i] {
            Outcome::Git(GitReply::Success(out)) => {
                if !numstat_fits(out.as_str()) {
                    return false;
                }
            },
            _ => {},
        }
        i = i + 1;
    }
    true
}

/// The repository facts, as values.
pub struct ListBatch {
    pub default: String,
    pub default_head: String,
    pub merge_tree: bool,
    pub branches: BranchMap,
    pub merged: Vec<String>,
}

pub open spec fn batch_of(lb: ListBatch) -> Batch {
    Batch {
        default: lb.default@,
        default_head: lb.default_head@,
        merge_tree: lb.merge_tree,
        branches: lb.branches@,
        merged: lb.merged@.map_values(|s: String| s@),
    }
}

fn clone_info(b: &BranchInfo) -> (r: BranchInfo)
    ensures
        r@ == b@,
{
    BranchInfo { upstream: crate::git::worktree::clone_opt(&b.upstream), commit_age_secs: b.commit_age_secs, commit_message: b.commit_message.clone() }
}

fn branch_facts_exec(bm: &BranchMap, b: &Option<String>) -> (r: Option<BranchInfo>)
    ensures
        match r {
            Some(x) => branch_facts(bm@, opt_view(*b)) == Some(x@),
            None => branch_facts(bm@, opt_view(*b)) is None,
        },
{
    match b {
        Some(x) => match bm.get(x.as_str()) {
            Some(v) => Some(clone_info(v)),
            None => None,
        },
        None => None,
    }
}

fn dir_name_exec(w: &Worktree) -> (r: String)
    ensures
        r@ == dir_name_or(w@, "unknown"@),
{
    match file_name(w.path.as_str()) {
        Some(n) => n,
        None => "unknown".to_string(),
    }
}

fn current_exec(rn: &mut Runner, cwd: &Option<String>, path: &str, Ghost(k): Ghost<spec_fn(bool) -> Prog>) -> (r: Result<bool, Effect>)
    requires
        old(rn).consistent(),
        old(rn).prog@ == current_prog(opt_view(*cwd), path@, k),
    ensures
        final(rn).consistent(),
        final(rn).outcomes == old(rn).outcomes,
        final(rn).whole == old(rn).whole,
        match r {
            Ok(b) => final(rn).prog@ == k(b),
            Err(e) => effect_view(e) == next_effect(old(rn).whole@, old(rn).views()),
        },
{
    let c = match cwd {
        None => {
            return Ok(false);
        },
        Some(c) => c,
    };
    let o = match rn.perform(Effect::Fs(FsQuery::Canonical(path.to_string()))) {
        Err(e) => {
            return Err(e);
        },
        Ok(o) => o,
    };
    match fs_answer_of(&rn.outcomes[o]) {
        FsReply::Text(canon) => Ok(starts_with_path(c.as_str(), canon.as_str())),
        _ => Ok(false),
    }
}

fn drive_rel(
    rn: &mut Runner,
    dir: &str,
    w: &Worktree,
    lb: &ListBatch,
    Ghost(k): Ghost<spec_fn(MainRelationship) -> Prog>,
) -> (r: Result<MainRelationship, Effect>)
    requires
        old(rn).consistent(),
        old(rn).prog@ == drive(rel_plan(dir@, w@, batch_of(*lb)), seq![], 5, k),
    ensures
        final(rn).consistent(),
        final(rn).outcomes == old(rn).outcomes,
        final(rn).whole == old(rn).whole,
        match r {
            Ok(v) => final(rn).prog@ == k(v),
            Err(e) => effect_view(e) == next_effect(old(rn).whole@, old(rn).views()),
        },
{
    let bn: String = match &w.branch {
        Some(b) => b.clone(),
        None => String::new(),
    };
    let head: String = match &w.head {
        Some(h) => h.clone(),
        None => String::new(),
    };
    let ghost plan = rel_plan(dir@, w@, batch_of(*lb));
    let mut rs: Vec<GitReply> = Vec::new();
    assert(reply_views(rs@) =~= Seq::<GitReplyView>::empty());
    loop
        invariant
            rn.consistent(),
            rn.outcomes == old(rn).outcomes,
            rn.whole == old(rn).whole,
            rs@.len() <= 5,
            bn@ == branch_or_empty(w@),
            head@ == head_or_empty(w@),
            plan == rel_plan(dir@, w@, batch_of(*lb)),
            rn.prog@ == drive(plan, reply_views(rs@), (5 - rs@.len()) as nat, k),
        decreases 5 - rs@.len(),
    {
        let step = detect_main_relationship(
            dir,
            bn.as_str(),
            head.as_str(),
            lb.default.as_str(),
            lb.default_head.as_str(),
            lb.merge_tree,
            &rs,
        );
        assert(rel_step_view(step) == plan(reply_views(rs@)));
        match step {
            GitStep::Run(c) => {
                if rs.len() >= 5 {
                    return Err(rn.finish(Err(String::new())));
                }
                match rn.perform(Effect::Git(c)) {
                    Err(e) => {
                        return Err(e);
                    },
                    Ok(i) => {
                        let ghost before = reply_views(rs@);
                        let reply = reply_of(&rn.outcomes[i]);
                        rs.push(reply);
                        assert(reply_views(rs@) =~= before.push(reply@));
                    },
                }
            },
            GitStep::Done(v) => {
                return Ok(v);
            },
        }
    }
}

fn drive_op(rn: &mut Runner, path: &str, Ghost(k): Ghost<spec_fn(ActiveOperation) -> Prog>) -> (r: Result<ActiveOperation, Effect>)
    requires
        old(rn).consistent(),
        old(rn).prog@ == drive_fs(op_plan(path@), seq![], 8, k),
    ensures
        final(rn).consistent(),
        final(rn).outcomes == old(rn).outcomes,
        final(rn).whole == old(rn).whole,
        match r {
            Ok(v) => final(rn).prog@ == k(v),
            Err(e) => effect_view(e) == next_effect(old(rn).whole@, old(rn).views()),
        },
{
    let ghost plan = op_plan(path@);
    let mut rs: Vec<FsReply> = Vec::new();
    assert(fs_reply_views(rs@) =~= Seq::<FsReplyView>::empty());
    loop
        invariant
            rn.consistent(),
            rn.outcomes == old(rn).outcomes,
            rn.whole == old(rn).whole,
            rs@.len() <= 8,
            plan == op_plan(path@),
            rn.prog@ == drive_fs(plan, fs_reply_views(rs@), (8 - rs@.len()) as nat, k),
        decreases 8 - rs@.len(),
    {
        let step = detect_operation(path, &rs);
        assert(op_step_view(step) == plan(fs_reply_views(rs@)));
        match step {
            FsStep::Ask(q) => {
                if rs.len() >= 8 {
                    return Err(rn.finish(Err(String::new())));
                }
                match rn.perform(Effect::Fs(q)) {
                    Err(e) => {
                        return Err(e);
                    },
                    Ok(i) => {
                        let ghost before = fs_reply_views(rs@);
                        let reply = fs_answer_of(&rn.outcomes[i]);
                        let ghost rv = fs_reply_view(reply);
                        rs.push(reply);
                        assert(fs_reply_views(rs@) =~= before.push(rv));
                    },
                }
            },
            FsStep::Done(v) => {
                return Ok(v);
            },
        }
    }
}

/// The totals of a numstat reply the outcomes hold.
fn diff_exec(reply: &GitReply) -> (d: LineDiff)
    requires
        match reply@ {
            GitReplyView::Success(out) => numstat_in_range(out),
            _ => true,
        },
    ensures
        d == diff_of(reply@),
{
    let mut rs: Vec<GitReply> = Vec::new();
    let r2 = match reply {
        GitReply::Success(s) => GitReply::Success(s.clone()),
        GitReply::Failure(s) => GitReply::Failure(s.clone()),
        GitReply::NotRun(s) => GitReply::NotRun(s.clone()),
    };
    rs.push(r2);
    assert(reply_views(rs@)[0] == reply@);
    match line_diff_head("", &rs) {
        GitStep::Done(d) => d,
        GitStep::Run(_) => LineDiff { insertions: 0, deletions: 0 },
    }
}

/// Everything about one worktree.
fn collect_one(
    rn: &mut Runner,
    dir: &str,
    cwd: &Option<String>,
    w: &Worktree,
    lb: &ListBatch,
    Ghost(k): Ghost<spec_fn(WorktreeInfoView) -> Prog>,
) -> (r: Result<WorktreeInfo, Effect>)
    requires
        old(rn).consistent(),
        numstat_ok(old(rn).views()),
        old(rn).prog@ == info_prog(dir@, opt_view(*cwd), w@, batch_of(*lb), k),
    ensures
        final(rn).consistent(),
        final(rn).outcomes == old(rn).outcomes,
        final(rn).whole == old(rn).whole,
        match r {
            Ok(info) => final(rn).prog@ == k(info@),
            Err(e) => effect_view(e) == next_effect(old(rn).whole@, old(rn).views()),
        },
{
    let ghost b = batch_of(*lb);
    if w.is_bare {
        let info = WorktreeInfo {
            worktree: w.clone(),
            status: WorktreeStatus::default(),
            main_rel: MainRelationship::IsDefault,
            operation: ActiveOperation::Idle,
            branch_info: None,
            line_diff_head: None,
            line_diff_main: None,
            is_current: false,
            display_name: String::new(),
            is_orphan: false,
            is_merged: false,
        };
        assert(info@ == bare_info(w@));
        return Ok(info);
    }
    let cur = match current_exec(rn, cwd, w.path.as_str(), Ghost(after_current(dir@, w@, b, k))) {
        Err(e) => {
            return Err(e);
        },
        Ok(c) => c,
    };
    if w.is_prunable {
        let info = WorktreeInfo {
            worktree: w.clone(),
            status: WorktreeStatus::default(),
            main_rel: MainRelationship::Orphan,
            operation: ActiveOperation::Idle,
            branch_info: branch_facts_exec(&lb.branches, &w.branch),
            line_diff_head: None,
            line_diff_main: None,
            is_current: cur,
            display_name: dir_name_exec(w),
            is_orphan: true,
            is_merged: false,
        };
        assert(info@ == prunable_info(w@, cur, b.branches));
        return Ok(info);
    }
    // status
    let o = match rn.perform(Effect::Git(make_call(w.path.as_str(), args3("status", "--porcelain=v2", "--branch"), GitMode::Output))) {
        Err(e) => {
            return Err(e);
        },
        Ok(o) => o,
    };
    let first = reply_of(&rn.outcomes[o]);
    let st = match &first {
        GitReply::Success(out) => crate::git::status::parse_porcelain_v2(out.as_str()),
        _ => {
            let o2 = match rn.perform(Effect::Git(make_call(w.path.as_str(), args2("status", "--porcelain"), GitMode::Output))) {
                Err(e) => {
                    return Err(e);
                },
                Ok(o2) => o2,
            };
            match reply_of(&rn.outcomes[o2]) {
                GitReply::Success(out) => parse_porcelain(out.as_str()),
                _ => WorktreeStatus::default(),
            }
        },
    };
    // relationship
    let ghost after_r = after_rel(dir@, w@, b, cur, st, k);
    let empty_head = match &w.head {
        Some(h) => chars_of(h.as_str()).len() == 0,
        None => true,
    };
    let no_default_head = chars_of(lb.default_head.as_str()).len() == 0;
    let rel = if empty_head || no_default_head {
        MainRelationship::Orphan
    } else {
        match drive_rel(rn, dir, w, lb, Ghost(after_r)) {
            Err(e) => {
                return Err(e);
            },
            Ok(v) => v,
        }
    };
    collect_rest(rn, dir, w, lb, cur, st, rel, Ghost(k))
}

fn collect_rest(
    rn: &mut Runner,
    dir: &str,
    w: &Worktree,
    lb: &ListBatch,
    cur: bool,
    st: WorktreeStatus,
    rel: MainRelationship,
    Ghost(k): Ghost<spec_fn(WorktreeInfoView) -> Prog>,
) -> (r: Result<WorktreeInfo, Effect>)
    requires
        old(rn).consistent(),
        numstat_ok(old(rn).views()),
        old(rn).prog@ == drive_fs(op_plan(w@.path), seq![], 8, after_op(dir@, w@, batch_of(*lb), cur, st, rel, k)),
    ensures
        final(rn).consistent(),
        final(rn).outcomes == old(rn).outcomes,
        final(rn).whole == old(rn).whole,
        match r {
            Ok(info) => final(rn).prog@ == k(info@),
            Err(e) => effect_view(e) == next_effect(old(rn).whole@, old(rn).views()),
        },
{
    let ghost b = batch_of(*lb);
    // operation
    let op = match drive_op(rn, w.path.as_str(), Ghost(after_op(dir@, w@, b, cur, st, rel, k))) {
        Err(e) => {
            return Err(e);
        },
        Ok(v) => v,
    };
    // line counts
    let o = match rn.perform(Effect::Git(make_call(w.path.as_str(), args3("diff", "--numstat", "HEAD"), GitMode::Output))) {
        Err(e) => {
            return Err(e);
        },
        Ok(o) => o,
    };
    assert(numstat_ok(rn.views()));
    assert(rn.views()[o as int] == outcome_view(rn.outcomes@[o as int]));
    let ldh = diff_exec(&reply_of(&rn.outcomes[o]));
    let bn: String = match &w.branch {
        Some(x) => x.clone(),
        None => String::new(),
    };
    let head: String = match &w.head {
        Some(h) => h.clone(),
        None => String::new(),
    };
    let no_default_head = chars_of(lb.default_head.as_str()).len() == 0;
    let ldm = if !chars_eq(&chars_of(bn.as_str()), &chars_of(lb.default.as_str())) && !no_default_head {
        let range = join3(lb.default.as_str(), "...", head.as_str());
        let o = match rn.perform(Effect::Git(make_call(dir, args3("diff", "--numstat", range.as_str()), GitMode::Output))) {
            Err(e) => {
                return Err(e);
            },
            Ok(o) => o,
        };
        assert(rn.views()[o as int] == outcome_view(rn.outcomes@[o as int]));
        Some(diff_exec(&reply_of(&rn.outcomes[o])))
    } else {
        None
    };
    collect_tail(rn, dir, w, lb, cur, st, rel, op, ldh, ldm, Ghost(k))
}

fn collect_tail(
    rn: &mut Runner,
    dir: &str,
    w: &Worktree,
    lb: &ListBatch,
    cur: bool,
    st: WorktreeStatus,
    rel: MainRelationship,
    op: ActiveOperation,
    ldh: LineDiff,
    ldm: Option<LineDiff>,
    Ghost(k): Ghost<spec_fn(WorktreeInfoView) -> Prog>,
) -> (r: Result<WorktreeInfo, Effect>)
    requires
        old(rn).consistent(),
        old(rn).prog@ == (after_ldm(dir@, w@, batch_of(*lb), cur, st, rel, op, ldh, k))(ldm),
    ensures
        final(rn).consistent(),
        final(rn).outcomes == old(rn).outcomes,
        final(rn).whole == old(rn).whole,
        match r {
            Ok(info) => final(rn).prog@ == k(info@),
            Err(e) => effect_view(e) == next_effect(old(rn).whole@, old(rn).views()),
        },
{
    let ghost b = batch_of(*lb);
    let bn: String = match &w.branch {
        Some(x) => x.clone(),
        None => String::new(),
    };
    // directory
    let o = match rn.perform(Effect::Fs(FsQuery::Exists(w.path.clone()))) {
        Err(e) => {
            return Err(e);
        },
        Ok(o) => o,
    };
    let orphan = match fs_answer_of(&rn.outcomes[o]) {
        FsReply::Yes => false,
        _ => true,
    };
    // merged
    let listed = chars_of(bn.as_str()).len() > 0 && !chars_eq(&chars_of(bn.as_str()), &chars_of(lb.default.as_str())) && contains_name(&lb.merged, bn.as_str());
    let merged = if !listed {
        false
    } else {
        let o = match rn.perform(Effect::Git(make_call(dir, args2("rev-parse", bn.as_str()), GitMode::Output))) {
            Err(e) => {
                return Err(e);
            },
            Ok(o) => o,
        };
        let sha: Vec<char> = match crate::git::trimmed_output(&reply_of(&rn.outcomes[o])) {
            Some(t) => t,
            None => Vec::new(),
        };
        !chars_eq(&sha, &chars_of(lb.default_head.as_str()))
    };
    let info = WorktreeInfo {
        worktree: w.clone(),
        status: st,
        main_rel: rel,
        operation: op,
        branch_info: branch_facts_exec(&lb.branches, &w.branch),
        line_diff_head: Some(ldh),
        line_diff_main: ldm,
        is_current: cur,
        display_name: dir_name_exec(w),
        is_orphan: orphan,
        is_merged: merged,
    };
    assert(info@ == full_info(w@, b, cur, st, rel, op, ldh, ldm, orphan, merged));
    Ok(info)
}

fn contains_name(names: &Vec<String>, n: &str) -> (r: bool)
    ensures
        r == names@.map_values(|s: String| s@).contains(n@),
{
    let nv = chars_of(n);
    let mut i: usize = 0;
    while i < names.len()
        invariant
            i <= names@.len(),
            nv@ == n@,
            forall|k: int| 0 <= k < i ==> names@[k]@ != n@,
        decreases names.len() - i,
    {
        if chars_eq(&chars_of(names[i].as_str()), &nv) {
            assert(names@.map_values(|s: String| s@)[i as int] == n@);
            return true;
        }
        i = i + 1;
    }
    proof {
        let v = names@.map_values(|s: String| s@);
        if v.contains(n@) {
            let k = choose|k: int| 0 <= k < v.len() && v[k] == n@;
            assert(names@[k]@ == n@);
        }
    }
    false
}

/// The trimmed lines of a text.
fn trimmed_lines(out: &str) -> (r: Vec<String>)
    ensures
        r@.map_values(|s: String| s@) == lines(out@).map_values(|l: Seq<char>| trim(l)),
{
    let ls = split_lines(&chars_of(out));
    let ghost lv = crate::text::views(ls@);
    let mut v: Vec<String> = Vec::new();
    let mut i: usize = 0;
    while i < ls.len()
        invariant
            i <= ls@.len(),
            lv == crate::text::views(ls@),
            lv == lines(out@),
            v@.map_values(|s: String| s@) == lv.take(i as int).map_values(|l: Seq<char>| trim(l)),
        decreases ls.len() - i,
    {
        let ghost before = v@.map_values(|s: String| s@);
        v.push(string_of(&trim_chars(&ls[i])));
        assert(v@.map_values(|s: String| s@) =~= before.push(trim(lv[i as int])));
        assert(lv.take(i + 1).map_values(|l: Seq<char>| trim(l)) =~= lv.take(i as int).map_values(
            |l: Seq<char>| trim(l),
        ).push(trim(lv[i as int])));
        i = i + 1;
    }
    assert(lv.take(ls@.len() as int) =~= lv);
    v
}

/// Visit every worktree with the repository facts.
fn collect_each_exec(
    rn: &mut Runner,
    dir: &str,
    cwd: &Option<String>,
    ws: &Vec<Worktree>,
    lb: &ListBatch,
    Ghost(k): Ghost<spec_fn(Seq<WorktreeInfoView>) -> Prog>,
) -> (r: Result<Vec<WorktreeInfo>, Effect>)
    requires
        old(rn).consistent(),
        numstat_ok(old(rn).views()),
        old(rn).prog@ == collect_each(dir@, opt_view(*cwd), worktree_views(ws@), batch_of(*lb), 0, seq![], k),
    ensures
        final(rn).consistent(),
        final(rn).outcomes == old(rn).outcomes,
        final(rn).whole == old(rn).whole,
        match r {
            Ok(infos) => final(rn).prog@ == k(info_views(infos@)),
            Err(e) => effect_view(e) == next_effect(old(rn).whole@, old(rn).views()),
        },
{
    let ghost wv = worktree_views(ws@);
    let ghost b = batch_of(*lb);
    let mut infos: Vec<WorktreeInfo> = Vec::new();
    assert(info_views(infos@) =~= Seq::<WorktreeInfoView>::empty());
    let mut i: usize = 0;
    while i < ws.len()
        invariant
            i <= ws@.len(),
            wv == worktree_views(ws@),
            b == batch_of(*lb),
            rn.consistent(),
            numstat_ok(rn.views()),
            rn.outcomes == old(rn).outcomes,
            rn.whole == old(rn).whole,
            rn.prog@ == collect_each(dir@, opt_view(*cwd), wv, b, i as int, info_views(infos@), k),
        decreases ws.len() - i,
    {
        assert(wv[i as int] == ws@[i as int]@);
        let ghost next = collect_next(dir@, opt_view(*cwd), wv, b, i as int, info_views(infos@), k);
        let info = match collect_one(rn, dir, cwd, &ws[i], lb, Ghost(next)) {
            Err(e) => {
                return Err(e);
            },
            Ok(x) => x,
        };
        let ghost before = info_views(infos@);
        let ghost iv = info@;
        infos.push(info);
        assert(info_views(infos@) =~= before.push(iv));
        i = i + 1;
    }
    Ok(infos)
}

/// The batch phase, then every worktree.
fn collect_full(
    rn: &mut Runner,
    dir: &str,
    cwd: &Option<String>,
    ws: &Vec<Worktree>,
    now: i64,
    Ghost(k): Ghost<spec_fn(Seq<WorktreeInfoView>, Seq<char>) -> Prog>,
) -> (r: Result<(Vec<WorktreeInfo>, String), Effect>)
    requires
        old(rn).consistent(),
        numstat_ok(old(rn).views()),
        old(rn).prog@ == batch_prog(dir@, opt_view(*cwd), worktree_views(ws@), now, k),
    ensures
        final(rn).consistent(),
        final(rn).outcomes == old(rn).outcomes,
        final(rn).whole == old(rn).whole,
        match r {
            Ok((infos, d)) => final(rn).prog@ == k(info_views(infos@), d@),
            Err(e) => effect_view(e) == next_effect(old(rn).whole@, old(rn).views()),
        },
{
    let ghost wv = worktree_views(ws@);
    let empty: Vec<GitReply> = Vec::new();
    let c = match crate::git::branch_info::batch_branch_info(dir, &empty) {
        GitStep::Run(c) => c,
        GitStep::Done(_) => {
            return Err(rn.finish(Err(String::new())));
        },
    };
    let o = match rn.perform(Effect::Git(c)) {
        Err(e) => {
            return Err(e);
        },
        Ok(o) => o,
    };
    let branches = match reply_of(&rn.outcomes[o]) {
        GitReply::Success(out) => parse_for_each_ref_at(out.as_str(), now),
        _ => BranchMap::new(),
    };
    let ghost bm = branches@;
    let d = match drive_default_branch(rn, dir, Ghost(batch_after_default(dir@, opt_view(*cwd), wv, bm, k))) {
        Err(e) => {
            return Err(e);
        },
        Ok(d) => d,
    };
    let ghost dv = listing_default(crate::commands::steps::opt_result_view(d));
    let default: String = match d {
        Ok(Some(x)) => x,
        _ => "main".to_string(),
    };
    assert(default@ == dv);
    let c = match check_merge_tree_support(dir, &empty) {
        GitStep::Run(c) => c,
        GitStep::Done(_) => {
            return Err(rn.finish(Err(String::new())));
        },
    };
    let o = match rn.perform(Effect::Git(c)) {
        Err(e) => {
            return Err(e);
        },
        Ok(o) => o,
    };
    let mut probe: Vec<GitReply> = Vec::new();
    probe.push(reply_of(&rn.outcomes[o]));
    let merge_tree = match check_merge_tree_support(dir, &probe) {
        GitStep::Done(b) => b,
        GitStep::Run(_) => false,
    };
    let o = match rn.perform(Effect::Git(make_call(dir, args4("branch", "--merged", default.as_str(), "--format=%(refname:short)"), GitMode::Output))) {
        Err(e) => {
            return Err(e);
        },
        Ok(o) => o,
    };
    let merged = match reply_of(&rn.outcomes[o]) {
        GitReply::Success(out) => trimmed_lines(out.as_str()),
        _ => {
            let v: Vec<String> = Vec::new();
            assert(v@.map_values(|s: String| s@) =~= Seq::<Seq<char>>::empty());
            v
        },
    };
    let o = match rn.perform(Effect::Git(make_call(dir, args2("rev-parse", default.as_str()), GitMode::Output))) {
        Err(e) => {
            return Err(e);
        },
        Ok(o) => o,
    };
    let default_head = match crate::git::trimmed_output(&reply_of(&rn.outcomes[o])) {
        Some(t) => string_of(&t),
        None => String::new(),
    };
    let lb = ListBatch { default, default_head, merge_tree, branches, merged };
    let ghost kd = |infos: Seq<WorktreeInfoView>| k(infos, dv);
    match collect_each_exec(rn, dir, cwd, ws, &lb, Ghost(kd)) {
        Err(e) => Err(e),
        Ok(infos) => Ok((infos, lb.default)),
    }
}

/// One worktree in the short listing.
fn short_one(
    rn: &mut Runner,
    cwd: &Option<String>,
    w: &Worktree,
    Ghost(k): Ghost<spec_fn(WorktreeInfoView) -> Prog>,
) -> (r: Result<WorktreeInfo, Effect>)
    requires
        old(rn).consistent(),
        old(rn).prog@ == short_info_prog(opt_view(*cwd), w@, k),
    ensures
        final(rn).consistent(),
        final(rn).outcomes == old(rn).outcomes,
        final(rn).whole == old(rn).whole,
        match r {
            Ok(info) => final(rn).prog@ == k(info@),
            Err(e) => effect_view(e) == next_effect(old(rn).whole@, old(rn).views()),
        },
{
    let cur = if w.is_bare {
        false
    } else {
        match current_exec(rn, cwd, w.path.as_str(), Ghost(short_after_current(w@, k))) {
            Err(e) => {
                return Err(e);
            },
            Ok(c) => c,
        }
    };
    let st = if w.is_bare || w.is_prunable {
        WorktreeStatus::default()
    } else {
        let o = match rn.perform(Effect::Git(make_call(w.path.as_str(), args2("status", "--porcelain"), GitMode::Output))) {
            Err(e) => {
                return Err(e);
            },
            Ok(o) => o,
        };
        match reply_of(&rn.outcomes[o]) {
            GitReply::Success(out) => parse_porcelain(out.as_str()),
            _ => WorktreeStatus::default(),
        }
    };
    let orphan = if w.is_prunable {
        true
    } else if w.is_bare {
        false
    } else {
        let o = match rn.perform(Effect::Fs(FsQuery::Exists(w.path.clone()))) {
            Err(e) => {
                return Err(e);
            },
            Ok(o) => o,
        };
        match fs_answer_of(&rn.outcomes[o]) {
            FsReply::Yes => false,
            _ => true,
        }
    };
    let info = WorktreeInfo {
        worktree: w.clone(),
        status: st,
        main_rel: MainRelationship::IsDefault,
        operation: ActiveOperation::Idle,
        branch_info: None,
        line_diff_head: None,
        line_diff_main: None,
        is_current: cur,
        display_name: dir_name_exec(w),
        is_orphan: orphan,
        is_merged: false,
    };
    assert(info@ == short_info(w@, cur, st, orphan));
    Ok(info)
}

fn collect_short(
    rn: &mut Runner,
    cwd: &Option<String>,
    ws: &Vec<Worktree>,
    Ghost(k): Ghost<spec_fn(Seq<WorktreeInfoView>) -> Prog>,
) -> (r: Result<Vec<WorktreeInfo>, Effect>)
    requires
        old(rn).consistent(),
        old(rn).prog@ == short_each(opt_view(*cwd), worktree_views(ws@), 0, seq![], k),
    ensures
        final(rn).consistent(),
        final(rn).outcomes == old(rn).outcomes,
        final(rn).whole == old(rn).whole,
        match r {
            Ok(infos) => final(rn).prog@ == k(info_views(infos@)),
            Err(e) => effect_view(e) == next_effect(old(rn).whole@, old(rn).views()),
        },
{
    let ghost wv = worktree_views(ws@);
    let mut infos: Vec<WorktreeInfo> = Vec::new();
    assert(info_views(infos@) =~= Seq::<WorktreeInfoView>::empty());
    let mut i: usize = 0;
    while i < ws.len()
        invariant
            i <= ws@.len(),
            wv == worktree_views(ws@),
            rn.consistent(),
            rn.outcomes == old(rn).outcomes,
            rn.whole == old(rn).whole,
            rn.prog@ == short_each(opt_view(*cwd), wv, i as int, info_views(infos@), k),
        decreases ws.len() - i,
    {
        assert(wv[i as int] == ws@[i as int]@);
        let ghost next = short_next(opt_view(*cwd), wv, i as int, info_views(infos@), k);
        let info = match short_one(rn, cwd, &ws[i], Ghost(next)) {
            Err(e) => {
                return Err(e);
            },
            Ok(x) => x,
        };
        let ghost before = info_views(infos@);
        let ghost iv = info@;
        infos.push(info);
        assert(info_views(infos@) =~= before.push(iv));
        i = i + 1;
    }
    Ok(infos)
}

/// Gather the records of all worktrees, with the default branch that the
/// full listing detected (`main` when it found none; empty for the short
/// listing).
pub fn collect_all(
    rn: &mut Runner,
    dir: &str,
    cwd: &Option<String>,
    short: bool,
    now: i64,
    Ghost(k): Ghost<spec_fn(Seq<WorktreeInfoView>, Seq<char>) -> Prog>,
) -> (r: Result<(Vec<WorktreeInfo>, String), Effect>)
    requires
        old(rn).consistent(),
        numstat_ok(old(rn).views()),
        old(rn).prog@ == collect_prog(dir@, opt_view(*cwd), short, now, k),
    ensures
        final(rn).consistent(),
        final(rn).outcomes == old(rn).outcomes,
        final(rn).whole == old(rn).whole,
        match r {
            Ok((infos, d)) => final(rn).prog@ == k(info_views(infos@), d@) && (short ==> d@.len() == 0),
            Err(e) => effect_view(e) == next_effect(old(rn).whole@, old(rn).views()),
        },
{
    let o = match rn.perform(Effect::Git(make_call(dir, args3("worktree", "list", "--porcelain"), GitMode::Output))) {
        Err(e) => {
            return Err(e);
        },
        Ok(o) => o,
    };
    let ws = match reply_of(&rn.outcomes[o]) {
        GitReply::Success(out) => parse_worktrees(out.as_str()),
        _ => {
            return Err(rn.finish(Err("Failed to list worktrees. Your git version may not support --porcelain.\n   Please upgrade git to version 2.7 or later.".to_string())));
        },
    };
    if short {
        let ghost ks = |infos: Seq<WorktreeInfoView>| k(infos, Seq::empty());
        match collect_short(rn, cwd, &ws, Ghost(ks)) {
            Err(e) => Err(e),
            Ok(infos) => Ok((infos, String::new())),
        }
    } else {
        collect_full(rn, dir, cwd, &ws, now, Ghost(k))
    }
}

} // verus!
