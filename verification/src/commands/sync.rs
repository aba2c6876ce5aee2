//! Syncing: fetch, fast-forward the default branch, report branches whose
//! remote is gone, and with `--all` fast-forward every clean worktree.
use vstd::prelude::*;

use crate::commands::effects::{drive, fs, fs_answer_of, git, lemma_next_effect_step, next_effect, reply_of, say, Effect, EffectView, Level, Outcome, OutcomeView, Prog, Runner};
use crate::commands::steps::{default_plan, drive_default_branch, fetch_ref_call, say_exec, succeeded, succeeded_exec, worktree_on, worktree_on_exec};
use crate::git::operations::{FsQuery, FsQueryView, FsReply, FsReplyView};
use crate::git::status::{parse_porcelain, status_call, status_clean, status_from, WorktreeStatus};
use crate::git::worktree::{list_failed_message, parse_porcelain as parse_worktrees, porcelain_worktrees, worktree_list_call, worktree_views, Worktree, WorktreeView};
use crate::git::{args2, args3, make_call, output_of, GitCallView, GitMode, GitReply, GitReplyView, trimmed_output};
use crate::layout::ProjectContext;
use crate::paths::{file_name, path_file_name};
use crate::text::{chars_eq, chars_of, contains, contains_exec, has_prefix, lines, split_lines, split_whitespace_chars, starts_with, string_of, trim, words};

verus! {

pub open spec fn fetch_all_call(dir: Seq<char>) -> GitCallView {
    GitCallView { dir, args: seq!["fetch"@, "--all"@, "--prune"@], mode: GitMode::Output }
}

pub open spec fn ff_call(dir: Seq<char>, target: Seq<char>) -> GitCallView {
    GitCallView { dir, args: seq!["merge"@, "--ff-only"@, target], mode: GitMode::Output }
}

pub open spec fn tracking_call(dir: Seq<char>) -> GitCallView {
    GitCallView {
        dir,
        args: seq!["branch"@, "--format=%(refname:short) %(upstream:track)"@],
        mode: GitMode::Output,
    }
}

pub open spec fn upstream_call(dir: Seq<char>) -> GitCallView {
    GitCallView { dir, args: seq!["rev-parse"@, "--abbrev-ref"@, "@{upstream}"@], mode: GitMode::Output }
}

pub open spec fn config_read_call(dir: Seq<char>, key: Seq<char>) -> GitCallView {
    GitCallView { dir, args: seq!["config"@, key], mode: GitMode::Output }
}

/// The directory name of a worktree, `?` without one.
pub open spec fn short_name(w: WorktreeView) -> Seq<char> {
    match path_file_name(w.path) {
        Some(n) => n,
        None => "?"@,
    }
}

/// Fast-forward the default branch's worktree, when there is one and its
/// directory exists.
pub open spec fn ff_default_prog(ws: Seq<WorktreeView>, d: Seq<char>, then: Prog) -> Prog {
    match worktree_on(ws, d) {
        None => then,
        Some(w) => fs(
            FsQueryView::Exists(w.path),
            |a: FsReplyView| if a is Yes {
                git(
                    ff_call(w.path, "@{upstream}"@),
                    |r: GitReplyView| if succeeded(r) {
                        say(Level::Success, "Fast-forwarded "@ + d, then)
                    } else {
                        say(
                            Level::Warning,
                            "Could not fast-forward "@ + d
                                + " (may have local changes, diverged, or no upstream set)"@,
                            then,
                        )
                    },
                )
            } else {
                then
            },
        ),
    }
}

/// Branches whose upstream is gone, from `branch --format=...` lines: the
/// first word of each line that says `[gone]`.
pub open spec fn gone_names(ls: Seq<Seq<char>>) -> Seq<Seq<char>>
    decreases ls.len(),
{
    if ls.len() == 0 {
        seq![]
    } else {
        let rest = gone_names(ls.drop_last());
        let l = ls.last();
        if contains(l, "[gone]"@) && words(l).len() > 0 {
            rest.push(words(l)[0])
        } else {
            rest
        }
    }
}

/// One warning line for each worktree (from `i` on) whose branch is gone.
pub open spec fn gone_lines(ws: Seq<WorktreeView>, g: Seq<Seq<char>>, i: int, then: Prog) -> Prog
    decreases ws.len() - i,
{
    if i < 0 || i >= ws.len() {
        then
    } else {
        let rest = gone_lines(ws, g, i + 1, then);
        match ws[i].branch {
            Some(b) => if g.contains(b) {
                say(Level::Warning, "  "@ + short_name(ws[i]) + " (branch: "@ + b + ")"@, rest)
            } else {
                rest
            },
            None => rest,
        }
    }
}

/// Report the worktrees whose branch's remote branch was deleted.
pub open spec fn gone_prog(dir: Seq<char>, ws: Seq<WorktreeView>, then: Prog) -> Prog {
    git(
        tracking_call(dir),
        |r: GitReplyView| match output_of(r) {
            Err(m) => Prog::Finish(Err(m)),
            Ok(out) => {
                let g = gone_names(lines(out));
                if g.len() == 0 {
                    then
                } else {
                    say(
                        Level::Blank,
                        Seq::empty(),
                        say(
                            Level::Warning,
                            "Worktrees tracking deleted remote branches:"@,
                            gone_lines(ws, g, 0, then),
                        ),
                    )
                }
            },
        },
    )
}

/// Fast-forward through a merge of `target`, reporting how it went.
pub open spec fn merge_report(path: Seq<char>, name: Seq<char>, target: Seq<char>, then: Prog) -> Prog {
    git(
        ff_call(path, target),
        |m: GitReplyView| if succeeded(m) {
            say(Level::Success, "  "@ + name + " -- fast-forwarded"@, then)
        } else {
            say(Level::Info, "  "@ + name + " -- already up to date or diverged"@, then)
        },
    )
}

/// A branch without a standard upstream: one tracking a pull request ref
/// (`refs/pull/...`) is fetched from its remote (`origin` unless set) and
/// fast-forwarded to it; any other is skipped.
pub open spec fn pull_ref_prog(path: Seq<char>, name: Seq<char>, b: Seq<char>, then: Prog) -> Prog {
    git(
        config_read_call(path, "branch."@ + b + ".merge"@),
        |mr: GitReplyView| {
            let mref = match output_of(mr) {
                Ok(o) => trim(o),
                Err(_) => Seq::empty(),
            };
            if output_of(mr) is Ok && starts_with(mref, "refs/pull/"@) {
                git(
                    config_read_call(path, "branch."@ + b + ".remote"@),
                    |rr: GitReplyView| {
                        let remote = match output_of(rr) {
                            Ok(x) => trim(x),
                            Err(_) => "origin"@,
                        };
                        git(
                            fetch_ref_call(path, remote, mref),
                            |f: GitReplyView| if succeeded(f) {
                                merge_report(path, name, "FETCH_HEAD"@, then)
                            } else {
                                say(
                                    Level::Warning,
                                    "  "@ + name + " -- fetch failed for "@ + mref,
                                    then,
                                )
                            },
                        )
                    },
                )
            } else {
                say(Level::Info, "  "@ + name + " -- skipped (no upstream)"@, then)
            }
        },
    )
}

/// Fast-forward one worktree's branch if it is clean.
pub open spec fn sync_one(w: WorktreeView, d: Seq<char>, then: Prog) -> Prog {
    let b = match w.branch {
        Some(x) => x,
        None => Seq::empty(),
    };
    let name = short_name(w);
    if w.is_bare || w.is_prunable {
        then
    } else {
        fs(
            FsQueryView::Exists(w.path),
            |a: FsReplyView| if !(a is Yes) || b == d || b.len() == 0 {
                then
            } else {
                git(
                    status_call(w.path),
                    |r: GitReplyView| if !status_clean(status_from(r)) {
                        say(Level::Warning, "  "@ + name + " -- skipped (dirty)"@, then)
                    } else {
                        git(
                            upstream_call(w.path),
                            |u: GitReplyView| if succeeded(u) {
                                merge_report(w.path, name, "@{upstream}"@, then)
                            } else {
                                pull_ref_prog(w.path, name, b, then)
                            },
                        )
                    },
                )
            },
        )
    }
}

/// In `sync --all`, a worktree that exists, is not bare or prunable and is
/// on a branch other than the default one is first asked for its status.
/// It is reported "skipped (dirty)" exactly when the status shows changes.
/// A clean one is asked for its upstream, and when it has one, the branch is
/// fast-forwarded to it with `git merge --ff-only @{upstream}` in its
/// directory.
pub proof fn lemma_sync_skips_only_dirty(
    w: WorktreeView,
    d: Seq<char>,
    then: Prog,
    s: GitReplyView,
    u: GitReplyView,
)
    requires
        !w.is_bare,
        !w.is_prunable,
        w.branch matches Some(b) && b.len() > 0 && b != d,
        succeeded(u),
    ensures
        next_effect(sync_one(w, d, then), seq![OutcomeView::Fs(FsReplyView::Yes)]) == EffectView::Git(
            GitCallView { dir: w.path, args: seq!["status"@, "--porcelain"@], mode: GitMode::Output },
        ),
        (next_effect(sync_one(w, d, then), seq![OutcomeView::Fs(FsReplyView::Yes), OutcomeView::Git(s)])
            == EffectView::Say(Level::Warning, "  "@ + short_name(w) + " -- skipped (dirty)"@)) <==> !status_clean(
            status_from(s),
        ),
        status_clean(status_from(s)) ==> next_effect(
            sync_one(w, d, then),
            seq![OutcomeView::Fs(FsReplyView::Yes), OutcomeView::Git(s), OutcomeView::Git(u)],
        ) == EffectView::Git(GitCallView { dir: w.path, args: seq!["merge"@, "--ff-only"@, "@{upstream}"@], mode: GitMode::Output }),
{
    let p = sync_one(w, d, then);
    let y = OutcomeView::Fs(FsReplyView::Yes);
    let gs = OutcomeView::Git(s);
    let gu = OutcomeView::Git(u);
    let p1 = (p->Do_1)(y);
    let p2 = (p1->Do_1)(gs);
    lemma_next_effect_step(p, y, Seq::empty());
    assert(seq![y] + Seq::<OutcomeView>::empty() =~= seq![y]);
    lemma_next_effect_step(p1, gs, Seq::empty());
    lemma_next_effect_step(p, y, seq![gs]);
    assert(seq![gs] + Seq::<OutcomeView>::empty() =~= seq![gs]);
    assert(seq![y] + seq![gs] =~= seq![y, gs]);
    if status_clean(status_from(s)) {
        lemma_next_effect_step(p2, gu, Seq::empty());
        assert(seq![gu] + Seq::<OutcomeView>::empty() =~= seq![gu]);
        lemma_next_effect_step(p1, gs, seq![gu]);
        assert(seq![gs] + seq![gu] =~= seq![gs, gu]);
        lemma_next_effect_step(p, y, seq![gs, gu]);
        assert(seq![y] + seq![gs, gu] =~= seq![y, gs, gu]);
    }
}

/// Fast-forward the worktrees from `i` on.
pub open spec fn sync_each(ws: Seq<WorktreeView>, i: int, d: Seq<char>, then: Prog) -> Prog
    decreases ws.len() - i,
{
    if i < 0 || i >= ws.len() {
        then
    } else {
        sync_one(ws[i], d, sync_each(ws, i + 1, d, then))
    }
}

pub open spec fn sync_all_prog(ws: Seq<WorktreeView>, d: Seq<char>, then: Prog) -> Prog {
    say(
        Level::Blank,
        Seq::empty(),
        say(Level::Info, "Fast-forwarding all branches..."@, sync_each(ws, 0, d, then)),
    )
}

/// After the default branch is known.
pub open spec fn sync_with_default(dir: Seq<char>, all: bool, d: Seq<char>) -> Prog {
    git(
        worktree_list_call(dir),
        |r: GitReplyView| match output_of(r) {
            Err(_) => Prog::Finish(Err(list_failed_message())),
            Ok(out) => {
                let ws = porcelain_worktrees(out);
                let done = say(Level::Success, "Sync complete"@, Prog::Finish(Ok(())));
                ff_default_prog(
                    ws,
                    d,
                    gone_prog(
                        dir,
                        ws,
                        if all {
                            sync_all_prog(ws, d, done)
                        } else {
                            done
                        },
                    ),
                )
            },
        },
    )
}

pub open spec fn no_default_message() -> Seq<char> {
    "Could not detect default branch"@
}

/// What follows once the default branch query has answered.
pub open spec fn after_default(dir: Seq<char>, all: bool) -> spec_fn(
    Result<Option<Seq<char>>, Seq<char>>,
) -> Prog {
    |d: Result<Option<Seq<char>>, Seq<char>>| match d {
        Err(m) => Prog::Finish(Err(m)),
        Ok(None) => Prog::Finish(Err(no_default_message())),
        Ok(Some(b)) => sync_with_default(dir, all, b),
    }
}

/// The sync command: fetch all remotes (pruning), find the default branch,
/// fast-forward it, report gone branches, and with `all` fast-forward the
/// other clean worktrees.
pub open spec fn sync_prog(dir: Seq<char>, all: bool) -> Prog {
    say(
        Level::Header,
        "Syncing worktrees"@,
        say(
            Level::Info,
            "Fetching all remotes..."@,
            git(
                fetch_all_call(dir),
                |r: GitReplyView| match output_of(r) {
                    Err(m) => Prog::Finish(Err(m)),
                    Ok(_) => say(
                        Level::Success,
                        "Fetched all remotes"@,
                        drive(default_plan(dir), seq![], 4, after_default(dir, all)),
                    ),
                },
            ),
        ),
    )
}

fn ff_call_exec(dir: &str, target: &str) -> (e: Effect)
    ensures
        crate::commands::effects::effect_view(e) == crate::commands::effects::EffectView::Git(ff_call(dir@, target@)),
{
    Effect::Git(make_call(dir, args3("merge", "--ff-only", target), GitMode::Output))
}

fn short_name_exec(w: &Worktree) -> (r: String)
    ensures
        r@ == short_name(w@),
{
    match file_name(w.path.as_str()) {
        Some(n) => n,
        None => "?".to_string(),
    }
}

fn ff_default(rn: &mut Runner, ws: &Vec<Worktree>, d: &str, Ghost(then): Ghost<Prog>) -> (r: Result<(), Effect>)
    requires
        old(rn).consistent(),
        old(rn).prog@ == ff_default_prog(worktree_views(ws@), d@, then),
    ensures
        final(rn).consistent(),
        final(rn).outcomes == old(rn).outcomes,
        final(rn).whole == old(rn).whole,
        match r {
            Ok(()) => final(rn).prog@ == then,
            Err(e) => crate::commands::effects::effect_view(e) == crate::commands::effects::next_effect(
                old(rn).whole@,
                old(rn).views(),
            ),
        },
{
    let i = match worktree_on_exec(ws, d) {
        None => {
            return Ok(());
        },
        Some(i) => i,
    };
    let w = &ws[i];
    let o = match rn.perform(Effect::Fs(FsQuery::Exists(w.path.clone()))) {
        Err(e) => {
            return Err(e);
        },
        Ok(o) => o,
    };
    let present = match fs_answer_of(&rn.outcomes[o]) {
        FsReply::Yes => true,
        _ => false,
    };
    if !present {
        return Ok(());
    }
    let o = match rn.perform(ff_call_exec(w.path.as_str(), "@{upstream}")) {
        Err(e) => {
            return Err(e);
        },
        Ok(o) => o,
    };
    let ok = succeeded_exec(&reply_of(&rn.outcomes[o]));
    let msg = if ok {
        say_exec(Level::Success, crate::text::join_str("Fast-forwarded ", d))
    } else {
        say_exec(
            Level::Warning,
            crate::text::join3("Could not fast-forward ", d, " (may have local changes, diverged, or no upstream set)"),
        )
    };
    match rn.perform(msg) {
        Err(e) => Err(e),
        Ok(_) => Ok(()),
    }
}

/// The branches whose upstream is gone.
pub fn gone_branches(output: &str) -> (r: Vec<String>)
    ensures
        r@.map_values(|x: String| x@) == gone_names(lines(output@)),
{
    let ls = split_lines(&chars_of(output));
    let ghost all = crate::text::views(ls@);
    let marker = chars_of("[gone]");
    let mut out: Vec<String> = Vec::new();
    let mut i: usize = 0;
    assert(all.take(0) =~= Seq::<Seq<char>>::empty());
    while i < ls.len()
        invariant
            i <= ls.len(),
            all == crate::text::views(ls@),
            all == lines(output@),
            marker@ == "[gone]"@,
            out@.map_values(|x: String| x@) == gone_names(all.take(i as int)),
        decreases ls.len() - i,
    {
        proof {
            assert(all.take(i + 1).drop_last() =~= all.take(i as int));
            assert(all.take(i + 1).last() == ls@[i as int]@);
        }
        if contains_exec(&ls[i], &marker) {
            let ws = split_whitespace_chars(&ls[i]);
            if ws.len() > 0 {
                let ghost before = out@.map_values(|x: String| x@);
                out.push(string_of(&ws[0]));
                assert(out@.map_values(|x: String| x@) =~= before.push(crate::text::views(ws@)[0]));
            }
        }
        i = i + 1;
    }
    assert(all.take(i as int) =~= all);
    out
}

fn listed(g: &Vec<String>, b: &String) -> (r: bool)
    ensures
        r == g@.map_values(|x: String| x@).contains(b@),
{
    let mut i: usize = 0;
    while i < g.len()
        invariant
            i <= g@.len(),
            forall|k: int| 0 <= k < i ==> g@[k]@ != b@,
        decreases g.len() - i,
    {
        if chars_eq(&chars_of(g[i].as_str()), &chars_of(b.as_str())) {
            assert(g@.map_values(|x: String| x@)[i as int] == b@);
            return true;
        }
        i = i + 1;
    }
    proof {
        let gv = g@.map_values(|x: String| x@);
        if gv.contains(b@) {
            let k = choose|k: int| 0 <= k < gv.len() && gv[k] == b@;
            assert(g@[k]@ == b@);
        }
    }
    false
}

fn report_gone(rn: &mut Runner, dir: &str, ws: &Vec<Worktree>, Ghost(then): Ghost<Prog>) -> (r: Result<(), Effect>)
    requires
        old(rn).consistent(),
        old(rn).prog@ == gone_prog(dir@, worktree_views(ws@), then),
    ensures
        final(rn).consistent(),
        final(rn).outcomes == old(rn).outcomes,
        final(rn).whole == old(rn).whole,
        match r {
            Ok(()) => final(rn).prog@ == then,
            Err(e) => crate::commands::effects::effect_view(e) == crate::commands::effects::next_effect(
                old(rn).whole@,
                old(rn).views(),
            ),
        },
{
    let ghost wv = worktree_views(ws@);
    let o = match rn.perform(Effect::Git(make_call(dir, args2("branch", "--format=%(refname:short) %(upstream:track)"), GitMode::Output))) {
        Err(e) => {
            return Err(e);
        },
        Ok(o) => o,
    };
    let reply = reply_of(&rn.outcomes[o]);
    let out = match &reply {
        GitReply::Success(out) => out,
        _ => {
            let m = crate::git::reply_message(&reply);
            return Err(rn.finish(Err(m)));
        },
    };
    let g = gone_branches(out.as_str());
    let ghost gv = g@.map_values(|x: String| x@);
    if g.len() == 0 {
        return Ok(());
    }
    match rn.perform(say_exec(Level::Blank, String::new())) {
        Err(e) => {
            return Err(e);
        },
        Ok(_) => {},
    }
    match rn.perform(say_exec(Level::Warning, "Worktrees tracking deleted remote branches:".to_string())) {
        Err(e) => {
            return Err(e);
        },
        Ok(_) => {},
    }
    let mut i: usize = 0;
    while i < ws.len()
        invariant
            i <= ws@.len(),
            wv == worktree_views(ws@),
            gv == g@.map_values(|x: String| x@),
            rn.consistent(),
            rn.outcomes == old(rn).outcomes,
            rn.whole == old(rn).whole,
            rn.views() == old(rn).views(),
            rn.prog@ == gone_lines(wv, gv, i as int, then),
        decreases ws.len() - i,
    {
        assert(wv[i as int] == ws@[i as int]@);
        let w = &ws[i];
        match &w.branch {
            Some(b) => {
                if listed(&g, b) {
                    let name = short_name_exec(w);
                    let text = crate::text::join5("  ", name.as_str(), " (branch: ", b.as_str(), ")");
                    match rn.perform(say_exec(Level::Warning, text)) {
                        Err(e) => {
                            return Err(e);
                        },
                        Ok(_) => {},
                    }
                }
            },
            None => {},
        }
        i = i + 1;
    }
    Ok(())
}

fn merge_report_exec(rn: &mut Runner, path: &str, name: &str, target: &str, Ghost(then): Ghost<Prog>) -> (r: Result<(), Effect>)
    requires
        old(rn).consistent(),
        old(rn).prog@ == merge_report(path@, name@, target@, then),
    ensures
        final(rn).consistent(),
        final(rn).outcomes == old(rn).outcomes,
        final(rn).whole == old(rn).whole,
        match r {
            Ok(()) => final(rn).prog@ == then,
            Err(e) => crate::commands::effects::effect_view(e) == crate::commands::effects::next_effect(
                old(rn).whole@,
                old(rn).views(),
            ),
        },
{
    let o = match rn.perform(ff_call_exec(path, target)) {
        Err(e) => {
            return Err(e);
        },
        Ok(o) => o,
    };
    let ok = succeeded_exec(&reply_of(&rn.outcomes[o]));
    let msg = if ok {
        say_exec(Level::Success, crate::text::join3("  ", name, " -- fast-forwarded"))
    } else {
        say_exec(Level::Info, crate::text::join3("  ", name, " -- already up to date or diverged"))
    };
    match rn.perform(msg) {
        Err(e) => Err(e),
        Ok(_) => Ok(()),
    }
}

fn pull_ref_exec(rn: &mut Runner, path: &str, name: &str, b: &str, Ghost(then): Ghost<Prog>) -> (r: Result<(), Effect>)
    requires
        old(rn).consistent(),
        old(rn).prog@ == pull_ref_prog(path@, name@, b@, then),
    ensures
        final(rn).consistent(),
        final(rn).outcomes == old(rn).outcomes,
        final(rn).whole == old(rn).whole,
        match r {
            Ok(()) => final(rn).prog@ == then,
            Err(e) => crate::commands::effects::effect_view(e) == crate::commands::effects::next_effect(
                old(rn).whole@,
                old(rn).views(),
            ),
        },
{
    let key = crate::text::join3("branch.", b, ".merge");
    let o = match rn.perform(Effect::Git(make_call(path, args2("config", key.as_str()), GitMode::Output))) {
        Err(e) => {
            return Err(e);
        },
        Ok(o) => o,
    };
    let mref = match trimmed_output(&reply_of(&rn.outcomes[o])) {
        Some(t) => t,
        None => Vec::new(),
    };
    let ok = match trimmed_output(&reply_of(&rn.outcomes[o])) {
        Some(_) => has_prefix(&mref, &chars_of("refs/pull/")),
        None => false,
    };
    if !ok {
        let msg = say_exec(Level::Info, crate::text::join3("  ", name, " -- skipped (no upstream)"));
        return match rn.perform(msg) {
            Err(e) => Err(e),
            Ok(_) => Ok(()),
        };
    }
    let mref = string_of(&mref);
    let key = crate::text::join3("branch.", b, ".remote");
    let o = match rn.perform(Effect::Git(make_call(path, args2("config", key.as_str()), GitMode::Output))) {
        Err(e) => {
            return Err(e);
        },
        Ok(o) => o,
    };
    let remote = match trimmed_output(&reply_of(&rn.outcomes[o])) {
        Some(t) => string_of(&t),
        None => "origin".to_string(),
    };
    let call = make_call(path, args3("fetch", remote.as_str(), mref.as_str()), GitMode::Output);
    let o = match rn.perform(Effect::Git(call)) {
        Err(e) => {
            return Err(e);
        },
        Ok(o) => o,
    };
    if succeeded_exec(&reply_of(&rn.outcomes[o])) {
        merge_report_exec(rn, path, name, "FETCH_HEAD", Ghost(then))
    } else {
        let msg = say_exec(Level::Warning, crate::text::join4("  ", name, " -- fetch failed for ", mref.as_str()));
        match rn.perform(msg) {
            Err(e) => Err(e),
            Ok(_) => Ok(()),
        }
    }
}

fn sync_worktree(rn: &mut Runner, w: &Worktree, d: &str, Ghost(then): Ghost<Prog>) -> (r: Result<(), Effect>)
    requires
        old(rn).consistent(),
        old(rn).prog@ == sync_one(w@, d@, then),
    ensures
        final(rn).consistent(),
        final(rn).outcomes == old(rn).outcomes,
        final(rn).whole == old(rn).whole,
        match r {
            Ok(()) => final(rn).prog@ == then,
            Err(e) => crate::commands::effects::effect_view(e) == crate::commands::effects::next_effect(
                old(rn).whole@,
                old(rn).views(),
            ),
        },
{
    if w.is_bare || w.is_prunable {
        return Ok(());
    }
    let b: String = match &w.branch {
        Some(x) => x.clone(),
        None => String::new(),
    };
    let bc = chars_of(b.as_str());
    let name = short_name_exec(w);
    let o = match rn.perform(Effect::Fs(FsQuery::Exists(w.path.clone()))) {
        Err(e) => {
            return Err(e);
        },
        Ok(o) => o,
    };
    let present = match fs_answer_of(&rn.outcomes[o]) {
        FsReply::Yes => true,
        _ => false,
    };
    if !present || chars_eq(&bc, &chars_of(d)) || bc.len() == 0 {
        return Ok(());
    }
    let o = match rn.perform(Effect::Git(make_call(w.path.as_str(), args2("status", "--porcelain"), GitMode::Output))) {
        Err(e) => {
            return Err(e);
        },
        Ok(o) => o,
    };
    let st = match reply_of(&rn.outcomes[o]) {
        GitReply::Success(out) => parse_porcelain(out.as_str()),
        _ => WorktreeStatus::default(),
    };
    if !st.is_clean() {
        let msg = say_exec(Level::Warning, crate::text::join3("  ", name.as_str(), " -- skipped (dirty)"));
        return match rn.perform(msg) {
            Err(e) => Err(e),
            Ok(_) => Ok(()),
        };
    }
    let call = make_call(w.path.as_str(), args3("rev-parse", "--abbrev-ref", "@{upstream}"), GitMode::Output);
    let o = match rn.perform(Effect::Git(call)) {
        Err(e) => {
            return Err(e);
        },
        Ok(o) => o,
    };
    if succeeded_exec(&reply_of(&rn.outcomes[o])) {
        merge_report_exec(rn, w.path.as_str(), name.as_str(), "@{upstream}", Ghost(then))
    } else {
        pull_ref_exec(rn, w.path.as_str(), name.as_str(), b.as_str(), Ghost(then))
    }
}

fn sync_all(rn: &mut Runner, ws: &Vec<Worktree>, d: &str, Ghost(then): Ghost<Prog>) -> (r: Result<(), Effect>)
    requires
        old(rn).consistent(),
        old(rn).prog@ == sync_all_prog(worktree_views(ws@), d@, then),
    ensures
        final(rn).consistent(),
        final(rn).outcomes == old(rn).outcomes,
        final(rn).whole == old(rn).whole,
        match r {
            Ok(()) => final(rn).prog@ == then,
            Err(e) => crate::commands::effects::effect_view(e) == crate::commands::effects::next_effect(
                old(rn).whole@,
                old(rn).views(),
            ),
        },
{
    let ghost wv = worktree_views(ws@);
    match rn.perform(say_exec(Level::Blank, String::new())) {
        Err(e) => {
            return Err(e);
        },
        Ok(_) => {},
    }
    match rn.perform(say_exec(Level::Info, "Fast-forwarding all branches...".to_string())) {
        Err(e) => {
            return Err(e);
        },
        Ok(_) => {},
    }
    let mut i: usize = 0;
    while i < ws.len()
        invariant
            i <= ws@.len(),
            wv == worktree_views(ws@),
            rn.consistent(),
            rn.outcomes == old(rn).outcomes,
            rn.whole == old(rn).whole,
            rn.prog@ == sync_each(wv, i as int, d@, then),
        decreases ws.len() - i,
    {
        assert(wv[i as int] == ws@[i as int]@);
        match sync_worktree(rn, &ws[i], d, Ghost(sync_each(wv, i + 1, d@, then))) {
            Err(e) => {
                return Err(e);
            },
            Ok(()) => {},
        }
        i = i + 1;
    }
    Ok(())
}

/// The sync command's next effect, given the outcomes of those it asked
/// for so far.
pub fn run(ctx: &ProjectContext, all: bool, outcomes: &Vec<Outcome>) -> (e: Effect)
    ensures
        crate::commands::effects::effect_view(e) == crate::commands::effects::next_effect(
            sync_prog(ctx.project_dir@, all),
            crate::commands::effects::outcome_views(outcomes@),
        ),
{
    let dir = ctx.project_dir.as_str();
    let mut rn = Runner::new(outcomes, Ghost(sync_prog(dir@, all)));
    match rn.perform(say_exec(Level::Header, "Syncing worktrees".to_string())) {
        Err(e) => {
            return e;
        },
        Ok(_) => {},
    }
    match rn.perform(say_exec(Level::Info, "Fetching all remotes...".to_string())) {
        Err(e) => {
            return e;
        },
        Ok(_) => {},
    }
    let o = match rn.perform(Effect::Git(make_call(dir, args3("fetch", "--all", "--prune"), GitMode::Output))) {
        Err(e) => {
            return e;
        },
        Ok(o) => o,
    };
    let fetched = reply_of(&rn.outcomes[o]);
    if !succeeded_exec(&fetched) {
        return rn.finish(Err(crate::git::reply_message(&fetched)));
    }
    match rn.perform(say_exec(Level::Success, "Fetched all remotes".to_string())) {
        Err(e) => {
            return e;
        },
        Ok(_) => {},
    }
    let d = match drive_default_branch(&mut rn, dir, Ghost(after_default(dir@, all))) {
        Err(e) => {
            return e;
        },
        Ok(Err(m)) => {
            return rn.finish(Err(m));
        },
        Ok(Ok(None)) => {
            return rn.finish(Err("Could not detect default branch".to_string()));
        },
        Ok(Ok(Some(b))) => b,
    };
    let o = match rn.perform(Effect::Git(make_call(dir, args3("worktree", "list", "--porcelain"), GitMode::Output))) {
        Err(e) => {
            return e;
        },
        Ok(o) => o,
    };
    let ws = match reply_of(&rn.outcomes[o]) {
        GitReply::Success(out) => parse_worktrees(out.as_str()),
        _ => {
            return rn.finish(Err("Failed to list worktrees. Your git version may not support --porcelain.\n   Please upgrade git to version 2.7 or later.".to_string()));
        },
    };
    let ghost wv = worktree_views(ws@);
    let ghost done = say(Level::Success, "Sync complete"@, Prog::Finish(Ok(())));
    let ghost rest = if all {
        sync_all_prog(wv, d@, done)
    } else {
        done
    };
    match ff_default(&mut rn, &ws, d.as_str(), Ghost(gone_prog(dir@, wv, rest))) {
        Err(e) => {
            return e;
        },
        Ok(()) => {},
    }
    match report_gone(&mut rn, dir, &ws, Ghost(rest)) {
        Err(e) => {
            return e;
        },
        Ok(()) => {},
    }
    if all {
        match sync_all(&mut rn, &ws, d.as_str(), Ghost(done)) {
            Err(e) => {
                return e;
            },
            Ok(()) => {},
        }
    }
    match rn.perform(say_exec(Level::Success, "Sync complete".to_string())) {
        Err(e) => {
            return e;
        },
        Ok(_) => {},
    }
    rn.finish(Ok(()))
}

} // verus!
