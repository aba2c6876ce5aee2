//! Finding the repository from the current directory: a bare repository
//! (from inside it, from one of its worktrees, or from the directory that
//! holds it), else an ordinary repository's top level.
use vstd::prelude::*;

use crate::commands::effects::{
    effect_view, fs, fs_answer_of, git, lines_of, lines_result_of, next_effect, outcome_views, reply_of, strings_view,
    then_do, Effect, EffectView, Outcome, OutcomeView, Prog, Runner,
};
use crate::commands::steps::name_view;
use crate::commands::setup::here;
use crate::git::operations::{FsQuery, FsQueryView, FsReply, FsReplyView};
use crate::git::{args2, make_call, output_of, reply_message, trimmed_output, GitCallView, GitMode, GitReply, GitReplyView};
use crate::paths::{join, path_join};
use crate::text::{chars_eq, chars_of, string_of, trim};

verus! {

pub open spec fn requires_bare_message() -> Seq<char> {
    "This command requires a bare Git repository.\n   Please run from a bare repository directory or one of its worktrees."@
}

pub open spec fn not_in_repo_message() -> Seq<char> {
    "Not in a git repository.\n   Run from inside a git repository or one of its worktrees."@
}

pub open spec fn cwd_failed_message() -> Seq<char> {
    "could not read the current directory"@
}

pub open spec fn is_bare_call(dir: Seq<char>) -> GitCallView {
    GitCallView { dir, args: seq!["rev-parse"@, "--is-bare-repository"@], mode: GitMode::Output }
}

/// A reply that says `true` (git succeeded and printed `true`).
pub open spec fn says_true(r: GitReplyView) -> bool {
    match output_of(r) {
        Ok(o) => trim(o) == "true"@,
        Err(_) => false,
    }
}

/// Go on with the canonical form of a path, or the path itself when it has
/// none.
pub open spec fn canon(p: Seq<char>, k: spec_fn(Seq<char>) -> Prog) -> Prog {
    fs(
        FsQueryView::Canonical(p),
        |a: FsReplyView| match a {
            FsReplyView::Text(c) => k(c),
            _ => k(p),
        },
    )
}

/// Try the directories of the listing from `i` on: the first that holds a
/// `HEAD` file and that git calls bare is found; after the last, `end`.
pub open spec fn scan_each(entries: Seq<Seq<char>>, i: int, found: spec_fn(Seq<char>) -> Prog, end: Prog) -> Prog
    decreases entries.len() - i,
{
    if i < 0 || i >= entries.len() {
        end
    } else {
        let p = entries[i];
        let next = scan_each(entries, i + 1, found, end);
        fs(
            FsQueryView::IsDir(p),
            |d: FsReplyView| if d is Yes {
                fs(
                    FsQueryView::IsFile(path_join(p, "HEAD"@)),
                    |f: FsReplyView| if f is Yes {
                        git(is_bare_call(p), |r: GitReplyView| if says_true(r) {
                            canon(p, found)
                        } else {
                            next
                        })
                    } else {
                        next
                    },
                )
            } else {
                next
            },
        )
    }
}

/// The directory scan, after the configured name (if any) did not do.
pub open spec fn scan_prog(cwd: Seq<char>, found: spec_fn(Seq<char>) -> Prog, fail: spec_fn(Seq<char>) -> Prog) -> Prog {
    Prog::Do(
        EffectView::ListDir(cwd),
        |o: OutcomeView| scan_each(lines_of(o), 0, found, fail(requires_bare_message())),
    )
}

/// From outside any repository: `<cwd>/<hint>` if it is a bare repository,
/// else the first bare repository directly under the current directory.
pub open spec fn outside_prog(
    cwd: Seq<char>,
    hint: Option<Seq<char>>,
    found: spec_fn(Seq<char>) -> Prog,
    fail: spec_fn(Seq<char>) -> Prog,
) -> Prog {
    let scan = scan_prog(cwd, found, fail);
    match hint {
        None => scan,
        Some(h) => {
            let cand = path_join(cwd, h);
            fs(
                FsQueryView::IsDir(cand),
                |d: FsReplyView| if d is Yes {
                    git(is_bare_call(cand), |r: GitReplyView| if says_true(r) {
                        canon(cand, found)
                    } else {
                        scan
                    })
                } else {
                    scan
                },
            )
        },
    }
}

/// Inside a repository whose git directory is `g`: `g` itself when it is
/// bare, else the common directory of the worktree when that one is bare.
pub open spec fn inside_prog(g: Seq<char>, found: spec_fn(Seq<char>) -> Prog, fail: spec_fn(Seq<char>) -> Prog) -> Prog {
    git(
        here(seq!["rev-parse"@, "--is-bare-repository"@]),
        |b: GitReplyView| match output_of(b) {
            Err(m) => fail(m),
            Ok(o) => if trim(o) == "true"@ {
                found(g)
            } else {
                git(
                    here(seq!["rev-parse"@, "--git-common-dir"@]),
                    |c: GitReplyView| match output_of(c) {
                        Err(m) => fail(m),
                        Ok(cd) => canon(trim(cd), common_then(found, fail)),
                    },
                )
            },
        },
    )
}

/// With the common directory known: found when git calls it bare.
pub open spec fn common_then(found: spec_fn(Seq<char>) -> Prog, fail: spec_fn(Seq<char>) -> Prog) -> spec_fn(Seq<char>) -> Prog {
    |cc: Seq<char>| git(
        is_bare_call(cc),
        |b2: GitReplyView| match output_of(b2) {
            Err(m) => fail(m),
            Ok(o2) => if trim(o2) == "true"@ {
                found(cc)
            } else {
                fail(requires_bare_message())
            },
        },
    )
}

/// Inside, once the git directory is canonical.
pub open spec fn inside_then(found: spec_fn(Seq<char>) -> Prog, fail: spec_fn(Seq<char>) -> Prog) -> spec_fn(Seq<char>) -> Prog {
    |g: Seq<char>| inside_prog(g, found, fail)
}

/// The search for a bare repository: `found` gets its path, `fail` the
/// reason none was found.
pub open spec fn bare_search(hint: Option<Seq<char>>, found: spec_fn(Seq<char>) -> Prog, fail: spec_fn(Seq<char>) -> Prog) -> Prog {
    git(
        here(seq!["rev-parse"@, "--git-dir"@]),
        |r: GitReplyView| match output_of(r) {
            Ok(gd) => canon(trim(gd), inside_then(found, fail)),
            Err(_) => fs(
                FsQueryView::CurrentDir,
                |cw: FsReplyView| match cw {
                    FsReplyView::Text(cwd) => outside_prog(cwd, hint, found, fail),
                    FsReplyView::Failed(m) => fail(m),
                    _ => fail(cwd_failed_message()),
                },
            ),
        },
    )
}

/// Report where the repository is and stop.
pub open spec fn report_found(bare: bool) -> spec_fn(Seq<char>) -> Prog {
    |p: Seq<char>| then_do(EffectView::RepoFound { path: p, bare }, Prog::Finish(Ok(())))
}

pub open spec fn fail_with() -> spec_fn(Seq<char>) -> Prog {
    |m: Seq<char>| Prog::Finish(Err(m))
}

/// The top level of an ordinary repository.
pub open spec fn toplevel_prog() -> Prog {
    git(
        here(seq!["rev-parse"@, "--show-toplevel"@]),
        |r: GitReplyView| match output_of(r) {
            Err(_) => Prog::Finish(Err(not_in_repo_message())),
            Ok(t) => canon(trim(t), report_found(false)),
        },
    )
}

pub open spec fn fall_back() -> spec_fn(Seq<char>) -> Prog {
    |m: Seq<char>| toplevel_prog()
}

/// Finding a bare repository; it ends with `RepoFound` (bare), or fails.
pub open spec fn bare_root_prog(hint: Option<Seq<char>>) -> Prog {
    bare_search(hint, report_found(true), fail_with())
}

/// Finding a repository: a bare one as `bare_root_prog` does, else the top
/// level of an ordinary one.
pub open spec fn repo_root_prog(hint: Option<Seq<char>>) -> Prog {
    bare_search(hint, report_found(true), fall_back())
}

enum Searched {
    Found(String),
    Failed(String),
    Stop(Effect),
}

/// Follow `canon`: the canonical form, or the path itself.
fn canon_exec(rn: &mut Runner, p: &str, Ghost(k): Ghost<spec_fn(Seq<char>) -> Prog>) -> (r: Result<String, Effect>)
    requires
        old(rn).consistent(),
        old(rn).prog@ == canon(p@, k),
    ensures
        final(rn).consistent(),
        final(rn).outcomes == old(rn).outcomes,
        final(rn).whole == old(rn).whole,
        match r {
            Ok(c) => final(rn).prog@ == k(c@),
            Err(e) => effect_view(e) == next_effect(old(rn).whole@, old(rn).views()),
        },
{
    let o = match rn.perform(Effect::Fs(FsQuery::Canonical(p.to_string()))) {
        Err(e) => {
            return Err(e);
        },
        Ok(o) => o,
    };
    match fs_answer_of(&rn.outcomes[o]) {
        FsReply::Text(c) => Ok(c),
        _ => Ok(p.to_string()),
    }
}

fn says_true_exec(r: &GitReply) -> (b: bool)
    ensures
        b == says_true(r@),
{
    match trimmed_output(r) {
        Some(t) => chars_eq(&t, &chars_of("true")),
        None => false,
    }
}

/// Walk the listing as `scan_each` does: `Some(path)` when a bare
/// repository was found, `None` after the last entry.
fn scan_exec(
    rn: &mut Runner,
    entries: &Vec<String>,
    Ghost(found): Ghost<spec_fn(Seq<char>) -> Prog>,
    Ghost(end): Ghost<Prog>,
) -> (r: Result<Option<String>, Effect>)
    requires
        old(rn).consistent(),
        old(rn).prog@ == scan_each(strings_view(entries@), 0, found, end),
    ensures
        final(rn).consistent(),
        final(rn).outcomes == old(rn).outcomes,
        final(rn).whole == old(rn).whole,
        match r {
            Ok(Some(p)) => final(rn).prog@ == found(p@),
            Ok(None) => final(rn).prog@ == end,
            Err(e) => effect_view(e) == next_effect(old(rn).whole@, old(rn).views()),
        },
{
    let ghost ev = strings_view(entries@);
    let mut i: usize = 0;
    while i < entries.len()
        invariant
            i <= entries@.len(),
            ev == strings_view(entries@),
            rn.consistent(),
            rn.outcomes == old(rn).outcomes,
            rn.whole == old(rn).whole,
            rn.prog@ == scan_each(ev, i as int, found, end),
        decreases entries.len() - i,
    {
        let p = &entries[i];
        assert(ev[i as int] == p@);
        let o = match rn.perform(Effect::Fs(FsQuery::IsDir(p.clone()))) {
            Err(e) => {
                return Err(e);
            },
            Ok(o) => o,
        };
        let is_dir = match fs_answer_of(&rn.outcomes[o]) {
            FsReply::Yes => true,
            _ => false,
        };
        if is_dir {
            let o = match rn.perform(Effect::Fs(FsQuery::IsFile(join(p.as_str(), "HEAD")))) {
                Err(e) => {
                    return Err(e);
                },
                Ok(o) => o,
            };
            let has_head = match fs_answer_of(&rn.outcomes[o]) {
                FsReply::Yes => true,
                _ => false,
            };
            if has_head {
                let o = match rn.perform(Effect::Git(make_call(p.as_str(), args2("rev-parse", "--is-bare-repository"), GitMode::Output))) {
                    Err(e) => {
                        return Err(e);
                    },
                    Ok(o) => o,
                };
                if says_true_exec(&reply_of(&rn.outcomes[o])) {
                    return match canon_exec(rn, p.as_str(), Ghost(found)) {
                        Err(e) => Err(e),
                        Ok(c) => Ok(Some(c)),
                    };
                }
            }
        }
        i = i + 1;
    }
    Ok(None)
}

/// From outside any repository, as `outside_prog`.
fn outside_exec(
    rn: &mut Runner,
    cwd: &str,
    hint: Option<&str>,
    Ghost(found): Ghost<spec_fn(Seq<char>) -> Prog>,
    Ghost(fail): Ghost<spec_fn(Seq<char>) -> Prog>,
) -> (r: Searched)
    requires
        old(rn).consistent(),
        old(rn).prog@ == outside_prog(cwd@, name_view(hint), found, fail),
    ensures
        final(rn).consistent(),
        final(rn).outcomes == old(rn).outcomes,
        final(rn).whole == old(rn).whole,
        match r {
            Searched::Found(p) => final(rn).prog@ == found(p@),
            Searched::Failed(m) => final(rn).prog@ == fail(m@),
            Searched::Stop(e) => effect_view(e) == next_effect(old(rn).whole@, old(rn).views()),
        },
{
    match hint {
        None => {},
        Some(h) => {
            let cand = join(cwd, h);
            let o = match rn.perform(Effect::Fs(FsQuery::IsDir(cand.clone()))) {
                Err(e) => {
                    return Searched::Stop(e);
                },
                Ok(o) => o,
            };
            let is_dir = match fs_answer_of(&rn.outcomes[o]) {
                FsReply::Yes => true,
                _ => false,
            };
            if is_dir {
                let o = match rn.perform(Effect::Git(make_call(cand.as_str(), args2("rev-parse", "--is-bare-repository"), GitMode::Output))) {
                    Err(e) => {
                        return Searched::Stop(e);
                    },
                    Ok(o) => o,
                };
                if says_true_exec(&reply_of(&rn.outcomes[o])) {
                    return match canon_exec(rn, cand.as_str(), Ghost(found)) {
                        Err(e) => Searched::Stop(e),
                        Ok(c) => Searched::Found(c),
                    };
                }
            }
        },
    }
    let o = match rn.perform(Effect::ListDir(cwd.to_string())) {
        Err(e) => {
            return Searched::Stop(e);
        },
        Ok(o) => o,
    };
    let entries = lines_result_of(&rn.outcomes[o]);
    let msg = "This command requires a bare Git repository.\n   Please run from a bare repository directory or one of its worktrees.".to_string();
    match scan_exec(rn, &entries, Ghost(found), Ghost(fail(msg@))) {
        Err(e) => Searched::Stop(e),
        Ok(Some(p)) => Searched::Found(p),
        Ok(None) => Searched::Failed(msg),
    }
}

/// Inside a repository, as `inside_prog`.
fn inside_exec(
    rn: &mut Runner,
    g: &str,
    Ghost(found): Ghost<spec_fn(Seq<char>) -> Prog>,
    Ghost(fail): Ghost<spec_fn(Seq<char>) -> Prog>,
) -> (r: Searched)
    requires
        old(rn).consistent(),
        old(rn).prog@ == inside_prog(g@, found, fail),
    ensures
        final(rn).consistent(),
        final(rn).outcomes == old(rn).outcomes,
        final(rn).whole == old(rn).whole,
        match r {
            Searched::Found(p) => final(rn).prog@ == found(p@),
            Searched::Failed(m) => final(rn).prog@ == fail(m@),
            Searched::Stop(e) => effect_view(e) == next_effect(old(rn).whole@, old(rn).views()),
        },
{
    let o = match rn.perform(Effect::Git(make_call("", args2("rev-parse", "--is-bare-repository"), GitMode::Output))) {
        Err(e) => {
            return Searched::Stop(e);
        },
        Ok(o) => o,
    };
    let reply = reply_of(&rn.outcomes[o]);
    match &reply {
        GitReply::Success(_) => {},
        _ => {
            return Searched::Failed(reply_message(&reply));
        },
    }
    if says_true_exec(&reply) {
        return Searched::Found(g.to_string());
    }
    let o = match rn.perform(Effect::Git(make_call("", args2("rev-parse", "--git-common-dir"), GitMode::Output))) {
        Err(e) => {
            return Searched::Stop(e);
        },
        Ok(o) => o,
    };
    let reply = reply_of(&rn.outcomes[o]);
    let cd = match trimmed_output(&reply) {
        Some(t) => string_of(&t),
        None => {
            return Searched::Failed(reply_message(&reply));
        },
    };
    let cc = match canon_exec(rn, cd.as_str(), Ghost(common_then(found, fail))) {
        Err(e) => {
            return Searched::Stop(e);
        },
        Ok(c) => c,
    };
    let o = match rn.perform(Effect::Git(make_call(cc.as_str(), args2("rev-parse", "--is-bare-repository"), GitMode::Output))) {
        Err(e) => {
            return Searched::Stop(e);
        },
        Ok(o) => o,
    };
    let reply = reply_of(&rn.outcomes[o]);
    match &reply {
        GitReply::Success(_) => {},
        _ => {
            return Searched::Failed(reply_message(&reply));
        },
    }
    if says_true_exec(&reply) {
        Searched::Found(cc)
    } else {
        Searched::Failed("This command requires a bare Git repository.\n   Please run from a bare repository directory or one of its worktrees.".to_string())
    }
}

/// The search, as `bare_search`.
fn search_exec(
    rn: &mut Runner,
    hint: Option<&str>,
    Ghost(found): Ghost<spec_fn(Seq<char>) -> Prog>,
    Ghost(fail): Ghost<spec_fn(Seq<char>) -> Prog>,
) -> (r: Searched)
    requires
        old(rn).consistent(),
        old(rn).prog@ == bare_search(name_view(hint), found, fail),
    ensures
        final(rn).consistent(),
        final(rn).outcomes == old(rn).outcomes,
        final(rn).whole == old(rn).whole,
        match r {
            Searched::Found(p) => final(rn).prog@ == found(p@),
            Searched::Failed(m) => final(rn).prog@ == fail(m@),
            Searched::Stop(e) => effect_view(e) == next_effect(old(rn).whole@, old(rn).views()),
        },
{
    let o = match rn.perform(Effect::Git(make_call("", args2("rev-parse", "--git-dir"), GitMode::Output))) {
        Err(e) => {
            return Searched::Stop(e);
        },
        Ok(o) => o,
    };
    match trimmed_output(&reply_of(&rn.outcomes[o])) {
        Some(t) => {
            let gd = string_of(&t);
            let g = match canon_exec(rn, gd.as_str(), Ghost(inside_then(found, fail))) {
                Err(e) => {
                    return Searched::Stop(e);
                },
                Ok(c) => c,
            };
            inside_exec(rn, g.as_str(), Ghost(found), Ghost(fail))
        },
        None => {
            let o = match rn.perform(Effect::Fs(FsQuery::CurrentDir)) {
                Err(e) => {
                    return Searched::Stop(e);
                },
                Ok(o) => o,
            };
            match fs_answer_of(&rn.outcomes[o]) {
                FsReply::Text(cwd) => outside_exec(rn, cwd.as_str(), hint, Ghost(found), Ghost(fail)),
                FsReply::Failed(m) => Searched::Failed(m),
                _ => Searched::Failed("could not read the current directory".to_string()),
            }
        },
    }
}

fn report_exec(rn: &mut Runner, p: String, bare: bool) -> (e: Effect)
    requires
        old(rn).consistent(),
        old(rn).prog@ == (report_found(bare))(p@),
    ensures
        effect_view(e) == next_effect(old(rn).whole@, old(rn).views()),
{
    match rn.perform(Effect::RepoFound { path: p, bare }) {
        Err(e) => {
            return e;
        },
        Ok(_) => {},
    }
    rn.finish(Ok(()))
}

/// Find the bare repository from the current directory (its git directory,
/// the common directory of the worktree, or `<cwd>/<bare_dir_hint>` or
/// another bare repository directly under the current directory): the next
/// effect of that search, given the outcomes so far. It ends by reporting
/// the repository (`RepoFound`, bare), or fails.
pub fn find_bare_repo_root(bare_dir_hint: Option<&str>, outcomes: &Vec<Outcome>) -> (e: Effect)
    ensures
        effect_view(e) == next_effect(bare_root_prog(name_view(bare_dir_hint)), outcome_views(outcomes@)),
{
    let mut rn = Runner::new(outcomes, Ghost(bare_root_prog(name_view(bare_dir_hint))));
    match search_exec(&mut rn, bare_dir_hint, Ghost(report_found(true)), Ghost(fail_with())) {
        Searched::Stop(e) => e,
        Searched::Found(p) => report_exec(&mut rn, p, true),
        Searched::Failed(m) => rn.finish(Err(m)),
    }
}

/// Find the repository from the current directory: a bare one as
/// `find_bare_repo_root` does, else the top level of an ordinary one (not
/// bare).
pub fn find_repo_root(bare_dir_hint: Option<&str>, outcomes: &Vec<Outcome>) -> (e: Effect)
    ensures
        effect_view(e) == next_effect(repo_root_prog(name_view(bare_dir_hint)), outcome_views(outcomes@)),
{
    let mut rn = Runner::new(outcomes, Ghost(repo_root_prog(name_view(bare_dir_hint))));
    match search_exec(&mut rn, bare_dir_hint, Ghost(report_found(true)), Ghost(fall_back())) {
        Searched::Stop(e) => e,
        Searched::Found(p) => report_exec(&mut rn, p, true),
        Searched::Failed(_) => {
            let o = match rn.perform(Effect::Git(make_call("", args2("rev-parse", "--show-toplevel"), GitMode::Output))) {
                Err(e) => {
                    return e;
                },
                Ok(o) => o,
            };
            let t = match trimmed_output(&reply_of(&rn.outcomes[o])) {
                Some(t) => string_of(&t),
                None => {
                    return rn.finish(Err("Not in a git repository.\n   Run from inside a git repository or one of its worktrees.".to_string()));
                },
            };
            match canon_exec(&mut rn, t.as_str(), Ghost(report_found(false))) {
                Err(e) => e,
                Ok(c) => report_exec(&mut rn, c, false),
            }
        },
    }
}

} // verus!
