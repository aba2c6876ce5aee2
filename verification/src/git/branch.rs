//! Branch existence, the default branch, and upstream tracking.
use vstd::prelude::*;

use crate::git::{args3, args4, check_of, make_call, output_of, reply_message, reply_views, GitCallView, GitMode, GitReply, GitReplyView, GitStep, StepSpec};
use crate::text::{chars_eq, chars_of, join_str, string_of, strip_prefix, strip_prefix_chars, trim, trim_chars};

verus! {

pub open spec fn show_ref_call(dir: Seq<char>, full_ref: Seq<char>) -> GitCallView {
    GitCallView {
        dir,
        args: seq!["show-ref"@, "--verify"@, "--quiet"@, full_ref],
        mode: GitMode::Check,
    }
}

/// The plan of `branch_exists`: ask for `refs/heads/<name>`, then for
/// `refs/remotes/origin/<name>`; the first that exists answers `true`.
pub open spec fn branch_exists_plan(dir: Seq<char>, name: Seq<char>, rs: Seq<GitReplyView>) -> StepSpec<Result<bool, Seq<char>>> {
    if rs.len() == 0 {
        StepSpec::Run(show_ref_call(dir, "refs/heads/"@ + name))
    } else {
        match check_of(rs[0]) {
            Err(m) => StepSpec::Done(Err(m)),
            Ok(true) => StepSpec::Done(Ok(true)),
            Ok(false) => if rs.len() == 1 {
                StepSpec::Run(show_ref_call(dir, "refs/remotes/origin/"@ + name))
            } else {
                StepSpec::Done(check_of(rs[1]))
            },
        }
    }
}

/// A branch exists exactly when `git show-ref --verify --quiet` succeeds on
/// its local ref or, failing that, on `origin`'s: a local ref that git
/// confirms settles it as existing without a second question; a refused
/// local ref leads to asking for the remote one, whose answer settles it.
pub proof fn lemma_branch_exists_answers(dir: Seq<char>, name: Seq<char>, local: Seq<char>, remote_reply: GitReplyView, m: Seq<char>)
    ensures
        branch_exists_plan(dir, name, seq![]) == StepSpec::<Result<bool, Seq<char>>>::Run(
            GitCallView { dir, args: seq!["show-ref"@, "--verify"@, "--quiet"@, "refs/heads/"@ + name], mode: GitMode::Check },
        ),
        branch_exists_plan(dir, name, seq![GitReplyView::Success(local)]) == StepSpec::<Result<bool, Seq<char>>>::Done(
            Ok(true),
        ),
        branch_exists_plan(dir, name, seq![GitReplyView::Failure(m)]) == StepSpec::<Result<bool, Seq<char>>>::Run(
            GitCallView {
                dir,
                args: seq!["show-ref"@, "--verify"@, "--quiet"@, "refs/remotes/origin/"@ + name],
                mode: GitMode::Check,
            },
        ),
        branch_exists_plan(dir, name, seq![GitReplyView::Failure(m), GitReplyView::Success(local)])
            == StepSpec::<Result<bool, Seq<char>>>::Done(Ok(true)),
        branch_exists_plan(dir, name, seq![GitReplyView::Failure(m), GitReplyView::Failure(local)])
            == StepSpec::<Result<bool, Seq<char>>>::Done(Ok(false)),
{
}

pub open spec fn bool_step_view(r: GitStep<Result<bool, String>>) -> StepSpec<Result<bool, Seq<char>>> {
    match r {
        GitStep::Run(c) => StepSpec::Run(c@),
        GitStep::Done(Ok(b)) => StepSpec::Done(Ok(b)),
        GitStep::Done(Err(e)) => StepSpec::Done(Err(e@)),
    }
}

fn check_result(r: &GitReply) -> (b: Result<bool, String>)
    ensures
        match (check_of(r@), b) {
            (Ok(x), Ok(y)) => x == y,
            (Err(m), Err(e)) => e@ == m,
            _ => false,
        },
{
    match r {
        GitReply::Success(_) => Ok(true),
        GitReply::Failure(_) => Ok(false),
        GitReply::NotRun(m) => Err(m.clone()),
    }
}

/// Whether `name` exists as a local branch or on the `origin` remote.
pub fn branch_exists(project_dir: &str, branch_name: &str, replies: &Vec<GitReply>) -> (r: GitStep<Result<bool, String>>)
    ensures
        bool_step_view(r) == branch_exists_plan(project_dir@, branch_name@, reply_views(replies@)),
{
    if replies.len() == 0 {
        let full = join_str("refs/heads/", branch_name);
        return GitStep::Run(make_call(project_dir, args4("show-ref", "--verify", "--quiet", full.as_str()), GitMode::Check));
    }
    let first = check_result(&replies[0]);
    match first {
        Err(m) => GitStep::Done(Err(m)),
        Ok(true) => GitStep::Done(Ok(true)),
        Ok(false) => {
            if replies.len() == 1 {
                let full = join_str("refs/remotes/origin/", branch_name);
                GitStep::Run(make_call(project_dir, args4("show-ref", "--verify", "--quiet", full.as_str()), GitMode::Check))
            } else {
                GitStep::Done(check_result(&replies[1]))
            }
        },
    }
}

pub open spec fn set_head_call(dir: Seq<char>) -> GitCallView {
    GitCallView { dir, args: seq!["remote"@, "set-head"@, "origin"@, "--auto"@], mode: GitMode::Check }
}

pub open spec fn origin_head_call(dir: Seq<char>) -> GitCallView {
    GitCallView { dir, args: seq!["rev-parse"@, "--abbrev-ref"@, "origin/HEAD"@], mode: GitMode::Output }
}

/// The branch that a `rev-parse --abbrev-ref origin/HEAD` reply names, if
/// it names one: the trimmed output without its `origin/` prefix.
pub open spec fn origin_head_branch(r: GitReplyView) -> Option<Seq<char>> {
    match output_of(r) {
        Ok(out) => {
            let t = trim(out);
            if t.len() > 0 && t != "origin/HEAD"@ {
                Some(
                    match strip_prefix(t, "origin/"@) {
                        Some(b) => b,
                        None => t,
                    },
                )
            } else {
                None
            }
        },
        Err(_) => None,
    }
}

/// The plan of `detect_default_branch`, over the replies after the optional
/// `remote set-head` refresh: origin's HEAD, then a local `main`, then a
/// local `master`.
pub open spec fn default_branch_plan_from(dir: Seq<char>, rs: Seq<GitReplyView>) -> StepSpec<Result<Option<Seq<char>>, Seq<char>>> {
    if rs.len() == 0 {
        StepSpec::Run(origin_head_call(dir))
    } else if origin_head_branch(rs[0]) is Some {
        StepSpec::Done(Ok(origin_head_branch(rs[0])))
    } else if rs.len() == 1 {
        StepSpec::Run(show_ref_call(dir, "refs/heads/main"@))
    } else {
        match check_of(rs[1]) {
            Err(m) => StepSpec::Done(Err(m)),
            Ok(true) => StepSpec::Done(Ok(Some("main"@))),
            Ok(false) => if rs.len() == 2 {
                StepSpec::Run(show_ref_call(dir, "refs/heads/master"@))
            } else {
                match check_of(rs[2]) {
                    Err(m) => StepSpec::Done(Err(m)),
                    Ok(true) => StepSpec::Done(Ok(Some("master"@))),
                    Ok(false) => StepSpec::Done(Ok(None)),
                }
            },
        }
    }
}

/// The plan of `detect_default_branch`: with network allowed, first
/// refresh `origin/HEAD` (its outcome does not matter).
pub open spec fn default_branch_plan(dir: Seq<char>, allow_network: bool, rs: Seq<GitReplyView>) -> StepSpec<Result<Option<Seq<char>>, Seq<char>>> {
    if allow_network {
        if rs.len() == 0 {
            StepSpec::Run(set_head_call(dir))
        } else {
            default_branch_plan_from(dir, rs.drop_first())
        }
    } else {
        default_branch_plan_from(dir, rs)
    }
}

pub open spec fn opt_branch_step_view(r: GitStep<Result<Option<String>, String>>) -> StepSpec<Result<Option<Seq<char>>, Seq<char>>> {
    match r {
        GitStep::Run(c) => StepSpec::Run(c@),
        GitStep::Done(Ok(Some(b))) => StepSpec::Done(Ok(Some(b@))),
        GitStep::Done(Ok(None)) => StepSpec::Done(Ok(None)),
        GitStep::Done(Err(e)) => StepSpec::Done(Err(e@)),
    }
}

fn origin_head_branch_exec(r: &GitReply) -> (b: Option<String>)
    ensures
        match (origin_head_branch(r@), b) {
            (Some(x), Some(y)) => y@ == x,
            (None, None) => true,
            _ => false,
        },
{
    match r {
        GitReply::Success(out) => {
            let t = trim_chars(&chars_of(out.as_str()));
            if t.len() > 0 && !chars_eq(&t, &chars_of("origin/HEAD")) {
                match strip_prefix_chars(&t, &chars_of("origin/")) {
                    Some(b) => Some(string_of(&b)),
                    None => Some(string_of(&t)),
                }
            } else {
                None
            }
        },
        _ => None,
    }
}

fn default_branch_from(project_dir: &str, replies: &Vec<GitReply>, k: usize) -> (r: GitStep<Result<Option<String>, String>>)
    requires
        k <= replies.len(),
    ensures
        opt_branch_step_view(r) == default_branch_plan_from(project_dir@, reply_views(replies@).skip(k as int)),
{
    let ghost rs = reply_views(replies@).skip(k as int);
    let n = replies.len() - k;
    if n == 0 {
        return GitStep::Run(make_call(project_dir, args3("rev-parse", "--abbrev-ref", "origin/HEAD"), GitMode::Output));
    }
    assert(rs[0] == replies@[k as int]@);
    match origin_head_branch_exec(&replies[k]) {
        Some(b) => {
            return GitStep::Done(Ok(Some(b)));
        },
        None => {},
    }
    if n == 1 {
        return GitStep::Run(make_call(project_dir, args4("show-ref", "--verify", "--quiet", "refs/heads/main"), GitMode::Check));
    }
    assert(rs[1] == replies@[k + 1]@);
    match check_result(&replies[k + 1]) {
        Err(m) => GitStep::Done(Err(m)),
        Ok(true) => GitStep::Done(Ok(Some("main".to_string()))),
        Ok(false) => {
            if n == 2 {
                GitStep::Run(make_call(project_dir, args4("show-ref", "--verify", "--quiet", "refs/heads/master"), GitMode::Check))
            } else {
                assert(rs[2] == replies@[k + 2]@);
                match check_result(&replies[k + 2]) {
                    Err(m) => GitStep::Done(Err(m)),
                    Ok(true) => GitStep::Done(Ok(Some("master".to_string()))),
                    Ok(false) => GitStep::Done(Ok(None)),
                }
            }
        },
    }
}

/// The default branch of the repository: origin's HEAD (refreshed from the
/// remote first when `allow_network`), else a local `main`, else a local
/// `master`, else `None`.
pub fn detect_default_branch(project_dir: &str, allow_network: bool, replies: &Vec<GitReply>) -> (r: GitStep<Result<Option<String>, String>>)
    ensures
        opt_branch_step_view(r) == default_branch_plan(project_dir@, allow_network, reply_views(replies@)),
{
    if allow_network {
        if replies.len() == 0 {
            return GitStep::Run(make_call(project_dir, args4("remote", "set-head", "origin", "--auto"), GitMode::Check));
        }
        assert(reply_views(replies@).drop_first() =~= reply_views(replies@).skip(1));
        default_branch_from(project_dir, replies, 1)
    } else {
        assert(reply_views(replies@) =~= reply_views(replies@).skip(0));
        default_branch_from(project_dir, replies, 0)
    }
}

pub open spec fn set_upstream_call(dir: Seq<char>, name: Seq<char>) -> GitCallView {
    GitCallView { dir, args: seq!["branch"@, "--set-upstream-to"@, "origin/"@ + name], mode: GitMode::Output }
}

/// Make `origin/<branch_name>` the upstream of the branch checked out at
/// `worktree_path`; git's failure is the error.
pub fn set_upstream(worktree_path: &str, branch_name: &str, replies: &Vec<GitReply>) -> (r: GitStep<Result<(), String>>)
    ensures
        replies.len() == 0 ==> (r matches GitStep::Run(c) && c@ == set_upstream_call(worktree_path@, branch_name@)),
        replies.len() > 0 ==> (r matches GitStep::Done(res) && match output_of(reply_views(replies@)[0]) {
            Ok(_) => res is Ok,
            Err(m) => res is Err && res->Err_0@ == m,
        }),
{
    if replies.len() == 0 {
        let target = join_str("origin/", branch_name);
        return GitStep::Run(make_call(worktree_path, args3("branch", "--set-upstream-to", target.as_str()), GitMode::Output));
    }
    match &replies[0] {
        GitReply::Success(_) => GitStep::Done(Ok(())),
        _ => GitStep::Done(Err(reply_message(&replies[0]))),
    }
}

} // verus!
