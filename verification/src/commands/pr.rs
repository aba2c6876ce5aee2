//! Checking out a pull request into a worktree of its own, with `gh` when
//! it is there (fork pull requests included) and `refs/pull/<n>/head`
//! otherwise.
use vstd::prelude::*;

use crate::commands::effects::{drive, effect_view, fs, fs_answer_of, gh, git, navigate, next_effect, outcome_views, reply_of, say, Effect, EffectView, Level, Outcome, Prog, Runner};
use crate::commands::steps::{add_call, add_new_branch_call, drive_branch_exists, exists_plan, fetch_ref_call, git_ignored, git_or_fail, git_or_fail_exec, name_view, say_exec, strings6, trimmed_or};
use crate::git::branch::{set_upstream, set_upstream_call};
use crate::git::config::set_config_call;
use crate::git::operations::{FsQuery, FsQueryView, FsReply, FsReplyView};
use crate::git::{args3, arg_views, make_call, output_of, reply_message, trimmed_output, GitMode, GitReply, GitReplyView, GitStep};
use crate::layout::{ProjectContext, ProjectContextView};
use crate::paths::path_join;

use crate::text::{join3, join4, join5, join_str, lines, split_lines, trim, chars_eq, chars_of, concat, decimal, parse_u64, parse_unsigned, split, split_chars, string_of, strip_prefix, strip_prefix_chars, u64_to_chars};

verus! {

pub open spec fn host_message(host: Seq<char>) -> Seq<char> {
    "Only GitHub URLs are supported. Got host '"@ + host + "'. Use a PR number instead for other forges."@
}

pub open spec fn unparsable_message(input: Seq<char>) -> Seq<char> {
    "Could not parse PR number from '"@ + input
        + "'. Use a number or GitHub URL (https://github.com/owner/repo/pull/N)."@
}

/// The URL without its `https://` (or else `http://`) scheme.
pub open spec fn url_rest(input: Seq<char>) -> Option<Seq<char>> {
    match strip_prefix(input, "https://"@) {
        Some(r) => Some(r),
        None => strip_prefix(input, "http://"@),
    }
}

/// The pull request number in an input: a `u64`, or a
/// `http(s)://github.com/<owner>/<repo>/pull/<n>[/...]` URL. Another host
/// and anything else are errors.
pub open spec fn pr_number_of(input: Seq<char>) -> Result<u64, Seq<char>> {
    match parse_unsigned(input, u64::MAX as nat) {
        Some(n) => Ok(n as u64),
        None => match url_rest(input) {
            Some(rest) => {
                let parts = split(rest, '/');
                if parts[0] != "github.com"@ {
                    Err(host_message(parts[0]))
                } else if parts.len() >= 5 && parts[3] == "pull"@ && parse_unsigned(parts[4], u64::MAX as nat) is Some {
                    Ok(parse_unsigned(parts[4], u64::MAX as nat)->0 as u64)
                } else {
                    Err(unparsable_message(input))
                }
            },
            None => Err(unparsable_message(input)),
        },
    }
}

fn unparsable(input: &Vec<char>) -> (r: String)
    ensures
        r@ == unparsable_message(input@),
{
    string_of(
        &concat(
            &concat(&chars_of("Could not parse PR number from '"), input),
            &chars_of("'. Use a number or GitHub URL (https://github.com/owner/repo/pull/N)."),
        ),
    )
}

pub fn parse_pr_number(input: &str) -> (r: Result<u64, String>)
    ensures
        match (r, pr_number_of(input@)) {
            (Ok(a), Ok(b)) => a == b,
            (Err(e), Err(m)) => e@ == m,
            _ => false,
        },
{
    let v = chars_of(input);
    match parse_u64(&v) {
        Some(n) => {
            return Ok(n);
        },
        None => {},
    }
    let rest = match strip_prefix_chars(&v, &chars_of("https://")) {
        Some(r) => Some(r),
        None => strip_prefix_chars(&v, &chars_of("http://")),
    };
    match rest {
        Some(rest) => {
            let parts = split_chars(&rest, '/');
            proof {
                crate::text::lemma_split_nonempty(rest@, '/');
            }
            if !chars_eq(&parts[0], &chars_of("github.com")) {
                let m = concat(
                    &concat(&chars_of("Only GitHub URLs are supported. Got host '"), &parts[0]),
                    &chars_of("'. Use a PR number instead for other forges."),
                );
                return Err(string_of(&m));
            }
            if parts.len() >= 5 && chars_eq(&parts[3], &chars_of("pull")) {
                match parse_u64(&parts[4]) {
                    Some(n) => {
                        return Ok(n);
                    },
                    None => {},
                }
            }
            Err(unparsable(&v))
        },
        None => Err(unparsable(&v)),
    }
}

/// `pr-<n>`.
pub fn default_worktree_name(pr_number: u64) -> (r: String)
    ensures
        r@ == "pr-"@ + decimal(pr_number as nat),
{
    string_of(&concat(&chars_of("pr-"), &u64_to_chars(pr_number)))
}

// ------------------------------------------------------------------
// The command
// ------------------------------------------------------------------

pub open spec fn dec(n: u64) -> Seq<char> {
    decimal(n as nat)
}

pub open spec fn pr_view_args(n: u64) -> Seq<Seq<char>> {
    seq![
        "pr"@,
        "view"@,
        dec(n),
        "--json"@,
        "headRefName,headRepositoryOwner"@,
        "-q"@,
        ".headRefName + \"\\n\" + .headRepositoryOwner.login"@,
    ]
}

pub open spec fn repo_owner_args() -> Seq<Seq<char>> {
    seq!["repo"@, "view"@, "--json"@, "owner"@, "-q"@, ".owner.login"@]
}

pub open spec fn repo_name_args() -> Seq<Seq<char>> {
    seq!["repo"@, "view"@, "--json"@, "name"@, "-q"@, ".name"@]
}

/// The URL of a fork on GitHub.
pub open spec fn fork_url(owner: Seq<char>, name: Seq<char>) -> Seq<char> {
    "https://github.com/"@ + owner + "/"@ + name + ".git"@
}

/// The pull request's branch and the remote to fetch it from, asked of
/// `gh`: the head branch and its owner; when the owner is not the
/// repository's owner, the fork's URL is the remote, else `origin`. `None`
/// when `gh` fails or names no branch.
pub open spec fn metadata_prog(n: u64, k: spec_fn(Option<(Seq<char>, Seq<char>)>) -> Prog) -> Prog {
    gh(
        pr_view_args(n),
        |r: GitReplyView| match output_of(r) {
            Err(_) => k(None),
            Ok(out) => {
                let ls = lines(trim(out));
                if ls.len() == 0 || ls[0].len() == 0 {
                    k(None)
                } else {
                    let b = ls[0];
                    let owner = if ls.len() > 1 {
                        ls[1]
                    } else {
                        Seq::empty()
                    };
                    if owner.len() == 0 {
                        k(Some((b, "origin"@)))
                    } else {
                        gh(
                            repo_owner_args(),
                            |o: GitReplyView| {
                                let repo_owner = trimmed_or(o, Seq::empty());
                                if repo_owner.len() > 0 && owner != repo_owner {
                                    gh(
                                        repo_name_args(),
                                        |m: GitReplyView| k(Some((b, fork_url(owner, trimmed_or(m, "repo"@))))),
                                    )
                                } else {
                                    k(Some((b, "origin"@)))
                                }
                            },
                        )
                    }
                }
            },
        },
    )
}

pub open spec fn pull_head(n: u64) -> Seq<char> {
    "refs/pull/"@ + dec(n) + "/head"@
}

/// Make `branch` track the pull request's ref on `origin` (outcomes
/// ignored).
pub open spec fn track_pull_ref(path: Seq<char>, branch: Seq<char>, n: u64, then: Prog) -> Prog {
    git(
        set_config_call(path, "branch."@ + branch + ".remote"@, "origin"@),
        |r: GitReplyView| git(
            set_config_call(path, "branch."@ + branch + ".merge"@, pull_head(n)),
            |r2: GitReplyView| then,
        ),
    )
}

/// Checkout with what `gh` said: fetch the branch from its remote (a
/// failure is only warned about), add the worktree on the branch (created
/// from the fetched ref when it does not exist yet), and set its tracking.
pub open spec fn gh_checkout(
    dir: Seq<char>,
    path: Seq<char>,
    n: u64,
    b: Seq<char>,
    remote: Seq<char>,
    then: Prog,
) -> Prog {
    let origin = remote == "origin"@;
    let start = if origin {
        "origin/"@ + b
    } else {
        "FETCH_HEAD"@
    };
    let tracking = if origin {
        git(set_upstream_call(path, b), |r: GitReplyView| then)
    } else {
        track_pull_ref(path, b, n, then)
    };
    let add = drive(
        exists_plan(dir, b),
        seq![],
        2,
        |e: Result<bool, Seq<char>>| match e {
            Err(m) => Prog::Finish(Err(m)),
            Ok(true) => git_or_fail(add_call(dir, path, b), tracking),
            Ok(false) => git_or_fail(add_new_branch_call(dir, b, path, start), tracking),
        },
    );
    let fetch = git(
        fetch_ref_call(dir, remote, b),
        |f: GitReplyView| match output_of(f) {
            Err(e) => say(Level::Warning, "  Fetch warning: "@ + e, add),
            Ok(_) => add,
        },
    );
    say(
        Level::Info,
        "  Branch: "@ + b + " (from gh CLI)"@,
        if origin {
            fetch
        } else {
            say(Level::Info, "  Fork remote: "@ + remote, fetch)
        },
    )
}

/// Checkout without `gh`: fetch `pull/<n>/head` into branch `pr-<n>`, add
/// the worktree on it, and make it track the pull request's ref.
pub open spec fn fallback_checkout(dir: Seq<char>, path: Seq<char>, n: u64, then: Prog) -> Prog {
    let local = "pr-"@ + dec(n);
    say(
        Level::Info,
        "  gh CLI not available, using git fetch fallback"@,
        say(
            Level::Info,
            "  Fetching refs/pull/"@ + dec(n) + "/head"@,
            git_or_fail(
                fetch_ref_call(dir, "origin"@, "pull/"@ + dec(n) + "/head:"@ + local),
                git_or_fail(add_call(dir, path, local), track_pull_ref(path, local, n, then)),
            ),
        ),
    )
}

pub open spec fn exists_message(name: Seq<char>) -> Seq<char> {
    "Worktree directory '"@ + name + "' already exists"@
}

/// The checkout once the metadata question is answered.
pub open spec fn checkout_prog(
    dir: Seq<char>,
    path: Seq<char>,
    wt_name: Seq<char>,
    n: u64,
    m: Option<(Seq<char>, Seq<char>)>,
) -> Prog {
    let done = say(
        Level::Success,
        "PR #"@ + dec(n) + " checked out to '"@ + wt_name + "'"@,
        navigate(path, Prog::Finish(Ok(()))),
    );
    match m {
        Some((b, remote)) => gh_checkout(dir, path, n, b, remote, done),
        None => fallback_checkout(dir, path, n, done),
    }
}

pub open spec fn checkout_after_meta(dir: Seq<char>, path: Seq<char>, wt_name: Seq<char>, n: u64) -> spec_fn(
    Option<(Seq<char>, Seq<char>)>,
) -> Prog {
    |m: Option<(Seq<char>, Seq<char>)>| checkout_prog(dir, path, wt_name, n, m)
}

/// The pr command: the worktree (named `name`, else `pr-<n>`) must not
/// exist yet; then the pull request is checked out into it and offered for
/// navigation.
pub open spec fn pr_prog(ctx: ProjectContextView, target: Seq<char>, name: Option<Seq<char>>) -> Prog {
    match pr_number_of(target) {
        Err(m) => Prog::Finish(Err(m)),
        Ok(n) => {
            let wt_name = match name {
                Some(x) => x,
                None => "pr-"@ + dec(n),
            };
            let path = path_join(ctx.worktree_parent, wt_name);
            fs(
                FsQueryView::Exists(path),
                |a: FsReplyView| if a is Yes {
                    Prog::Finish(Err(exists_message(wt_name)))
                } else {
                    say(
                        Level::Header,
                        "Checking out PR #"@ + dec(n),
                        metadata_prog(n, checkout_after_meta(ctx.project_dir, path, wt_name, n)),
                    )
                },
            )
        },
    }
}

pub open spec fn meta_view(m: Option<(String, String)>) -> Option<(Seq<char>, Seq<char>)> {
    match m {
        Some((b, r)) => Some((b@, r@)),
        None => None,
    }
}

fn gh_effect(args: Vec<String>) -> (e: Effect)
    ensures
        effect_view(e) == EffectView::Gh(arg_views(args@)),
{
    proof {
        assert(crate::commands::effects::strings_view(args@) =~= arg_views(args@));
    }
    Effect::Gh(args)
}

/// Ask `gh` for the pull request's branch and remote.
fn pr_metadata(
    rn: &mut Runner,
    n: u64,
    Ghost(k): Ghost<spec_fn(Option<(Seq<char>, Seq<char>)>) -> Prog>,
) -> (r: Result<Option<(String, String)>, Effect>)
    requires
        old(rn).consistent(),
        old(rn).prog@ == metadata_prog(n, k),
    ensures
        final(rn).consistent(),
        final(rn).outcomes == old(rn).outcomes,
        final(rn).whole == old(rn).whole,
        match r {
            Ok(m) => final(rn).prog@ == k(meta_view(m)),
            Err(e) => effect_view(e) == next_effect(old(rn).whole@, old(rn).views()),
        },
{
    let num = string_of(&u64_to_chars(n));
    let args = {
        let mut v = strings6("pr", "view", num.as_str(), "--json", "headRefName,headRepositoryOwner", "-q");
        let ghost before = arg_views(v@);
        v.push(".headRefName + \"\\n\" + .headRepositoryOwner.login".to_string());
        assert(arg_views(v@) =~= before.push(".headRefName + \"\\n\" + .headRepositoryOwner.login"@));
        v
    };
    assert(arg_views(args@) =~= pr_view_args(n));
    let o = match rn.perform(gh_effect(args)) {
        Err(e) => {
            return Err(e);
        },
        Ok(o) => o,
    };
    let out = match trimmed_output(&reply_of(&rn.outcomes[o])) {
        None => {
            return Ok(None);
        },
        Some(t) => t,
    };
    let ls = split_lines(&out);
    if ls.len() == 0 || ls[0].len() == 0 {
        return Ok(None);
    }
    let b = string_of(&ls[0]);
    let owner: Vec<char> = if ls.len() > 1 {
        crate::text::copy_chars(&ls[1])
    } else {
        Vec::new()
    };
    if owner.len() == 0 {
        return Ok(Some((b, "origin".to_string())));
    }
    let o = match rn.perform(gh_effect(strings6("repo", "view", "--json", "owner", "-q", ".owner.login"))) {
        Err(e) => {
            return Err(e);
        },
        Ok(o) => o,
    };
    let repo_owner = match trimmed_output(&reply_of(&rn.outcomes[o])) {
        Some(t) => t,
        None => Vec::new(),
    };
    if repo_owner.len() > 0 && !chars_eq(&owner, &repo_owner) {
        let o = match rn.perform(gh_effect(strings6("repo", "view", "--json", "name", "-q", ".name"))) {
            Err(e) => {
                return Err(e);
            },
            Ok(o) => o,
        };
        let repo_name = match trimmed_output(&reply_of(&rn.outcomes[o])) {
            Some(t) => string_of(&t),
            None => "repo".to_string(),
        };
        let owner = string_of(&owner);
        let url = join5("https://github.com/", owner.as_str(), "/", repo_name.as_str(), ".git");
        Ok(Some((b, url)))
    } else {
        Ok(Some((b, "origin".to_string())))
    }
}

fn track_pull_ref_exec(rn: &mut Runner, path: &str, branch: &str, n: u64, Ghost(then): Ghost<Prog>) -> (r: Result<(), Effect>)
    requires
        old(rn).consistent(),
        old(rn).prog@ == track_pull_ref(path@, branch@, n, then),
    ensures
        final(rn).consistent(),
        final(rn).outcomes == old(rn).outcomes,
        final(rn).whole == old(rn).whole,
        match r {
            Ok(()) => final(rn).prog@ == then,
            Err(e) => effect_view(e) == next_effect(old(rn).whole@, old(rn).views()),
        },
{
    let key = join3("branch.", branch, ".remote");
    let c = make_call(path, args3("config", key.as_str(), "origin"), GitMode::Output);
    let ghost second = git(
        set_config_call(path@, "branch."@ + branch@ + ".merge"@, pull_head(n)),
        |r2: GitReplyView| then,
    );
    match git_ignored(rn, c, Ghost(second)) {
        Err(e) => {
            return Err(e);
        },
        Ok(()) => {},
    }
    let key = join3("branch.", branch, ".merge");
    let num = string_of(&u64_to_chars(n));
    let value = join3("refs/pull/", num.as_str(), "/head");
    let c = make_call(path, args3("config", key.as_str(), value.as_str()), GitMode::Output);
    git_ignored(rn, c, Ghost(then))
}

fn gh_checkout_exec(
    rn: &mut Runner,
    dir: &str,
    path: &str,
    n: u64,
    b: &str,
    remote: &str,
    Ghost(then): Ghost<Prog>,
) -> (r: Result<(), Effect>)
    requires
        old(rn).consistent(),
        old(rn).prog@ == gh_checkout(dir@, path@, n, b@, remote@, then),
    ensures
        final(rn).consistent(),
        final(rn).outcomes == old(rn).outcomes,
        final(rn).whole == old(rn).whole,
        match r {
            Ok(()) => final(rn).prog@ == then,
            Err(e) => effect_view(e) == next_effect(old(rn).whole@, old(rn).views()),
        },
{
    let origin = chars_eq(&chars_of(remote), &chars_of("origin"));
    match rn.perform(say_exec(Level::Info, join3("  Branch: ", b, " (from gh CLI)"))) {
        Err(e) => {
            return Err(e);
        },
        Ok(_) => {},
    }
    if !origin {
        match rn.perform(say_exec(Level::Info, join_str("  Fork remote: ", remote))) {
            Err(e) => {
                return Err(e);
            },
            Ok(_) => {},
        }
    }
    let o = match rn.perform(Effect::Git(make_call(dir, args3("fetch", remote, b), GitMode::Output))) {
        Err(e) => {
            return Err(e);
        },
        Ok(o) => o,
    };
    let fetched = reply_of(&rn.outcomes[o]);
    match &fetched {
        GitReply::Success(_) => {},
        _ => {
            let msg = join_str("  Fetch warning: ", reply_message(&fetched).as_str());
            match rn.perform(say_exec(Level::Warning, msg)) {
                Err(e) => {
                    return Err(e);
                },
                Ok(_) => {},
            }
        },
    }
    let ghost tracking = if origin {
        git(set_upstream_call(path@, b@), |r: GitReplyView| then)
    } else {
        track_pull_ref(path@, b@, n, then)
    };
    let ghost start = if origin {
        "origin/"@ + b@
    } else {
        "FETCH_HEAD"@
    };
    let ghost k = |e: Result<bool, Seq<char>>| match e {
        Err(m) => Prog::Finish(Err(m)),
        Ok(true) => git_or_fail(add_call(dir@, path@, b@), tracking),
        Ok(false) => git_or_fail(add_new_branch_call(dir@, b@, path@, start), tracking),
    };
    let exists = match drive_branch_exists(rn, dir, b, Ghost(k)) {
        Err(e) => {
            return Err(e);
        },
        Ok(Err(m)) => {
            return Err(rn.finish(Err(m)));
        },
        Ok(Ok(x)) => x,
    };
    let add = if exists {
        make_call(dir, crate::git::args4("worktree", "add", path, b), GitMode::Output)
    } else {
        let start_ref = if origin {
            join_str("origin/", b)
        } else {
            "FETCH_HEAD".to_string()
        };
        make_call(dir, strings6("worktree", "add", "-b", b, path, start_ref.as_str()), GitMode::Output)
    };
    match git_or_fail_exec(rn, add, Ghost(tracking)) {
        Err(e) => {
            return Err(e);
        },
        Ok(()) => {},
    }
    if origin {
        let empty: Vec<GitReply> = Vec::new();
        match set_upstream(path, b, &empty) {
            GitStep::Run(c) => git_ignored(rn, c, Ghost(then)),
            GitStep::Done(_) => Ok(()),
        }
    } else {
        track_pull_ref_exec(rn, path, b, n, Ghost(then))
    }
}

fn fallback_checkout_exec(rn: &mut Runner, dir: &str, path: &str, n: u64, Ghost(then): Ghost<Prog>) -> (r: Result<(), Effect>)
    requires
        old(rn).consistent(),
        old(rn).prog@ == fallback_checkout(dir@, path@, n, then),
    ensures
        final(rn).consistent(),
        final(rn).outcomes == old(rn).outcomes,
        final(rn).whole == old(rn).whole,
        match r {
            Ok(()) => final(rn).prog@ == then,
            Err(e) => effect_view(e) == next_effect(old(rn).whole@, old(rn).views()),
        },
{
    let num = string_of(&u64_to_chars(n));
    let local = join_str("pr-", num.as_str());
    match rn.perform(say_exec(Level::Info, "  gh CLI not available, using git fetch fallback".to_string())) {
        Err(e) => {
            return Err(e);
        },
        Ok(_) => {},
    }
    match rn.perform(say_exec(Level::Info, join3("  Fetching refs/pull/", num.as_str(), "/head"))) {
        Err(e) => {
            return Err(e);
        },
        Ok(_) => {},
    }
    let refspec = join4("pull/", num.as_str(), "/head:", local.as_str());
    let ghost after_fetch = git_or_fail(add_call(dir@, path@, local@), track_pull_ref(path@, local@, n, then));
    match git_or_fail_exec(rn, make_call(dir, args3("fetch", "origin", refspec.as_str()), GitMode::Output), Ghost(after_fetch)) {
        Err(e) => {
            return Err(e);
        },
        Ok(()) => {},
    }
    let add = make_call(dir, crate::git::args4("worktree", "add", path, local.as_str()), GitMode::Output);
    match git_or_fail_exec(rn, add, Ghost(track_pull_ref(path@, local@, n, then))) {
        Err(e) => {
            return Err(e);
        },
        Ok(()) => {},
    }
    track_pull_ref_exec(rn, path, local.as_str(), n, Ghost(then))
}

/// The pr command's next effect, given the outcomes of those it asked for
/// so far.
pub fn run(ctx: &ProjectContext, target: &str, name: Option<&str>, outcomes: &Vec<Outcome>) -> (e: Effect)
    ensures
        effect_view(e) == next_effect(pr_prog(ctx@, target@, name_view(name)), outcome_views(outcomes@)),
{
    let mut rn = Runner::new(outcomes, Ghost(pr_prog(ctx@, target@, name_view(name))));
    let n = match parse_pr_number(target) {
        Err(m) => {
            return rn.finish(Err(m));
        },
        Ok(n) => n,
    };
    let num = string_of(&u64_to_chars(n));
    let wt_name = match name {
        Some(x) => x.to_string(),
        None => join_str("pr-", num.as_str()),
    };
    let path = crate::paths::join(ctx.worktree_parent.as_str(), wt_name.as_str());
    let o = match rn.perform(Effect::Fs(FsQuery::Exists(path.clone()))) {
        Err(e) => {
            return e;
        },
        Ok(o) => o,
    };
    let present = match fs_answer_of(&rn.outcomes[o]) {
        FsReply::Yes => true,
        _ => false,
    };
    if present {
        return rn.finish(Err(join3("Worktree directory '", wt_name.as_str(), "' already exists")));
    }
    match rn.perform(say_exec(Level::Header, join_str("Checking out PR #", num.as_str()))) {
        Err(e) => {
            return e;
        },
        Ok(_) => {},
    }
    let dir = ctx.project_dir.as_str();
    let ghost k = checkout_after_meta(dir@, path@, wt_name@, n);
    let meta = match pr_metadata(&mut rn, n, Ghost(k)) {
        Err(e) => {
            return e;
        },
        Ok(m) => m,
    };
    let ghost done = say(
        Level::Success,
        "PR #"@ + dec(n) + " checked out to '"@ + wt_name@ + "'"@,
        navigate(path@, Prog::Finish(Ok(()))),
    );
    let r = match &meta {
        Some((b, remote)) => gh_checkout_exec(&mut rn, dir, path.as_str(), n, b.as_str(), remote.as_str(), Ghost(done)),
        None => fallback_checkout_exec(&mut rn, dir, path.as_str(), n, Ghost(done)),
    };
    match r {
        Err(e) => {
            return e;
        },
        Ok(()) => {},
    }
    match rn.perform(say_exec(Level::Success, join5("PR #", num.as_str(), " checked out to '", wt_name.as_str(), "'"))) {
        Err(e) => {
            return e;
        },
        Ok(_) => {},
    }
    match rn.perform(Effect::Navigate(path)) {
        Err(e) => {
            return e;
        },
        Ok(_) => {},
    }
    rn.finish(Ok(()))
}

} // verus!
