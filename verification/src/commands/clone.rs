//! Cloning a repository bare, in the modern layout, with a worktree for its
//! default branch.
use vstd::prelude::*;

use crate::commands::add::{fetch_all_plain_call, pull_call};
use crate::commands::effects::{
    create_dir_all, done_of, done_result_of, drive, effect_view, fs, fs_answer_of, git, navigate, next_effect,
    reply_of, say, then_do, Effect, EffectView, Level, Outcome, OutcomeView, Prog, Runner,
};
use crate::commands::migrate::effective_bare_dir;
use crate::commands::setup::here;
use crate::commands::steps::{add_call, default_plan_for, drive_default_branch_for, name_view, say_exec, succeeded, succeeded_exec};
use crate::config::schema::GlobalConfigView;
use crate::config::Config;
use crate::error::LazywtError;
use crate::git::branch::set_upstream_call;
use crate::git::config::set_config_call;
use crate::git::operations::{FsQuery, FsQueryView, FsReply, FsReplyView};
use crate::git::{args1, args2, args3, args4, make_call, output_of, reply_message, GitCall, GitMode, GitReply, GitReplyView};
use crate::layout::{build_context, context_of, LayoutType};
use crate::output::Status;
use crate::paths::{file_name, join, path_file_name, path_join};
use crate::text::{chars_eq, chars_of, join3, join_str, slice_vec, string_of, strip_suffix, strip_suffix_chars};

verus! {

/// Index just after the last `/` or `:` in `s[..i]`, or 0.
pub open spec fn name_start(s: Seq<char>, i: int) -> int
    decreases i,
{
    if i <= 0 {
        0
    } else if s[i - 1] == '/' || s[i - 1] == ':' {
        i
    } else {
        name_start(s, i - 1)
    }
}

/// The repository name in a URL or path: without one trailing `/`, then
/// without one `.git`, the part after the last `/` or `:`.
pub open spec fn repo_name(url: Seq<char>) -> Seq<char> {
    let u = match strip_suffix(url, "/"@) {
        Some(x) => x,
        None => url,
    };
    let n = match strip_suffix(u, ".git"@) {
        Some(x) => x,
        None => u,
    };
    n.subrange(name_start(n, n.len() as int), n.len() as int)
}

proof fn lemma_name_start(s: Seq<char>, i: int)
    requires
        0 <= i <= s.len(),
    ensures
        0 <= name_start(s, i) <= i,
    decreases i,
{
    if i > 0 && !(s[i - 1] == '/' || s[i - 1] == ':') {
        lemma_name_start(s, i - 1);
    }
}

pub fn extract_repo_name(url: &str) -> (r: String)
    ensures
        r@ == repo_name(url@),
{
    let v = chars_of(url);
    let u = match strip_suffix_chars(&v, &chars_of("/")) {
        Some(x) => x,
        None => v,
    };
    let n = match strip_suffix_chars(&u, &chars_of(".git")) {
        Some(x) => x,
        None => u,
    };
    let mut i: usize = n.len();
    while i > 0 && n[i - 1] != '/' && n[i - 1] != ':'
        invariant
            i <= n.len(),
            name_start(n@, i as int) == name_start(n@, n@.len() as int),
        decreases i,
    {
        i = i - 1;
    }
    proof {
        lemma_name_start(n@, n@.len() as int);
    }
    string_of(&slice_vec(&n, i, n.len()))
}

// ------------------------------------------------------------------
// The command
// ------------------------------------------------------------------

/// The fetch refspec that makes every remote branch visible.
pub open spec fn full_refspec() -> Seq<char> {
    "+refs/heads/*:refs/remotes/origin/*"@
}

pub open spec fn cwd_failed_message() -> Seq<char> {
    "could not read the current directory"@
}

pub open spec fn directory_exists_message(dest: Seq<char>) -> Seq<char> {
    "directory '"@ + dest + "' already exists"@
}

/// The name recorded as `wt.baredir`: the bare directory's last component.
pub open spec fn bare_dir_name(bare: Seq<char>) -> Seq<char> {
    match path_file_name(bare) {
        Some(n) => n,
        None => ".git"@,
    }
}

/// Remove the half-made clone, then fail with the message.
pub open spec fn undo(dest: Seq<char>, m: Seq<char>) -> Prog {
    then_do(EffectView::RemoveDirAll(dest), Prog::Finish(Err(m)))
}

/// A git command whose failure removes the half-made clone and fails.
pub open spec fn git_or_undo(dest: Seq<char>, c: crate::git::GitCallView, then: Prog) -> Prog {
    git(
        c,
        |r: GitReplyView| match output_of(r) {
            Err(m) => undo(dest, m),
            Ok(_) => then,
        },
    )
}

/// Sum up and offer to go to the main worktree.
pub open spec fn ready(dest: Seq<char>, wt: Seq<char>) -> Prog {
    say(
        Level::Success,
        "Repository ready at "@ + dest,
        say(Level::Info, "  Main worktree: "@ + wt, navigate(wt, Prog::Finish(Ok(())))),
    )
}

/// The worktree of the default branch `b`, its upstream (whatever comes of
/// it) and a pull (whose failure is only reported).
pub open spec fn main_worktree_prog(
    dest: Seq<char>,
    bare: Seq<char>,
    folder: Option<Seq<char>>,
    location: Seq<char>,
    b: Seq<char>,
) -> Prog {
    let parent = context_of(bare, LayoutType::Modern, folder, location).worktree_parent;
    let wt = path_join(parent, b);
    Prog::Do(
        EffectView::CreateDirAll(parent),
        |o: OutcomeView| match done_of(o) {
            Err(m) => undo(dest, m),
            Ok(_) => then_do(
                EffectView::Progress("Creating "@ + b + " worktree"@),
                git_or_undo(
                    dest,
                    add_call(bare, wt, b),
                    then_do(
                        EffectView::ProgressDone(Status::Success, b + " worktree created"@),
                        git(
                            set_upstream_call(wt, b),
                            |u: GitReplyView| git(
                                pull_call(wt),
                                |p: GitReplyView| if succeeded(p) {
                                    ready(dest, wt)
                                } else {
                                    say(Level::Warning, "  Pull failed (you may need to pull manually)"@, ready(dest, wt))
                                },
                            ),
                        ),
                    ),
                ),
            ),
        },
    )
}

/// What follows once the default branch is known (or not).
pub open spec fn clone_after_default(
    dest: Seq<char>,
    bare: Seq<char>,
    folder: Option<Seq<char>>,
    location: Seq<char>,
) -> spec_fn(Result<Option<Seq<char>>, Seq<char>>) -> Prog {
    |d: Result<Option<Seq<char>>, Seq<char>>| match d {
        Err(m) => undo(dest, m),
        Ok(None) => undo(dest, "failed to detect default branch"@),
        Ok(Some(b)) => main_worktree_prog(dest, bare, folder, location, b),
    }
}

/// Fetch every branch (a failure is only reported), then find the default
/// branch, asking the remote.
pub open spec fn fetch_prog(dest: Seq<char>, bare: Seq<char>, folder: Option<Seq<char>>, location: Seq<char>) -> Prog {
    then_do(
        EffectView::Progress("Fetching branches"@),
        git(
            fetch_all_plain_call(bare),
            |r: GitReplyView| then_do(
                if succeeded(r) {
                    EffectView::ProgressDone(Status::Success, "Branches fetched"@)
                } else {
                    EffectView::ProgressDone(Status::Warning, "Fetch failed (continuing anyway)"@)
                },
                drive(default_plan_for(bare, true), seq![], 4, clone_after_default(dest, bare, folder, location)),
            ),
        ),
    )
}

/// Clone bare into `bare`, mark it bare and modern, record its directory
/// name and set the full fetch refspec; any failure from here on removes
/// `dest`.
pub open spec fn clone_inner_prog(
    url: Seq<char>,
    dest: Seq<char>,
    bare: Seq<char>,
    folder: Option<Seq<char>>,
    location: Seq<char>,
) -> Prog {
    then_do(
        EffectView::Progress("Cloning repository"@),
        git_or_undo(
            dest,
            here(seq!["clone"@, "--bare"@, url, bare]),
            then_do(
                EffectView::ProgressDone(Status::Success, "Repository cloned"@),
                git_or_undo(
                    dest,
                    set_config_call(bare, "core.bare"@, "true"@),
                    git_or_undo(
                        dest,
                        set_config_call(bare, "wt.layout"@, "modern"@),
                        git_or_undo(
                            dest,
                            set_config_call(bare, "wt.baredir"@, bare_dir_name(bare)),
                            git_or_undo(
                                dest,
                                set_config_call(bare, "remote.origin.fetch"@, full_refspec()),
                                fetch_prog(dest, bare, folder, location),
                            ),
                        ),
                    ),
                ),
            ),
        ),
    )
}

/// Announce the clone, create its directory and clone.
pub open spec fn start_prog(url: Seq<char>, dest: Seq<char>, eff: Seq<char>, cfg: GlobalConfigView) -> Prog {
    let bare = path_join(dest, eff);
    let create = create_dir_all(dest, clone_inner_prog(url, dest, bare, cfg.worktree_folder, cfg.worktree_location));
    say(
        Level::Header,
        "Cloning "@ + url,
        say(
            Level::Info,
            "  Destination: "@ + dest,
            if eff != ".git"@ {
                say(Level::Info, "  Bare repo: "@ + eff, create)
            } else {
                create
            },
        ),
    )
}

/// The clone command: into `<current directory>/<dirname or repository
/// name>`, which must not exist yet, with the bare repository in the
/// directory named by the flag, else the configuration, else `.git`.
pub open spec fn clone_prog(url: Seq<char>, dirname: Option<Seq<char>>, flag: Option<Seq<char>>, cfg: GlobalConfigView) -> Prog {
    let name = match dirname {
        Some(n) => n,
        None => repo_name(url),
    };
    fs(
        FsQueryView::CurrentDir,
        |cw: FsReplyView| match cw {
            FsReplyView::Text(cwd) => {
                let dest = path_join(cwd, name);
                fs(
                    FsQueryView::Exists(dest),
                    |a: FsReplyView| if a is Yes {
                        Prog::Finish(Err(directory_exists_message(dest)))
                    } else {
                        start_prog(url, dest, effective_bare_dir(flag, cfg.bare_dir), cfg)
                    },
                )
            },
            FsReplyView::Failed(m) => Prog::Finish(Err(m)),
            _ => Prog::Finish(Err(cwd_failed_message())),
        },
    )
}

fn undo_exec(rn: &mut Runner, dest: &str, m: String) -> (e: Effect)
    requires
        old(rn).consistent(),
        old(rn).prog@ == undo(dest@, m@),
    ensures
        final(rn).consistent(),
        final(rn).outcomes == old(rn).outcomes,
        final(rn).whole == old(rn).whole,
        effect_view(e) == next_effect(old(rn).whole@, old(rn).views()),
{
    match rn.perform(Effect::RemoveDirAll(dest.to_string())) {
        Err(e) => {
            return e;
        },
        Ok(_) => {},
    }
    rn.finish(Err(m))
}

fn git_or_undo_exec(rn: &mut Runner, dest: &str, c: GitCall, Ghost(then): Ghost<Prog>) -> (r: Result<(), Effect>)
    requires
        old(rn).consistent(),
        old(rn).prog@ == git_or_undo(dest@, c@, then),
    ensures
        final(rn).consistent(),
        final(rn).outcomes == old(rn).outcomes,
        final(rn).whole == old(rn).whole,
        match r {
            Ok(()) => final(rn).prog@ == then,
            Err(e) => effect_view(e) == next_effect(old(rn).whole@, old(rn).views()),
        },
{
    let o = match rn.perform(Effect::Git(c)) {
        Err(e) => {
            return Err(e);
        },
        Ok(o) => o,
    };
    let reply = reply_of(&rn.outcomes[o]);
    match &reply {
        GitReply::Success(_) => Ok(()),
        _ => Err(undo_exec(rn, dest, reply_message(&reply))),
    }
}

fn main_worktree_exec(rn: &mut Runner, dest: &str, bare: &str, config: &Config, b: &str) -> (e: Effect)
    requires
        old(rn).consistent(),
        old(rn).prog@ == main_worktree_prog(dest@, bare@, config@.worktree_folder, config@.worktree_location, b@),
    ensures
        effect_view(e) == next_effect(old(rn).whole@, old(rn).views()),
{
    let ctx = build_context(bare, LayoutType::Modern, config);
    let parent = ctx.worktree_parent;
    let wt = join(parent.as_str(), b);
    let o = match rn.perform(Effect::CreateDirAll(parent.clone())) {
        Err(e) => {
            return e;
        },
        Ok(o) => o,
    };
    match done_result_of(&rn.outcomes[o]) {
        Err(m) => {
            return undo_exec(rn, dest, m);
        },
        Ok(()) => {},
    }
    let ghost after_add = then_do(
        EffectView::ProgressDone(Status::Success, b@ + " worktree created"@),
        git(
            set_upstream_call(wt@, b@),
            |u: GitReplyView| git(
                pull_call(wt@),
                |p: GitReplyView| if succeeded(p) {
                    ready(dest@, wt@)
                } else {
                    say(Level::Warning, "  Pull failed (you may need to pull manually)"@, ready(dest@, wt@))
                },
            ),
        ),
    );
    match rn.perform(Effect::Progress(join3("Creating ", b, " worktree"))) {
        Err(e) => {
            return e;
        },
        Ok(_) => {},
    }
    match git_or_undo_exec(rn, dest, make_call(bare, args4("worktree", "add", wt.as_str(), b), GitMode::Output), Ghost(after_add)) {
        Err(e) => {
            return e;
        },
        Ok(()) => {},
    }
    match rn.perform(Effect::ProgressDone(Status::Success, join_str(b, " worktree created"))) {
        Err(e) => {
            return e;
        },
        Ok(_) => {},
    }
    let target = join_str("origin/", b);
    match rn.perform(Effect::Git(make_call(wt.as_str(), args3("branch", "--set-upstream-to", target.as_str()), GitMode::Output))) {
        Err(e) => {
            return e;
        },
        Ok(_) => {},
    }
    let o = match rn.perform(Effect::Git(make_call(wt.as_str(), args1("pull"), GitMode::Output))) {
        Err(e) => {
            return e;
        },
        Ok(o) => o,
    };
    if !succeeded_exec(&reply_of(&rn.outcomes[o])) {
        match rn.perform(say_exec(Level::Warning, "  Pull failed (you may need to pull manually)".to_string())) {
            Err(e) => {
                return e;
            },
            Ok(_) => {},
        }
    }
    match rn.perform(say_exec(Level::Success, join_str("Repository ready at ", dest))) {
        Err(e) => {
            return e;
        },
        Ok(_) => {},
    }
    match rn.perform(say_exec(Level::Info, join_str("  Main worktree: ", wt.as_str()))) {
        Err(e) => {
            return e;
        },
        Ok(_) => {},
    }
    match rn.perform(Effect::Navigate(wt.clone())) {
        Err(e) => {
            return e;
        },
        Ok(_) => {},
    }
    rn.finish(Ok(()))
}

fn fetch_exec(rn: &mut Runner, dest: &str, bare: &str, config: &Config) -> (e: Effect)
    requires
        old(rn).consistent(),
        old(rn).prog@ == fetch_prog(dest@, bare@, config@.worktree_folder, config@.worktree_location),
    ensures
        effect_view(e) == next_effect(old(rn).whole@, old(rn).views()),
{
    match rn.perform(Effect::Progress("Fetching branches".to_string())) {
        Err(e) => {
            return e;
        },
        Ok(_) => {},
    }
    let o = match rn.perform(Effect::Git(make_call(bare, args2("fetch", "--all"), GitMode::Output))) {
        Err(e) => {
            return e;
        },
        Ok(o) => o,
    };
    let done = if succeeded_exec(&reply_of(&rn.outcomes[o])) {
        Effect::ProgressDone(Status::Success, "Branches fetched".to_string())
    } else {
        Effect::ProgressDone(Status::Warning, "Fetch failed (continuing anyway)".to_string())
    };
    match rn.perform(done) {
        Err(e) => {
            return e;
        },
        Ok(_) => {},
    }
    let ghost k = clone_after_default(dest@, bare@, config@.worktree_folder, config@.worktree_location);
    match drive_default_branch_for(rn, bare, true, Ghost(k)) {
        Err(e) => e,
        Ok(Err(m)) => undo_exec(rn, dest, m),
        Ok(Ok(None)) => undo_exec(rn, dest, LazywtError::NoDefaultBranch.message()),
        Ok(Ok(Some(b))) => main_worktree_exec(rn, dest, bare, config, b.as_str()),
    }
}

fn clone_inner_exec(rn: &mut Runner, url: &str, dest: &str, bare: &str, config: &Config) -> (e: Effect)
    requires
        old(rn).consistent(),
        old(rn).prog@ == clone_inner_prog(url@, dest@, bare@, config@.worktree_folder, config@.worktree_location),
    ensures
        effect_view(e) == next_effect(old(rn).whole@, old(rn).views()),
{
    let ghost folder = config@.worktree_folder;
    let ghost location = config@.worktree_location;
    let ghost p_fetch = set_config_call(bare@, "remote.origin.fetch"@, full_refspec());
    let ghost s4 = git_or_undo(dest@, p_fetch, fetch_prog(dest@, bare@, folder, location));
    let ghost s3 = git_or_undo(dest@, set_config_call(bare@, "wt.baredir"@, bare_dir_name(bare@)), s4);
    let ghost s2 = git_or_undo(dest@, set_config_call(bare@, "wt.layout"@, "modern"@), s3);
    let ghost s1 = git_or_undo(dest@, set_config_call(bare@, "core.bare"@, "true"@), s2);
    let ghost s0 = then_do(EffectView::ProgressDone(Status::Success, "Repository cloned"@), s1);
    match rn.perform(Effect::Progress("Cloning repository".to_string())) {
        Err(e) => {
            return e;
        },
        Ok(_) => {},
    }
    match git_or_undo_exec(rn, dest, make_call("", args4("clone", "--bare", url, bare), GitMode::Output), Ghost(s0)) {
        Err(e) => {
            return e;
        },
        Ok(()) => {},
    }
    match rn.perform(Effect::ProgressDone(Status::Success, "Repository cloned".to_string())) {
        Err(e) => {
            return e;
        },
        Ok(_) => {},
    }
    match git_or_undo_exec(rn, dest, make_call(bare, args3("config", "core.bare", "true"), GitMode::Output), Ghost(s2)) {
        Err(e) => {
            return e;
        },
        Ok(()) => {},
    }
    match git_or_undo_exec(rn, dest, make_call(bare, args3("config", "wt.layout", "modern"), GitMode::Output), Ghost(s3)) {
        Err(e) => {
            return e;
        },
        Ok(()) => {},
    }
    let name = match file_name(bare) {
        Some(n) => n,
        None => ".git".to_string(),
    };
    match git_or_undo_exec(rn, dest, make_call(bare, args3("config", "wt.baredir", name.as_str()), GitMode::Output), Ghost(s4)) {
        Err(e) => {
            return e;
        },
        Ok(()) => {},
    }
    let refspec = "+refs/heads/*:refs/remotes/origin/*";
    proof {
        reveal_strlit("+refs/heads/*:refs/remotes/origin/*");
    }
    match git_or_undo_exec(
        rn,
        dest,
        make_call(bare, args3("config", "remote.origin.fetch", refspec), GitMode::Output),
        Ghost(fetch_prog(dest@, bare@, folder, location)),
    ) {
        Err(e) => {
            return e;
        },
        Ok(()) => {},
    }
    fetch_exec(rn, dest, bare, config)
}

/// The clone command's next effect, given the outcomes of those it asked
/// for so far.
pub fn run(url: &str, dirname: Option<&str>, bare_dir: Option<&str>, config: &Config, outcomes: &Vec<Outcome>) -> (e: Effect)
    ensures
        effect_view(e) == next_effect(
            clone_prog(url@, name_view(dirname), name_view(bare_dir), config@),
            crate::commands::effects::outcome_views(outcomes@),
        ),
{
    let mut rn = Runner::new(outcomes, Ghost(clone_prog(url@, name_view(dirname), name_view(bare_dir), config@)));
    let name: String = match dirname {
        Some(n) => n.to_string(),
        None => extract_repo_name(url),
    };
    let o = match rn.perform(Effect::Fs(FsQuery::CurrentDir)) {
        Err(e) => {
            return e;
        },
        Ok(o) => o,
    };
    let cwd = match fs_answer_of(&rn.outcomes[o]) {
        FsReply::Text(d) => d,
        FsReply::Failed(m) => {
            return rn.finish(Err(m));
        },
        _ => {
            return rn.finish(Err("could not read the current directory".to_string()));
        },
    };
    let dest = join(cwd.as_str(), name.as_str());
    let o = match rn.perform(Effect::Fs(FsQuery::Exists(dest.clone()))) {
        Err(e) => {
            return e;
        },
        Ok(o) => o,
    };
    match fs_answer_of(&rn.outcomes[o]) {
        FsReply::Yes => {
            return rn.finish(Err(LazywtError::DirectoryExists(dest.clone()).message()));
        },
        _ => {},
    }
    let eff: String = match bare_dir {
        Some(b) => b.to_string(),
        None => match &config.bare_dir {
            Some(b) => b.clone(),
            None => ".git".to_string(),
        },
    };
    let bare = join(dest.as_str(), eff.as_str());
    match rn.perform(say_exec(Level::Header, join_str("Cloning ", url))) {
        Err(e) => {
            return e;
        },
        Ok(_) => {},
    }
    match rn.perform(say_exec(Level::Info, join_str("  Destination: ", dest.as_str()))) {
        Err(e) => {
            return e;
        },
        Ok(_) => {},
    }
    if !chars_eq(&chars_of(eff.as_str()), &chars_of(".git")) {
        match rn.perform(say_exec(Level::Info, join_str("  Bare repo: ", eff.as_str()))) {
            Err(e) => {
                return e;
            },
            Ok(_) => {},
        }
    }
    let o = match rn.perform(Effect::CreateDirAll(dest.clone())) {
        Err(e) => {
            return e;
        },
        Ok(o) => o,
    };
    match done_result_of(&rn.outcomes[o]) {
        Err(m) => {
            return rn.finish(Err(m));
        },
        Ok(()) => {},
    }
    clone_inner_exec(&mut rn, url, dest.as_str(), bare.as_str(), config)
}

} // verus!
