//! Setup: turning an ordinary repository into a bare one with a worktree
//! for its current branch, keeping the original as a backup; and keeping
//! `.wts` in a repository's `.gitignore`.
use vstd::prelude::*;

use crate::commands::effects::{
    answer_result_of, confirm, done_of, done_result_of, effect_view, fs, fs_answer_of, git, next_effect,
    outcome_views, reply_of, say, then_do, Effect, EffectView, Level, Outcome, OutcomeView, Prog, Runner,
};
use crate::commands::migrate::effective_bare_dir;
use crate::commands::steps::{add_call, say_exec};
use crate::config::Config;
use crate::git::operations::{FsQuery, FsQueryView, FsReply, FsReplyView};
use crate::git::{args2, args3, args4, make_call, output_of, reply_message, trimmed_output, GitCallView, GitMode, GitReply, GitReplyView};
use crate::output::Status;
use crate::paths::{file_name, join, parent, path_file_name, path_join, path_parent, path_starts_with, starts_with_path};
use crate::text::{chars_eq, chars_of, join3, join4, join5, join_str, lines, opt_view, split_lines, string_of, trim, trim_chars};

verus! {

// ------------------------------------------------------------------
// .gitignore
// ------------------------------------------------------------------

/// What keeping `.wts` in a `.gitignore` takes.
pub enum GitignorePlan {
    /// It is listed already.
    Keep,
    /// Append this text to the file.
    Append(String),
    /// Create the file with this text.
    Create(String),
}

pub enum GitignorePlanView {
    Keep,
    Append(Seq<char>),
    Create(Seq<char>),
}

pub open spec fn gitignore_plan_view(p: GitignorePlan) -> GitignorePlanView {
    match p {
        GitignorePlan::Keep => GitignorePlanView::Keep,
        GitignorePlan::Append(t) => GitignorePlanView::Append(t@),
        GitignorePlan::Create(t) => GitignorePlanView::Create(t@),
    }
}

/// Some line of the text is `.wts` once trimmed.
pub open spec fn lists_wts(content: Seq<char>) -> bool {
    exists|i: int| 0 <= i < lines(content).len() && trim(#[trigger] lines(content)[i]) == ".wts"@
}

/// For the current `.gitignore` (`None` when there is none): nothing when
/// it lists `.wts`; else an empty line, a comment and the entry appended;
/// or a new file with the comment and the entry.
pub open spec fn gitignore_plan_for(existing: Option<Seq<char>>) -> GitignorePlanView {
    match existing {
        Some(c) => if lists_wts(c) {
            GitignorePlanView::Keep
        } else {
            GitignorePlanView::Append("\n# lazywt worktrees\n.wts\n"@)
        },
        None => GitignorePlanView::Create("# lazywt worktrees\n.wts\n"@),
    }
}

/// What to do to the `.gitignore` whose current text is given.
pub fn plan_gitignore(existing: Option<&str>) -> (r: GitignorePlan)
    ensures
        gitignore_plan_view(r) == gitignore_plan_for(crate::commands::steps::name_view(existing)),
{
    let content = match existing {
        None => {
            return GitignorePlan::Create("# lazywt worktrees\n.wts\n".to_string());
        },
        Some(c) => c,
    };
    assert(crate::commands::steps::name_view(existing) == Some(content@));
    let ls = split_lines(&chars_of(content));
    let ghost lv = crate::text::views(ls@);
    let entry = chars_of(".wts");
    let mut i: usize = 0;
    while i < ls.len()
        invariant
            i <= ls@.len(),
            lv == crate::text::views(ls@),
            lv == lines(content@),
            entry@ == ".wts"@,
            crate::commands::steps::name_view(existing) == Some(content@),
            forall|k: int| 0 <= k < i ==> trim(lv[k]) != ".wts"@,
        decreases ls.len() - i,
    {
        if chars_eq(&trim_chars(&ls[i]), &entry) {
            assert(trim(lines(content@)[i as int]) == ".wts"@);
            assert(lists_wts(content@));
            return GitignorePlan::Keep;
        }
        i = i + 1;
    }
    GitignorePlan::Append("\n# lazywt worktrees\n.wts\n".to_string())
}

// ------------------------------------------------------------------
// The command
// ------------------------------------------------------------------

/// A git command in the current directory.
pub open spec fn here(args: Seq<Seq<char>>) -> GitCallView {
    GitCallView { dir: ""@, args, mode: GitMode::Output }
}

/// A git command in the current directory whose failure ends the command.
pub open spec fn here_or_fail(args: Seq<Seq<char>>, k: spec_fn(Seq<char>) -> Prog) -> Prog {
    git(
        here(args),
        |r: GitReplyView| match output_of(r) {
            Err(m) => Prog::Finish(Err(m)),
            Ok(out) => k(out),
        },
    )
}

pub open spec fn uncommitted_message() -> Seq<char> {
    "Working directory has uncommitted changes. Commit or stash them before running setup.\nRun `git status` to see the changes."@
}

pub open spec fn rollback_setup(root: Seq<char>, backup: Seq<char>, temp: Seq<char>, e: Seq<char>) -> Prog {
    say(
        Level::Warning,
        "Setup failed, rolling back..."@,
        then_do(
            EffectView::RemoveDirAll(root),
            then_do(
                EffectView::Rename { from: backup, to: root },
                then_do(
                    EffectView::RemoveDirAll(temp),
                    Prog::Finish(Err("Failed to set up bare repository: "@ + e + ". Original repo restored."@)),
                ),
            ),
        ),
    )
}

/// Create the worktree of the current branch and sum up; a failure there
/// is only reported (the bare repository is in place).
pub open spec fn worktree_step(root: Seq<char>, eff: Seq<char>, cb: Seq<char>, backup: Seq<char>) -> Prog {
    let fgd = path_join(root, eff);
    let wt = path_join(root, cb);
    then_do(
        EffectView::Progress("Creating worktree for '"@ + cb + "'"@),
        git(
            add_call(fgd, wt, cb),
            |r: GitReplyView| match output_of(r) {
                Err(e) => say(
                    Level::Warning,
                    "Worktree creation failed. Your bare repo is in place but you may need to create worktrees manually."@,
                    say(Level::Warning, "  Error: "@ + e, say(Level::Info, "  Backup at: "@ + backup, Prog::Finish(Ok(())))),
                ),
                Ok(_) => then_do(
                    EffectView::ProgressDone(Status::Success, "Worktree created"@),
                    say(
                        Level::Success,
                        "Repository converted to bare. Worktree '"@ + cb + "' ready at "@ + wt,
                        say(
                            Level::Info,
                            "\n  Backup of original repo at: "@ + backup
                                + "\n  You can delete it once you've verified everything works:\n  rm -rf \""@
                                + backup + "\""@,
                            Prog::Finish(Ok(())),
                        ),
                    ),
                ),
            },
        ),
    )
}

/// Put the bare clone in the repository's place and configure it; undo
/// everything when that fails.
pub open spec fn move_step(root: Seq<char>, eff: Seq<char>, cb: Seq<char>, backup: Seq<char>, temp: Seq<char>) -> Prog {
    let fgd = path_join(root, eff);
    then_do(
        EffectView::Progress("Setting up bare repository"@),
        Prog::Do(
            EffectView::CreateDirAll(root),
            |o: OutcomeView| match done_of(o) {
                Err(e) => rollback_setup(root, backup, temp, e),
                Ok(_) => Prog::Do(
                    EffectView::Rename { from: temp, to: fgd },
                    |o2: OutcomeView| match done_of(o2) {
                        Err(e) => rollback_setup(root, backup, temp, e),
                        Ok(_) => git(
                            GitCallView { dir: fgd, args: seq!["config"@, "wt.layout"@, "modern"@], mode: GitMode::Output },
                            |r1: GitReplyView| git(
                                GitCallView { dir: fgd, args: seq!["config"@, "wt.baredir"@, eff], mode: GitMode::Output },
                                |r2: GitReplyView| then_do(
                                    EffectView::ProgressDone(Status::Success, "Bare repo in place"@),
                                    worktree_step(root, eff, cb, backup),
                                ),
                            ),
                        ),
                    },
                ),
            },
        ),
    )
}

/// Back up the repository by renaming it.
pub open spec fn backup_step(root: Seq<char>, eff: Seq<char>, cb: Seq<char>, backup: Seq<char>, temp: Seq<char>) -> Prog {
    then_do(
        EffectView::Progress("Backing up original repository"@),
        Prog::Do(
            EffectView::Rename { from: root, to: backup },
            |o: OutcomeView| match done_of(o) {
                Err(e) => then_do(
                    EffectView::RemoveDirAll(temp),
                    Prog::Finish(
                        Err(
                            "Failed to rename repository to backup: "@ + e
                                + ". No changes were made to your repository."@,
                        ),
                    ),
                ),
                Ok(_) => then_do(
                    EffectView::ProgressDone(Status::Success, "Original backed up"@),
                    move_step(root, eff, cb, backup, temp),
                ),
            },
        ),
    )
}

/// Clone the repository bare beside it, leave it if it holds the current
/// directory, and go on with the backup.
pub open spec fn clone_step(root: Seq<char>, parent: Seq<char>, eff: Seq<char>, cb: Seq<char>, backup: Seq<char>, temp: Seq<char>) -> Prog {
    then_do(
        EffectView::Progress("Creating bare clone"@),
        here_or_fail(
            seq!["clone"@, "--bare"@, root, temp],
            |c: Seq<char>| then_do(
                EffectView::ProgressDone(Status::Success, "Bare clone created"@),
                fs(
                    FsQueryView::CurrentDir,
                    |cw: FsReplyView| match cw {
                        FsReplyView::Text(d) => if path_starts_with(d, root) {
                            then_do(EffectView::EnterDir(parent), backup_step(root, eff, cb, backup, temp))
                        } else {
                            backup_step(root, eff, cb, backup, temp)
                        },
                        _ => backup_step(root, eff, cb, backup, temp),
                    },
                ),
            ),
        ),
    )
}

pub open spec fn backup_exists_message(backup: Seq<char>) -> Seq<char> {
    "Backup directory already exists: "@ + backup + "\nRemove it first if a previous setup attempt failed."@
}

pub open spec fn temp_dir(parent: Seq<char>, name: Seq<char>) -> Seq<char> {
    path_join(parent, "."@ + name + "-bare-temp"@)
}

/// Once confirmed: no backup may be in the way; a stale temporary clone is
/// removed.
pub open spec fn after_setup_confirm(root: Seq<char>, parent: Seq<char>, name: Seq<char>, eff: Seq<char>, cb: Seq<char>, backup: Seq<char>) -> spec_fn(
    Result<bool, Seq<char>>,
) -> Prog {
    |a: Result<bool, Seq<char>>| match a {
        Err(m) => Prog::Finish(Err(m)),
        Ok(false) => say(Level::Info, "Cancelled."@, Prog::Finish(Ok(()))),
        Ok(true) => {
            let temp = temp_dir(parent, name);
            fs(
                FsQueryView::Exists(backup),
                |b: FsReplyView| if b is Yes {
                    Prog::Finish(Err(backup_exists_message(backup)))
                } else {
                    fs(
                        FsQueryView::Exists(temp),
                        |t: FsReplyView| if t is Yes {
                            Prog::Do(
                                EffectView::RemoveDirAll(temp),
                                |o: OutcomeView| match done_of(o) {
                                    Err(m) => Prog::Finish(Err(m)),
                                    Ok(_) => clone_step(root, parent, eff, cb, backup, temp),
                                },
                            )
                        } else {
                            clone_step(root, parent, eff, cb, backup, temp)
                        },
                    )
                },
            )
        },
    }
}

pub open spec fn backup_dir(parent: Seq<char>, name: Seq<char>) -> Seq<char> {
    path_join(parent, name + ".setup-backup"@)
}

pub open spec fn repo_name(root: Seq<char>) -> Seq<char> {
    match path_file_name(root) {
        Some(n) => n,
        None => "repo"@,
    }
}

/// Show the plan; unless a dry run, ask and convert.
pub open spec fn plan_setup(root: Seq<char>, eff: Seq<char>, cb: Seq<char>, dry_run: bool, yes: bool) -> Prog {
    match path_parent(root) {
        None => Prog::Finish(Err("Cannot determine parent directory"@)),
        Some(parent) => {
            let name = repo_name(root);
            let backup = backup_dir(parent, name);
            let rest = say(
                Level::Info,
                "  Backup will be at: "@ + backup,
                say(
                    Level::Info,
                    "  Worktree for '"@ + cb + "' will be created"@,
                    if dry_run {
                        say(Level::Info, "\n  [DRY RUN] No changes made."@, Prog::Finish(Ok(())))
                    } else {
                        confirm(
                            "Convert this repository to bare? (original will be backed up)"@,
                            yes,
                            after_setup_confirm(root, parent, name, eff, cb, backup),
                        )
                    },
                ),
            );
            say(
                Level::Header,
                "Setup: Convert to bare repository"@,
                say(
                    Level::Info,
                    "  Repository: "@ + root,
                    say(
                        Level::Info,
                        "  Current branch: "@ + cb,
                        say(
                            Level::Info,
                            "  Bare repo will be at: "@ + root,
                            if eff != ".git"@ {
                                say(Level::Info, "  Bare repo dir: "@ + eff, rest)
                            } else {
                                rest
                            },
                        ),
                    ),
                ),
            )
        },
    }
}

/// After the repository root is known: it must have a `.git` directory and
/// no uncommitted changes; its current branch is asked for.
pub open spec fn checks_prog(root: Seq<char>, eff: Seq<char>, dry_run: bool, yes: bool) -> Prog {
    let gd = path_join(root, ".git"@);
    fs(
        FsQueryView::IsDir(gd),
        |a: FsReplyView| if !(a is Yes) {
            Prog::Finish(Err("Expected .git directory at "@ + gd))
        } else {
            here_or_fail(
                seq!["status"@, "--porcelain"@],
                |st: Seq<char>| if trim(st).len() > 0 {
                    Prog::Finish(Err(uncommitted_message()))
                } else {
                    here_or_fail(
                        seq!["rev-parse"@, "--abbrev-ref"@, "HEAD"@],
                        |h: Seq<char>| plan_setup(root, eff, trim(h), dry_run, yes),
                    )
                },
            )
        },
    )
}

/// The setup command.
pub open spec fn setup_prog(configured: Option<Seq<char>>, dry_run: bool, yes: bool, flag: Option<Seq<char>>) -> Prog {
    here_or_fail(
        seq!["rev-parse"@, "--is-bare-repository"@],
        |b: Seq<char>| if trim(b) == "true"@ {
            Prog::Finish(Err("Repository is already bare. Nothing to convert."@))
        } else {
            here_or_fail(
                seq!["rev-parse"@, "--show-toplevel"@],
                |top: Seq<char>| fs(
                    FsQueryView::Canonical(trim(top)),
                    |c: FsReplyView| {
                        let root = match c {
                            FsReplyView::Text(x) => x,
                            _ => trim(top),
                        };
                        checks_prog(root, effective_bare_dir(flag, configured), dry_run, yes)
                    },
                ),
            )
        },
    )
}

fn worktree_exec(rn: &mut Runner, root: &str, eff: &str, cb: &str, backup: &str) -> (e: Effect)
    requires
        old(rn).consistent(),
        old(rn).prog@ == worktree_step(root@, eff@, cb@, backup@),
    ensures
        effect_view(e) == next_effect(old(rn).whole@, old(rn).views()),
{
    let fgd = join(root, eff);
    let wt = join(root, cb);
    match rn.perform(Effect::Progress(join3("Creating worktree for '", cb, "'"))) {
        Err(e) => {
            return e;
        },
        Ok(_) => {},
    }
    let o = match rn.perform(Effect::Git(make_call(fgd.as_str(), args4("worktree", "add", wt.as_str(), cb), GitMode::Output))) {
        Err(e) => {
            return e;
        },
        Ok(o) => o,
    };
    let reply = reply_of(&rn.outcomes[o]);
    match &reply {
        GitReply::Success(_) => {},
        _ => {
            let m = reply_message(&reply);
            match rn.perform(say_exec(
                Level::Warning,
                "Worktree creation failed. Your bare repo is in place but you may need to create worktrees manually.".to_string(),
            )) {
                Err(e) => {
                    return e;
                },
                Ok(_) => {},
            }
            match rn.perform(say_exec(Level::Warning, join_str("  Error: ", m.as_str()))) {
                Err(e) => {
                    return e;
                },
                Ok(_) => {},
            }
            return match rn.perform(say_exec(Level::Info, join_str("  Backup at: ", backup))) {
                Err(e) => e,
                Ok(_) => rn.finish(Ok(())),
            };
        },
    }
    match rn.perform(Effect::ProgressDone(Status::Success, "Worktree created".to_string())) {
        Err(e) => {
            return e;
        },
        Ok(_) => {},
    }
    match rn.perform(say_exec(Level::Success, join4("Repository converted to bare. Worktree '", cb, "' ready at ", wt.as_str()))) {
        Err(e) => {
            return e;
        },
        Ok(_) => {},
    }
    let text = join5(
        "\n  Backup of original repo at: ",
        backup,
        "\n  You can delete it once you've verified everything works:\n  rm -rf \"",
        backup,
        "\"",
    );
    match rn.perform(say_exec(Level::Info, text)) {
        Err(e) => {
            return e;
        },
        Ok(_) => {},
    }
    rn.finish(Ok(()))
}

fn rollback_exec(rn: &mut Runner, root: &str, backup: &str, temp: &str, e: &str) -> (r: Effect)
    requires
        old(rn).consistent(),
        old(rn).prog@ == rollback_setup(root@, backup@, temp@, e@),
    ensures
        effect_view(r) == next_effect(old(rn).whole@, old(rn).views()),
{
    match rn.perform(say_exec(Level::Warning, "Setup failed, rolling back...".to_string())) {
        Err(x) => {
            return x;
        },
        Ok(_) => {},
    }
    match rn.perform(Effect::RemoveDirAll(root.to_string())) {
        Err(x) => {
            return x;
        },
        Ok(_) => {},
    }
    match rn.perform(Effect::Rename { from: backup.to_string(), to: root.to_string() }) {
        Err(x) => {
            return x;
        },
        Ok(_) => {},
    }
    match rn.perform(Effect::RemoveDirAll(temp.to_string())) {
        Err(x) => {
            return x;
        },
        Ok(_) => {},
    }
    rn.finish(Err(join3("Failed to set up bare repository: ", e, ". Original repo restored.")))
}

fn move_exec(rn: &mut Runner, root: &str, eff: &str, cb: &str, backup: &str, temp: &str) -> (e: Effect)
    requires
        old(rn).consistent(),
        old(rn).prog@ == move_step(root@, eff@, cb@, backup@, temp@),
    ensures
        effect_view(e) == next_effect(old(rn).whole@, old(rn).views()),
{
    let fgd = join(root, eff);
    match rn.perform(Effect::Progress("Setting up bare repository".to_string())) {
        Err(e) => {
            return e;
        },
        Ok(_) => {},
    }
    let o = match rn.perform(Effect::CreateDirAll(root.to_string())) {
        Err(e) => {
            return e;
        },
        Ok(o) => o,
    };
    match done_result_of(&rn.outcomes[o]) {
        Err(m) => {
            return rollback_exec(rn, root, backup, temp, m.as_str());
        },
        Ok(()) => {},
    }
    let o = match rn.perform(Effect::Rename { from: temp.to_string(), to: fgd.clone() }) {
        Err(e) => {
            return e;
        },
        Ok(o) => o,
    };
    match done_result_of(&rn.outcomes[o]) {
        Err(m) => {
            return rollback_exec(rn, root, backup, temp, m.as_str());
        },
        Ok(()) => {},
    }
    match rn.perform(Effect::Git(make_call(fgd.as_str(), args3("config", "wt.layout", "modern"), GitMode::Output))) {
        Err(e) => {
            return e;
        },
        Ok(_) => {},
    }
    match rn.perform(Effect::Git(make_call(fgd.as_str(), args3("config", "wt.baredir", eff), GitMode::Output))) {
        Err(e) => {
            return e;
        },
        Ok(_) => {},
    }
    match rn.perform(Effect::ProgressDone(Status::Success, "Bare repo in place".to_string())) {
        Err(e) => {
            return e;
        },
        Ok(_) => {},
    }
    worktree_exec(rn, root, eff, cb, backup)
}

fn backup_exec(rn: &mut Runner, root: &str, eff: &str, cb: &str, backup: &str, temp: &str) -> (e: Effect)
    requires
        old(rn).consistent(),
        old(rn).prog@ == backup_step(root@, eff@, cb@, backup@, temp@),
    ensures
        effect_view(e) == next_effect(old(rn).whole@, old(rn).views()),
{
    match rn.perform(Effect::Progress("Backing up original repository".to_string())) {
        Err(e) => {
            return e;
        },
        Ok(_) => {},
    }
    let o = match rn.perform(Effect::Rename { from: root.to_string(), to: backup.to_string() }) {
        Err(e) => {
            return e;
        },
        Ok(o) => o,
    };
    match done_result_of(&rn.outcomes[o]) {
        Err(m) => {
            return match rn.perform(Effect::RemoveDirAll(temp.to_string())) {
                Err(e) => e,
                Ok(_) => rn.finish(
                    Err(join3("Failed to rename repository to backup: ", m.as_str(), ". No changes were made to your repository.")),
                ),
            };
        },
        Ok(()) => {},
    }
    match rn.perform(Effect::ProgressDone(Status::Success, "Original backed up".to_string())) {
        Err(e) => {
            return e;
        },
        Ok(_) => {},
    }
    move_exec(rn, root, eff, cb, backup, temp)
}

fn clone_exec(rn: &mut Runner, root: &str, parent_dir: &str, eff: &str, cb: &str, backup: &str, temp: &str) -> (e: Effect)
    requires
        old(rn).consistent(),
        old(rn).prog@ == clone_step(root@, parent_dir@, eff@, cb@, backup@, temp@),
    ensures
        effect_view(e) == next_effect(old(rn).whole@, old(rn).views()),
{
    match rn.perform(Effect::Progress("Creating bare clone".to_string())) {
        Err(e) => {
            return e;
        },
        Ok(_) => {},
    }
    let o = match rn.perform(Effect::Git(make_call("", args4("clone", "--bare", root, temp), GitMode::Output))) {
        Err(e) => {
            return e;
        },
        Ok(o) => o,
    };
    let reply = reply_of(&rn.outcomes[o]);
    match &reply {
        GitReply::Success(_) => {},
        _ => {
            return rn.finish(Err(reply_message(&reply)));
        },
    }
    match rn.perform(Effect::ProgressDone(Status::Success, "Bare clone created".to_string())) {
        Err(e) => {
            return e;
        },
        Ok(_) => {},
    }
    let o = match rn.perform(Effect::Fs(FsQuery::CurrentDir)) {
        Err(e) => {
            return e;
        },
        Ok(o) => o,
    };
    match fs_answer_of(&rn.outcomes[o]) {
        FsReply::Text(d) => {
            if starts_with_path(d.as_str(), root) {
                match rn.perform(Effect::EnterDir(parent_dir.to_string())) {
                    Err(e) => {
                        return e;
                    },
                    Ok(_) => {},
                }
            }
        },
        _ => {},
    }
    backup_exec(rn, root, eff, cb, backup, temp)
}

/// After the plan is confirmed.
fn convert_exec(rn: &mut Runner, root: &str, parent_dir: &str, name: &str, eff: &str, cb: &str, backup: &str) -> (e: Effect)
    requires
        old(rn).consistent(),
        old(rn).prog@ == (after_setup_confirm(root@, parent_dir@, name@, eff@, cb@, backup@))(Ok(true)),
    ensures
        effect_view(e) == next_effect(old(rn).whole@, old(rn).views()),
{
    let temp = join(parent_dir, join3(".", name, "-bare-temp").as_str());
    let o = match rn.perform(Effect::Fs(FsQuery::Exists(backup.to_string()))) {
        Err(e) => {
            return e;
        },
        Ok(o) => o,
    };
    match fs_answer_of(&rn.outcomes[o]) {
        FsReply::Yes => {
            return rn.finish(
                Err(join3("Backup directory already exists: ", backup, "\nRemove it first if a previous setup attempt failed.")),
            );
        },
        _ => {},
    }
    let o = match rn.perform(Effect::Fs(FsQuery::Exists(temp.clone()))) {
        Err(e) => {
            return e;
        },
        Ok(o) => o,
    };
    match fs_answer_of(&rn.outcomes[o]) {
        FsReply::Yes => {
            let o = match rn.perform(Effect::RemoveDirAll(temp.clone())) {
                Err(e) => {
                    return e;
                },
                Ok(o) => o,
            };
            match done_result_of(&rn.outcomes[o]) {
                Err(m) => {
                    return rn.finish(Err(m));
                },
                Ok(()) => {},
            }
        },
        _ => {},
    }
    clone_exec(rn, root, parent_dir, eff, cb, backup, temp.as_str())
}

fn plan_exec(rn: &mut Runner, root: &str, eff: &str, cb: &str, dry_run: bool, yes: bool) -> (e: Effect)
    requires
        old(rn).consistent(),
        old(rn).prog@ == plan_setup(root@, eff@, cb@, dry_run, yes),
    ensures
        effect_view(e) == next_effect(old(rn).whole@, old(rn).views()),
{
    let parent_dir = match parent(root) {
        None => {
            return rn.finish(Err("Cannot determine parent directory".to_string()));
        },
        Some(p) => p,
    };
    let name = match file_name(root) {
        Some(n) => n,
        None => "repo".to_string(),
    };
    let backup = join(parent_dir.as_str(), join_str(name.as_str(), ".setup-backup").as_str());
    match rn.perform(say_exec(Level::Header, "Setup: Convert to bare repository".to_string())) {
        Err(e) => {
            return e;
        },
        Ok(_) => {},
    }
    match rn.perform(say_exec(Level::Info, join_str("  Repository: ", root))) {
        Err(e) => {
            return e;
        },
        Ok(_) => {},
    }
    match rn.perform(say_exec(Level::Info, join_str("  Current branch: ", cb))) {
        Err(e) => {
            return e;
        },
        Ok(_) => {},
    }
    match rn.perform(say_exec(Level::Info, join_str("  Bare repo will be at: ", root))) {
        Err(e) => {
            return e;
        },
        Ok(_) => {},
    }
    if !chars_eq(&chars_of(eff), &chars_of(".git")) {
        match rn.perform(say_exec(Level::Info, join_str("  Bare repo dir: ", eff))) {
            Err(e) => {
                return e;
            },
            Ok(_) => {},
        }
    }
    match rn.perform(say_exec(Level::Info, join_str("  Backup will be at: ", backup.as_str()))) {
        Err(e) => {
            return e;
        },
        Ok(_) => {},
    }
    match rn.perform(say_exec(Level::Info, join3("  Worktree for '", cb, "' will be created"))) {
        Err(e) => {
            return e;
        },
        Ok(_) => {},
    }
    if dry_run {
        return match rn.perform(say_exec(Level::Info, "\n  [DRY RUN] No changes made.".to_string())) {
            Err(e) => e,
            Ok(_) => rn.finish(Ok(())),
        };
    }
    let o = match rn.perform(Effect::Confirm {
        message: "Convert this repository to bare? (original will be backed up)".to_string(),
        assume_yes: yes,
    }) {
        Err(e) => {
            return e;
        },
        Ok(o) => o,
    };
    match answer_result_of(&rn.outcomes[o]) {
        Err(m) => rn.finish(Err(m)),
        Ok(false) => match rn.perform(say_exec(Level::Info, "Cancelled.".to_string())) {
            Err(e) => e,
            Ok(_) => rn.finish(Ok(())),
        },
        Ok(true) => convert_exec(rn, root, parent_dir.as_str(), name.as_str(), eff, cb, backup.as_str()),
    }
}

/// The setup command's next effect, given the outcomes of those it asked
/// for so far.
pub fn run(config: &Config, dry_run: bool, yes: bool, bare_dir: Option<&str>, outcomes: &Vec<Outcome>) -> (e: Effect)
    ensures
        effect_view(e) == next_effect(
            setup_prog(opt_view(config.bare_dir), dry_run, yes, crate::commands::steps::name_view(bare_dir)),
            outcome_views(outcomes@),
        ),
{
    let mut rn = Runner::new(
        outcomes,
        Ghost(setup_prog(opt_view(config.bare_dir), dry_run, yes, crate::commands::steps::name_view(bare_dir))),
    );
    let o = match rn.perform(Effect::Git(make_call("", args2("rev-parse", "--is-bare-repository"), GitMode::Output))) {
        Err(e) => {
            return e;
        },
        Ok(o) => o,
    };
    let reply = reply_of(&rn.outcomes[o]);
    let b = match trimmed_output(&reply) {
        None => {
            return rn.finish(Err(reply_message(&reply)));
        },
        Some(t) => t,
    };
    if chars_eq(&b, &chars_of("true")) {
        return rn.finish(Err("Repository is already bare. Nothing to convert.".to_string()));
    }
    let o = match rn.perform(Effect::Git(make_call("", args2("rev-parse", "--show-toplevel"), GitMode::Output))) {
        Err(e) => {
            return e;
        },
        Ok(o) => o,
    };
    let reply = reply_of(&rn.outcomes[o]);
    let top = match trimmed_output(&reply) {
        None => {
            return rn.finish(Err(reply_message(&reply)));
        },
        Some(t) => string_of(&t),
    };
    let o = match rn.perform(Effect::Fs(FsQuery::Canonical(top.clone()))) {
        Err(e) => {
            return e;
        },
        Ok(o) => o,
    };
    let root = match fs_answer_of(&rn.outcomes[o]) {
        FsReply::Text(x) => x,
        _ => top,
    };
    let eff: String = match bare_dir {
        Some(b) => b.to_string(),
        None => match &config.bare_dir {
            Some(b) => b.clone(),
            None => ".git".to_string(),
        },
    };
    let gd = join(root.as_str(), ".git");
    let o = match rn.perform(Effect::Fs(FsQuery::IsDir(gd.clone()))) {
        Err(e) => {
            return e;
        },
        Ok(o) => o,
    };
    match fs_answer_of(&rn.outcomes[o]) {
        FsReply::Yes => {},
        _ => {
            return rn.finish(Err(join_str("Expected .git directory at ", gd.as_str())));
        },
    }
    let o = match rn.perform(Effect::Git(make_call("", args2("status", "--porcelain"), GitMode::Output))) {
        Err(e) => {
            return e;
        },
        Ok(o) => o,
    };
    let reply = reply_of(&rn.outcomes[o]);
    match trimmed_output(&reply) {
        None => {
            return rn.finish(Err(reply_message(&reply)));
        },
        Some(t) => {
            if t.len() > 0 {
                return rn.finish(Err("Working directory has uncommitted changes. Commit or stash them before running setup.\nRun `git status` to see the changes.".to_string()));
            }
        },
    }
    let o = match rn.perform(Effect::Git(make_call("", args3("rev-parse", "--abbrev-ref", "HEAD"), GitMode::Output))) {
        Err(e) => {
            return e;
        },
        Ok(o) => o,
    };
    let reply = reply_of(&rn.outcomes[o]);
    let cb = match trimmed_output(&reply) {
        None => {
            return rn.finish(Err(reply_message(&reply)));
        },
        Some(t) => string_of(&t),
    };
    plan_exec(&mut rn, root.as_str(), eff.as_str(), cb.as_str(), dry_run, yes)
}

} // verus!
