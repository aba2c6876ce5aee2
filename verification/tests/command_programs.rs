use lazywt::commands::effects::{Effect, Level, Outcome};
use lazywt::commands::migrate::count_dirty_files;
use lazywt::commands::setup::{plan_gitignore, GitignorePlan};
use lazywt::commands::{add, clone, migrate, pr, prune, remove, remove_all, setup, sync};
use lazywt::git::GitStep;
use lazywt::config::Config;
use lazywt::git::operations::{FsQuery, FsReply};
use lazywt::git::{GitMode, GitReply};
use lazywt::layout::{LayoutType, ProjectContext};

fn ctx() -> ProjectContext {
    ProjectContext {
        project_dir: "/p/.git".to_string(),
        project_root: "/p".to_string(),
        layout_type: LayoutType::Modern,
        project_name: "p".to_string(),
        worktree_folder: String::new(),
        worktree_parent: "/p".to_string(),
    }
}

fn ok(s: &str) -> Outcome {
    Outcome::Git(GitReply::Success(s.to_string()))
}

fn failed(s: &str) -> Outcome {
    Outcome::Git(GitReply::Failure(s.to_string()))
}

fn said(e: &Effect) -> (Level, String) {
    match e {
        Effect::Say(l, t) => (*l, t.clone()),
        _ => panic!("expected a message"),
    }
}

fn git_args(e: &Effect) -> (String, Vec<String>, GitMode) {
    match e {
        Effect::Git(c) => (c.dir.clone(), c.args.clone(), c.mode),
        _ => panic!("expected a git command"),
    }
}

fn finished(e: &Effect) -> Result<(), String> {
    match e {
        Effect::Finish(r) => r.clone(),
        _ => panic!("expected the end"),
    }
}

// sync ---------------------------------------------------------------

#[test]
fn sync_starts_with_header_then_fetch() {
    let c = ctx();
    let e = sync::run(&c, false, &vec![]);
    assert_eq!(said(&e), (Level::Header, "Syncing worktrees".to_string()));
    let e = sync::run(&c, false, &vec![Outcome::Ack, Outcome::Ack]);
    let (dir, args, mode) = git_args(&e);
    assert_eq!(dir, "/p/.git");
    assert_eq!(args, vec!["fetch", "--all", "--prune"]);
    assert_eq!(mode, GitMode::Output);
}

#[test]
fn sync_fetch_failure_ends_with_git_message() {
    let e = sync::run(&ctx(), false, &vec![Outcome::Ack, Outcome::Ack, failed("no remote")]);
    assert_eq!(finished(&e), Err("no remote".to_string()));
}

#[test]
fn sync_asks_for_origin_head_after_fetch() {
    let os = vec![Outcome::Ack, Outcome::Ack, ok(""), Outcome::Ack];
    let e = sync::run(&ctx(), false, &os);
    let (_, args, _) = git_args(&e);
    assert_eq!(args, vec!["rev-parse", "--abbrev-ref", "origin/HEAD"]);
}

#[test]
fn sync_without_default_branch_fails() {
    let os = vec![
        Outcome::Ack,
        Outcome::Ack,
        ok(""),
        Outcome::Ack,
        failed("no origin"),
        failed(""),
        failed(""),
    ];
    let e = sync::run(&ctx(), false, &os);
    assert_eq!(finished(&e), Err("Could not detect default branch".to_string()));
}

#[test]
fn sync_fast_forwards_default_worktree_and_completes() {
    let list = "worktree /p/.git\nbare\n\nworktree /p/main\nHEAD abc\nbranch refs/heads/main\n\n";
    let mut os = vec![Outcome::Ack, Outcome::Ack, ok(""), Outcome::Ack, ok("origin/main\n"), ok(list)];
    let e = sync::run(&ctx(), false, &os);
    match e {
        Effect::Fs(FsQuery::Exists(p)) => assert_eq!(p, "/p/main"),
        _ => panic!("expected an existence question"),
    }
    os.push(Outcome::Fs(FsReply::Yes));
    let (dir, args, _) = git_args(&sync::run(&ctx(), false, &os));
    assert_eq!(dir, "/p/main");
    assert_eq!(args, vec!["merge", "--ff-only", "@{upstream}"]);
    os.push(ok(""));
    assert_eq!(said(&sync::run(&ctx(), false, &os)), (Level::Success, "Fast-forwarded main".to_string()));
    os.push(Outcome::Ack);
    let (_, args, _) = git_args(&sync::run(&ctx(), false, &os));
    assert_eq!(args, vec!["branch", "--format=%(refname:short) %(upstream:track)"]);
    os.push(ok("main\nold [gone]\n"));
    assert_eq!(said(&sync::run(&ctx(), false, &os)).0, Level::Blank);
    os.push(Outcome::Ack);
    assert_eq!(
        said(&sync::run(&ctx(), false, &os)),
        (Level::Warning, "Worktrees tracking deleted remote branches:".to_string())
    );
    os.push(Outcome::Ack);
    assert_eq!(said(&sync::run(&ctx(), false, &os)), (Level::Success, "Sync complete".to_string()));
    os.push(Outcome::Ack);
    assert_eq!(finished(&sync::run(&ctx(), false, &os)), Ok(()));
}

#[test]
fn gone_branches_takes_first_word_of_gone_lines() {
    let g = sync::gone_branches("main\nfeat [gone]\nother [ahead 1]\nfix [gone]\n");
    assert_eq!(g, vec!["feat".to_string(), "fix".to_string()]);
}

// pr -----------------------------------------------------------------

#[test]
fn pr_rejects_unparsable_target() {
    let e = pr::run(&ctx(), "abc", None, &vec![]);
    assert_eq!(
        finished(&e),
        Err("Could not parse PR number from 'abc'. Use a number or GitHub URL (https://github.com/owner/repo/pull/N).".to_string())
    );
}

#[test]
fn pr_refuses_existing_directory() {
    let e = pr::run(&ctx(), "42", None, &vec![]);
    match e {
        Effect::Fs(FsQuery::Exists(p)) => assert_eq!(p, "/p/pr-42"),
        _ => panic!("expected an existence question"),
    }
    let e = pr::run(&ctx(), "42", Some("review"), &vec![Outcome::Fs(FsReply::Yes)]);
    assert_eq!(finished(&e), Err("Worktree directory 'review' already exists".to_string()));
}

#[test]
fn pr_asks_gh_for_metadata() {
    let os = vec![Outcome::Fs(FsReply::No)];
    assert_eq!(said(&pr::run(&ctx(), "42", None, &os)), (Level::Header, "Checking out PR #42".to_string()));
    let os = vec![Outcome::Fs(FsReply::No), Outcome::Ack];
    match pr::run(&ctx(), "https://github.com/o/r/pull/42", None, &os) {
        Effect::Gh(args) => {
            assert_eq!(args[0], "pr");
            assert_eq!(args[2], "42");
            assert_eq!(args.len(), 7);
        },
        _ => panic!("expected gh"),
    }
}

#[test]
fn pr_without_gh_falls_back_to_pull_ref() {
    let mut os = vec![Outcome::Fs(FsReply::No), Outcome::Ack, Outcome::Git(GitReply::NotRun("no gh".to_string()))];
    assert_eq!(
        said(&pr::run(&ctx(), "7", None, &os)),
        (Level::Info, "  gh CLI not available, using git fetch fallback".to_string())
    );
    os.push(Outcome::Ack);
    assert_eq!(said(&pr::run(&ctx(), "7", None, &os)), (Level::Info, "  Fetching refs/pull/7/head".to_string()));
    os.push(Outcome::Ack);
    let (dir, args, _) = git_args(&pr::run(&ctx(), "7", None, &os));
    assert_eq!(dir, "/p/.git");
    assert_eq!(args, vec!["fetch", "origin", "pull/7/head:pr-7"]);
    os.push(ok(""));
    let (_, args, _) = git_args(&pr::run(&ctx(), "7", None, &os));
    assert_eq!(args, vec!["worktree", "add", "/p/pr-7", "pr-7"]);
    os.push(ok(""));
    let (dir, args, _) = git_args(&pr::run(&ctx(), "7", None, &os));
    assert_eq!(dir, "/p/pr-7");
    assert_eq!(args, vec!["config", "branch.pr-7.remote", "origin"]);
    os.push(ok(""));
    let (_, args, _) = git_args(&pr::run(&ctx(), "7", None, &os));
    assert_eq!(args, vec!["config", "branch.pr-7.merge", "refs/pull/7/head"]);
    os.push(ok(""));
    assert_eq!(said(&pr::run(&ctx(), "7", None, &os)), (Level::Success, "PR #7 checked out to 'pr-7'".to_string()));
    os.push(Outcome::Ack);
    match pr::run(&ctx(), "7", None, &os) {
        Effect::Navigate(p) => assert_eq!(p, "/p/pr-7"),
        _ => panic!("expected navigation"),
    }
    os.push(Outcome::Ack);
    assert_eq!(finished(&pr::run(&ctx(), "7", None, &os)), Ok(()));
}

#[test]
fn pr_fallback_fetch_failure_ends_command() {
    let os = vec![
        Outcome::Fs(FsReply::No),
        Outcome::Ack,
        failed("gh: not logged in"),
        Outcome::Ack,
        Outcome::Ack,
        failed("couldn't find remote ref"),
    ];
    assert_eq!(finished(&pr::run(&ctx(), "7", None, &os)), Err("couldn't find remote ref".to_string()));
}

#[test]
fn pr_from_fork_fetches_fork_url() {
    let mut os = vec![
        Outcome::Fs(FsReply::No),
        Outcome::Ack,
        ok("feature\nalice\n"),
        ok("bob\n"),
        ok("tool\n"),
    ];
    assert_eq!(said(&pr::run(&ctx(), "9", None, &os)), (Level::Info, "  Branch: feature (from gh CLI)".to_string()));
    os.push(Outcome::Ack);
    assert_eq!(
        said(&pr::run(&ctx(), "9", None, &os)),
        (Level::Info, "  Fork remote: https://github.com/alice/tool.git".to_string())
    );
    os.push(Outcome::Ack);
    let (_, args, _) = git_args(&pr::run(&ctx(), "9", None, &os));
    assert_eq!(args, vec!["fetch", "https://github.com/alice/tool.git", "feature"]);
    os.push(failed("network down"));
    assert_eq!(said(&pr::run(&ctx(), "9", None, &os)), (Level::Warning, "  Fetch warning: network down".to_string()));
    os.push(Outcome::Ack);
    let (_, args, mode) = git_args(&pr::run(&ctx(), "9", None, &os));
    assert_eq!(args, vec!["show-ref", "--verify", "--quiet", "refs/heads/feature"]);
    assert_eq!(mode, GitMode::Check);
    os.push(failed(""));
    os.push(failed(""));
    let (_, args, _) = git_args(&pr::run(&ctx(), "9", None, &os));
    assert_eq!(args, vec!["worktree", "add", "-b", "feature", "/p/pr-9", "FETCH_HEAD"]);
}

#[test]
fn pr_same_repo_owner_uses_origin() {
    let mut os = vec![Outcome::Fs(FsReply::No), Outcome::Ack, ok("feature\nbob\n"), ok("bob\n")];
    assert_eq!(said(&pr::run(&ctx(), "9", None, &os)), (Level::Info, "  Branch: feature (from gh CLI)".to_string()));
    os.push(Outcome::Ack);
    let (_, args, _) = git_args(&pr::run(&ctx(), "9", None, &os));
    assert_eq!(args, vec!["fetch", "origin", "feature"]);
}

// add ----------------------------------------------------------------

#[test]
fn add_rejects_invalid_name() {
    let e = add::run(&ctx(), &Config::default(), ".git", None, None, &vec![]);
    assert_eq!(finished(&e), Err("invalid worktree name: '.git' is a reserved name".to_string()));
}

#[test]
fn add_first_looks_for_default_branch() {
    let e = add::run(&ctx(), &Config::default(), "auth", None, None, &vec![]);
    let (dir, args, _) = git_args(&e);
    assert_eq!(dir, "/p/.git");
    assert_eq!(args, vec!["rev-parse", "--abbrev-ref", "origin/HEAD"]);
}

#[test]
fn add_with_from_lists_worktrees_and_needs_source() {
    let e = add::run(&ctx(), &Config::default(), "auth", None, Some("api"), &vec![]);
    let (_, args, _) = git_args(&e);
    assert_eq!(args, vec!["worktree", "list", "--porcelain"]);
    let list = "worktree /p/.git\nbare\n\nworktree /p/main\nHEAD abc\nbranch refs/heads/main\n\n";
    let e = add::run(&ctx(), &Config::default(), "auth", None, Some("api"), &vec![ok(list)]);
    assert_eq!(finished(&e), Err("source worktree 'api' not found".to_string()));
}

#[test]
fn add_creates_branch_with_prefix_after_main_exists() {
    let config = Config { branch_prefix: "feat".to_string(), ..Config::default() };
    let list = "worktree /p/.git\nbare\n\nworktree /p/main\nHEAD abc\nbranch refs/heads/main\n\n";
    let mut os = vec![ok("origin/main\n"), ok(list)];
    let (dir, args, _) = git_args(&add::run(&ctx(), &config, "auth", None, None, &os));
    assert_eq!(dir, "/p/main");
    assert_eq!(args, vec!["pull"]);
    os.push(ok(""));
    let (_, args, _) = git_args(&add::run(&ctx(), &config, "auth", None, None, &os));
    assert_eq!(args, vec!["fetch", "--all"]);
    os.push(ok(""));
    match add::run(&ctx(), &config, "auth", None, None, &os) {
        Effect::Fs(FsQuery::Exists(p)) => assert_eq!(p, "/p/auth"),
        _ => panic!("expected an existence question"),
    }
    os.push(Outcome::Fs(FsReply::No));
    assert_eq!(said(&add::run(&ctx(), &config, "auth", None, None, &os)), (Level::Header, "Adding worktree 'auth'".to_string()));
    os.push(Outcome::Ack);
    assert_eq!(said(&add::run(&ctx(), &config, "auth", None, None, &os)), (Level::Info, "  Branch: feat/auth".to_string()));
    os.push(Outcome::Ack);
    match add::run(&ctx(), &config, "auth", None, None, &os) {
        Effect::CreateDirAll(p) => assert_eq!(p, "/p"),
        _ => panic!("expected a directory"),
    }
    os.push(Outcome::Done(Ok(())));
    os.push(failed(""));
    os.push(failed(""));
    let (_, args, _) = git_args(&add::run(&ctx(), &config, "auth", None, None, &os));
    assert_eq!(args, vec!["worktree", "add", "-b", "feat/auth", "/p/auth"]);
}

#[test]
fn add_existing_worktree_path_is_an_error() {
    let list = "worktree /p/main\nHEAD abc\nbranch refs/heads/main\n\n";
    let os = vec![ok("origin/main\n"), ok(list), ok(""), ok(""), Outcome::Fs(FsReply::Yes)];
    let e = add::run(&ctx(), &Config::default(), "auth", None, None, &os);
    assert_eq!(finished(&e), Err("worktree 'auth' already exists".to_string()));
}

// remove -------------------------------------------------------------

const TWO: &str = "worktree /p/.git\nbare\n\nworktree /p/main\nHEAD a\nbranch refs/heads/main\n\nworktree /p/auth\nHEAD b\nbranch refs/heads/feat/auth\n\n";

#[test]
fn remove_unknown_worktree_is_an_error() {
    let e = remove::run(&ctx(), &Config::default(), "nope", false, &vec![ok(TWO)]);
    assert_eq!(finished(&e), Err("worktree 'nope' not found".to_string()));
}

#[test]
fn remove_refuses_default_branch_worktree() {
    let e = remove::run(&ctx(), &Config::default(), "main", false, &vec![ok(TWO), ok("origin/main\n")]);
    assert_eq!(finished(&e), Err("cannot remove default branch worktree 'main'".to_string()));
}

#[test]
fn remove_asks_then_removes_and_deletes_branch() {
    let c = ctx();
    let cfg = Config::default();
    let mut os = vec![ok(TWO), ok("origin/main\n")];
    assert_eq!(said(&remove::run(&c, &cfg, "auth", false, &os)), (Level::Header, "Remove worktree 'auth'".to_string()));
    os.push(Outcome::Ack);
    assert_eq!(said(&remove::run(&c, &cfg, "auth", false, &os)), (Level::Info, "  Path: /p/auth".to_string()));
    os.push(Outcome::Ack);
    assert_eq!(said(&remove::run(&c, &cfg, "auth", false, &os)), (Level::Info, "  Branch: feat/auth".to_string()));
    os.push(Outcome::Ack);
    match remove::run(&c, &cfg, "auth", false, &os) {
        Effect::Confirm { message, assume_yes } => {
            assert_eq!(message, "Remove worktree 'auth'?");
            assert!(!assume_yes);
        },
        _ => panic!("expected a question"),
    }
    let mut declined = os.clone_outcomes();
    declined.push(Outcome::Answer(Ok(false)));
    assert_eq!(said(&remove::run(&c, &cfg, "auth", false, &declined)), (Level::Info, "Cancelled.".to_string()));
    os.push(Outcome::Answer(Ok(true)));
    match remove::run(&c, &cfg, "auth", false, &os) {
        Effect::EnterDir(d) => assert_eq!(d, "/p/.git"),
        _ => panic!("expected a change of directory"),
    }
    os.push(Outcome::Ack);
    os.push(Outcome::Ack);
    let (_, args, _) = git_args(&remove::run(&c, &cfg, "auth", false, &os));
    assert_eq!(args, vec!["worktree", "remove", "/p/auth", "--force"]);
    os.push(ok(""));
    os.push(Outcome::Ack);
    let (_, args, _) = git_args(&remove::run(&c, &cfg, "auth", false, &os));
    assert_eq!(args, vec!["branch", "-D", "feat/auth"]);
    os.push(failed("no such branch"));
    assert_eq!(
        said(&remove::run(&c, &cfg, "auth", false, &os)),
        (Level::Warning, "Could not delete branch 'feat/auth' (it may have already been deleted)".to_string())
    );
    os.push(Outcome::Ack);
    assert_eq!(said(&remove::run(&c, &cfg, "auth", false, &os)), (Level::Success, "Worktree 'auth' removed".to_string()));
}

#[test]
fn remove_failure_reports_details() {
    let os = vec![
        ok(TWO),
        ok("origin/main\n"),
        Outcome::Ack,
        Outcome::Ack,
        Outcome::Ack,
        Outcome::Answer(Ok(true)),
        Outcome::Ack,
        Outcome::Ack,
        failed("locked"),
        Outcome::Ack,
    ];
    assert_eq!(
        finished(&remove::run(&ctx(), &Config::default(), "auth", true, &os)),
        Err("Failed to remove worktree. Ensure no programs have files open in the worktree directory.\nDetails: locked".to_string())
    );
}

trait CloneOutcomes {
    fn clone_outcomes(&self) -> Vec<Outcome>;
}

impl CloneOutcomes for Vec<Outcome> {
    fn clone_outcomes(&self) -> Vec<Outcome> {
        self.iter()
            .map(|o| match o {
                Outcome::Git(GitReply::Success(s)) => Outcome::Git(GitReply::Success(s.clone())),
                Outcome::Git(GitReply::Failure(s)) => Outcome::Git(GitReply::Failure(s.clone())),
                Outcome::Git(GitReply::NotRun(s)) => Outcome::Git(GitReply::NotRun(s.clone())),
                Outcome::Answer(a) => Outcome::Answer(a.clone()),
                Outcome::Done(d) => Outcome::Done(d.clone()),
                Outcome::Lines(v) => Outcome::Lines(v.clone()),
                Outcome::Fs(FsReply::Yes) => Outcome::Fs(FsReply::Yes),
                Outcome::Fs(FsReply::No) => Outcome::Fs(FsReply::No),
                Outcome::Fs(FsReply::Failed(m)) => Outcome::Fs(FsReply::Failed(m.clone())),
                Outcome::Fs(FsReply::Text(t)) => Outcome::Fs(FsReply::Text(t.clone())),
                Outcome::Ack => Outcome::Ack,
            })
            .collect()
    }
}

// remove-all ---------------------------------------------------------

#[test]
fn remove_all_with_nothing_to_remove() {
    let only_main = "worktree /p/.git\nbare\n\nworktree /p/main\nHEAD a\nbranch refs/heads/main\n\n";
    let e = remove_all::run(&ctx(), false, &vec![ok(only_main), ok("origin/main\n")]);
    assert_eq!(said(&e), (Level::Info, "No worktrees to remove.".to_string()));
}

#[test]
fn remove_all_counts_removed_and_failed() {
    let three = format!("{}worktree /p/api\nHEAD c\nbranch refs/heads/api\n\n", TWO);
    let c = ctx();
    let mut os = vec![ok(&three), ok("origin/main\n")];
    assert_eq!(said(&remove_all::run(&c, true, &os)), (Level::Header, "Remove All Worktrees".to_string()));
    os.push(Outcome::Ack);
    assert_eq!(said(&remove_all::run(&c, true, &os)), (Level::Info, "  \u{2717} auth".to_string()));
    os.push(Outcome::Ack);
    assert_eq!(said(&remove_all::run(&c, true, &os)), (Level::Info, "  \u{2717} api".to_string()));
    os.push(Outcome::Ack);
    os.push(Outcome::Answer(Ok(true)));
    os.push(Outcome::Ack);
    let (_, args, _) = git_args(&remove_all::run(&c, true, &os));
    assert_eq!(args, vec!["worktree", "remove", "/p/auth", "--force"]);
    os.push(ok(""));
    let (_, args, _) = git_args(&remove_all::run(&c, true, &os));
    assert_eq!(args, vec!["branch", "-D", "feat/auth"]);
    os.push(ok(""));
    assert_eq!(said(&remove_all::run(&c, true, &os)), (Level::Success, "Removed 'auth'".to_string()));
    os.push(Outcome::Ack);
    os.push(failed("busy"));
    assert_eq!(said(&remove_all::run(&c, true, &os)), (Level::Warning, "Failed to remove 'api': busy".to_string()));
    os.push(Outcome::Ack);
    assert_eq!(said(&remove_all::run(&c, true, &os)), (Level::Warning, "1 removed, 1 failed".to_string()));
    os.push(Outcome::Ack);
    assert_eq!(finished(&remove_all::run(&c, true, &os)), Ok(()));
}

// prune --------------------------------------------------------------

#[test]
fn prune_nothing_to_do() {
    let os = vec![ok("origin/main\n"), ok(TWO), ok("main\n"), Outcome::Fs(FsReply::Yes)];
    let e = prune::run(&ctx(), false, false, &os);
    assert_eq!(said(&e), (Level::Info, "Nothing to prune -- all worktrees are clean.".to_string()));
}

#[test]
fn prune_merged_branch_is_removed_after_asking() {
    let c = ctx();
    let mut os = vec![ok("origin/main\n"), ok(TWO), ok("main\nfeat/auth\n")];
    match prune::run(&c, false, false, &os) {
        Effect::Fs(FsQuery::Exists(p)) => assert_eq!(p, "/p/auth"),
        _ => panic!("expected an existence question"),
    }
    os.push(Outcome::Fs(FsReply::Yes));
    let (_, args, _) = git_args(&prune::run(&c, false, false, &os));
    assert_eq!(args, vec!["rev-parse", "main"]);
    os.push(ok("aaa\n"));
    let (_, args, _) = git_args(&prune::run(&c, false, false, &os));
    assert_eq!(args, vec!["rev-parse", "feat/auth"]);
    os.push(ok("bbb\n"));
    let (dir, args, _) = git_args(&prune::run(&c, false, false, &os));
    assert_eq!(dir, "/p/auth");
    assert_eq!(args, vec!["status", "--porcelain"]);
    os.push(ok(""));
    assert_eq!(said(&prune::run(&c, false, false, &os)), (Level::Header, "Prune worktrees".to_string()));
    os.push(Outcome::Ack);
    assert_eq!(said(&prune::run(&c, false, false, &os)), (Level::Info, "  auth (merged)".to_string()));
    os.push(Outcome::Ack);
    os.push(Outcome::Ack);
    match prune::run(&c, false, false, &os) {
        Effect::Confirm { message, .. } => assert_eq!(message, "Remove 1 worktree(s)?"),
        _ => panic!("expected a question"),
    }
    os.push(Outcome::Answer(Ok(true)));
    os.push(Outcome::Ack);
    let (_, args, _) = git_args(&prune::run(&c, false, false, &os));
    assert_eq!(args, vec!["worktree", "remove", "/p/auth"]);
    os.push(ok(""));
    let (_, args, _) = git_args(&prune::run(&c, false, false, &os));
    assert_eq!(args, vec!["branch", "-d", "feat/auth"]);
    os.push(ok(""));
    assert_eq!(said(&prune::run(&c, false, false, &os)), (Level::Success, "Removed auth (merged)".to_string()));
    os.push(Outcome::Ack);
    assert_eq!(said(&prune::run(&c, false, false, &os)), (Level::Success, "Pruned 1/1 worktrees".to_string()));
}

#[test]
fn prune_dirty_merged_is_skipped_without_force() {
    let os = vec![
        ok("origin/main\n"),
        ok(TWO),
        ok("feat/auth\n"),
        Outcome::Fs(FsReply::Yes),
        ok("aaa\n"),
        ok("bbb\n"),
        ok(" M file.rs\n"),
    ];
    assert_eq!(
        said(&prune::run(&ctx(), false, false, &os)),
        (Level::Warning, "Skipped dirty worktrees (use --force to include):".to_string())
    );
}

#[test]
fn prune_fresh_branch_at_default_commit_is_kept() {
    let os = vec![
        ok("origin/main\n"),
        ok(TWO),
        ok("feat/auth\n"),
        Outcome::Fs(FsReply::Yes),
        ok("aaa\n"),
        ok("aaa\n"),
    ];
    assert_eq!(
        said(&prune::run(&ctx(), false, false, &os)),
        (Level::Info, "Nothing to prune -- all worktrees are clean.".to_string())
    );
}

// migrate ------------------------------------------------------------

fn classic() -> ProjectContext {
    ProjectContext {
        project_dir: "/c/.bare".to_string(),
        project_root: "/c/.bare".to_string(),
        layout_type: LayoutType::Classic,
        project_name: "c".to_string(),
        worktree_folder: "trees".to_string(),
        worktree_parent: "/c/.bare/trees".to_string(),
    }
}

const CLASSIC_LIST: &str = "worktree /c/.bare\nbare\n\nworktree /c/.bare/trees/main\nHEAD a\nbranch refs/heads/main\n\nworktree /ext/x\nHEAD b\nbranch refs/heads/x\n\n";

#[test]
fn migrate_refuses_modern_layout() {
    let e = migrate::run(&ctx(), &Config::default(), false, false, None, &vec![]);
    assert_eq!(finished(&e), Err("already using modern layout".to_string()));
}

#[test]
fn migrate_refuses_existing_target() {
    let e = migrate::run(&classic(), &Config::default(), false, false, None, &vec![]);
    match e {
        Effect::Fs(FsQuery::Exists(p)) => assert_eq!(p, "/c/.git"),
        _ => panic!("expected an existence question"),
    }
    let e = migrate::run(&classic(), &Config::default(), false, false, Some(".repo"), &vec![Outcome::Fs(FsReply::Yes)]);
    assert_eq!(finished(&e), Err("migration target '.repo' already exists".to_string()));
}

#[test]
fn migrate_dry_run_shows_plan_and_dirty_worktrees() {
    let c = classic();
    let cfg = Config::default();
    let mut os = vec![Outcome::Fs(FsReply::No), ok(CLASSIC_LIST)];
    match migrate::run(&c, &cfg, true, false, None, &os) {
        Effect::Fs(FsQuery::Exists(p)) => assert_eq!(p, "/c/main"),
        _ => panic!("expected an existence question"),
    }
    os.push(Outcome::Fs(FsReply::No));
    let (dir, args, _) = git_args(&migrate::run(&c, &cfg, true, false, None, &os));
    assert_eq!(dir, "/c/.bare/trees/main");
    assert_eq!(args, vec!["status", "--porcelain"]);
    os.push(ok(""));
    os.push(ok(" M a\n?? b\n"));
    assert_eq!(
        said(&migrate::run(&c, &cfg, true, false, None, &os)),
        (Level::Warning, "Warning: some worktrees have uncommitted changes:".to_string())
    );
    os.push(Outcome::Ack);
    assert_eq!(
        said(&migrate::run(&c, &cfg, true, false, None, &os)),
        (Level::Warning, "  x has 2 uncommitted change(s)".to_string())
    );
    os.push(Outcome::Ack);
    assert_eq!(said(&migrate::run(&c, &cfg, true, false, None, &os)), (Level::Header, "Migration plan".to_string()));
    os.push(Outcome::Ack);
    assert_eq!(
        said(&migrate::run(&c, &cfg, true, false, None, &os)),
        (Level::Info, "  Bare repo: /c/.bare -> /c/.git".to_string())
    );
    os.push(Outcome::Ack);
    assert_eq!(
        said(&migrate::run(&c, &cfg, true, false, None, &os)),
        (Level::Info, "  Worktree: /c/.bare/trees/main -> /c/main".to_string())
    );
    os.push(Outcome::Ack);
    assert_eq!(
        said(&migrate::run(&c, &cfg, true, false, None, &os)),
        (Level::Info, "  External (not moved): /ext/x".to_string())
    );
    os.push(Outcome::Ack);
    assert_eq!(said(&migrate::run(&c, &cfg, true, false, None, &os)), (Level::Info, "Dry run -- no changes made.".to_string()));
}

#[test]
fn migrate_failed_bare_move_rolls_back() {
    let c = classic();
    let cfg = Config::default();
    let mut os = vec![
        Outcome::Fs(FsReply::No),
        ok(CLASSIC_LIST),
        Outcome::Fs(FsReply::No),
        ok(""),
        ok(""),
        Outcome::Ack,
        Outcome::Ack,
        Outcome::Ack,
        Outcome::Ack,
        Outcome::Answer(Ok(true)),
        Outcome::Fs(FsReply::Failed(String::new())),
        Outcome::Ack,
    ];
    match migrate::run(&c, &cfg, false, true, None, &os) {
        Effect::Rename { from, to } => {
            assert_eq!(from, "/c/.bare/trees/main");
            assert_eq!(to, "/c/main");
        },
        _ => panic!("expected a move"),
    }
    os.push(Outcome::Done(Ok(())));
    os.push(Outcome::Ack);
    os.push(Outcome::Ack);
    match migrate::run(&c, &cfg, false, true, None, &os) {
        Effect::Rename { from, to } => {
            assert_eq!(from, "/c/.bare");
            assert_eq!(to, "/c/.git");
        },
        _ => panic!("expected a move"),
    }
    os.push(Outcome::Done(Err("denied".to_string())));
    os.push(Outcome::Ack);
    match migrate::run(&c, &cfg, false, true, None, &os) {
        Effect::Rename { from, to } => {
            assert_eq!(from, "/c/main");
            assert_eq!(to, "/c/.bare/trees/main");
        },
        _ => panic!("expected the move back"),
    }
    os.push(Outcome::Done(Err("busy".to_string())));
    assert_eq!(
        finished(&migrate::run(&c, &cfg, false, true, None, &os)),
        Err("migration failed: Failed to move /c/.bare -> /c/.git: denied\nRollback also failed:\n  Failed to rollback /c/main -> /c/.bare/trees/main: busy\n".to_string())
    );
}

#[test]
fn count_dirty_files_counts_lines() {
    match count_dirty_files("/w", &vec![GitReply::Success(" M a\n?? b\nA  c\n".to_string())]) {
        GitStep::Done(n) => assert_eq!(n, 3),
        _ => panic!("expected a count"),
    }
    match count_dirty_files("/w", &vec![GitReply::Failure("x".to_string())]) {
        GitStep::Done(n) => assert_eq!(n, 0),
        _ => panic!("expected a count"),
    }
}

// setup --------------------------------------------------------------

#[test]
fn setup_refuses_bare_repository() {
    let e = setup::run(&Config::default(), false, false, None, &vec![]);
    let (dir, args, _) = git_args(&e);
    assert_eq!(dir, "");
    assert_eq!(args, vec!["rev-parse", "--is-bare-repository"]);
    let e = setup::run(&Config::default(), false, false, None, &vec![ok("true\n")]);
    assert_eq!(finished(&e), Err("Repository is already bare. Nothing to convert.".to_string()));
}

#[test]
fn setup_refuses_uncommitted_changes() {
    let os = vec![ok("false\n"), ok("/r/repo\n"), Outcome::Fs(FsReply::Text("/r/repo".to_string())), Outcome::Fs(FsReply::Yes), ok(" M x\n")];
    assert_eq!(
        finished(&setup::run(&Config::default(), false, false, None, &os)),
        Err("Working directory has uncommitted changes. Commit or stash them before running setup.\nRun `git status` to see the changes.".to_string())
    );
}

#[test]
fn setup_dry_run_shows_plan() {
    let cfg = Config::default();
    let mut os = vec![ok("false\n"), ok("/r/repo\n"), Outcome::Fs(FsReply::Failed(String::new())), Outcome::Fs(FsReply::Yes), ok(""), ok("main\n")];
    assert_eq!(
        said(&setup::run(&cfg, true, false, None, &os)),
        (Level::Header, "Setup: Convert to bare repository".to_string())
    );
    for _ in 0..4 {
        os.push(Outcome::Ack);
    }
    assert_eq!(
        said(&setup::run(&cfg, true, false, None, &os)),
        (Level::Info, "  Backup will be at: /r/repo.setup-backup".to_string())
    );
    os.push(Outcome::Ack);
    os.push(Outcome::Ack);
    assert_eq!(
        said(&setup::run(&cfg, true, false, None, &os)),
        (Level::Info, "\n  [DRY RUN] No changes made.".to_string())
    );
}

#[test]
fn gitignore_plan_cases() {
    match plan_gitignore(None) {
        GitignorePlan::Create(t) => assert_eq!(t, "# lazywt worktrees\n.wts\n"),
        _ => panic!("expected a new file"),
    }
    match plan_gitignore(Some("node_modules\n")) {
        GitignorePlan::Append(t) => assert_eq!(t, "\n# lazywt worktrees\n.wts\n"),
        _ => panic!("expected an addition"),
    }
    assert!(matches!(plan_gitignore(Some("target\n  .wts  \n")), GitignorePlan::Keep));
}

// clone --------------------------------------------------------------

fn cwd(d: &str) -> Outcome {
    Outcome::Fs(FsReply::Text(d.to_string()))
}

#[test]
fn clone_refuses_existing_directory() {
    let cfg = Config::default();
    let e = clone::run("https://h/u/repo.git", None, None, &cfg, &vec![]);
    assert!(matches!(e, Effect::Fs(FsQuery::CurrentDir)));
    let e = clone::run("https://h/u/repo.git", None, None, &cfg, &vec![cwd("/work")]);
    match e {
        Effect::Fs(FsQuery::Exists(p)) => assert_eq!(p, "/work/repo"),
        _ => panic!("expected an existence check"),
    }
    let e = clone::run("https://h/u/repo.git", None, None, &cfg, &vec![cwd("/work"), Outcome::Fs(FsReply::Yes)]);
    assert_eq!(finished(&e), Err("directory '/work/repo' already exists".to_string()));
}

#[test]
fn clone_reports_unreadable_current_directory() {
    let cfg = Config::default();
    let os = vec![Outcome::Fs(FsReply::Failed("No such file or directory (os error 2)".to_string()))];
    assert_eq!(
        finished(&clone::run("https://h/u/repo.git", None, None, &cfg, &os)),
        Err("No such file or directory (os error 2)".to_string())
    );
}

#[test]
fn clone_announces_and_clones_bare() {
    let cfg = Config::default();
    let mut os = vec![cwd("/work"), Outcome::Fs(FsReply::No)];
    let e = clone::run("git@h:u/repo.git", Some("mine"), Some(".bare"), &cfg, &os);
    assert_eq!(said(&e), (Level::Header, "Cloning git@h:u/repo.git".to_string()));
    os.push(Outcome::Ack);
    let e = clone::run("git@h:u/repo.git", Some("mine"), Some(".bare"), &cfg, &os);
    assert_eq!(said(&e), (Level::Info, "  Destination: /work/mine".to_string()));
    os.push(Outcome::Ack);
    let e = clone::run("git@h:u/repo.git", Some("mine"), Some(".bare"), &cfg, &os);
    assert_eq!(said(&e), (Level::Info, "  Bare repo: .bare".to_string()));
    os.push(Outcome::Ack);
    let e = clone::run("git@h:u/repo.git", Some("mine"), Some(".bare"), &cfg, &os);
    match e {
        Effect::CreateDirAll(p) => assert_eq!(p, "/work/mine"),
        _ => panic!("expected the directory to be created"),
    }
    os.push(Outcome::Done(Ok(())));
    os.push(Outcome::Ack);
    let e = clone::run("git@h:u/repo.git", Some("mine"), Some(".bare"), &cfg, &os);
    let (dir, args, _) = git_args(&e);
    assert_eq!(dir, "");
    assert_eq!(args, vec!["clone", "--bare", "git@h:u/repo.git", "/work/mine/.bare"]);
}

#[test]
fn clone_failure_removes_the_directory() {
    let cfg = Config::default();
    let os = vec![
        cwd("/work"),
        Outcome::Fs(FsReply::No),
        Outcome::Ack,
        Outcome::Ack,
        Outcome::Done(Ok(())),
        Outcome::Ack,
        failed("fatal: repository not found"),
    ];
    let e = clone::run("https://h/u/repo", None, None, &cfg, &os);
    match e {
        Effect::RemoveDirAll(p) => assert_eq!(p, "/work/repo"),
        _ => panic!("expected the clone to be removed"),
    }
    let mut os = os;
    os.push(Outcome::Done(Ok(())));
    let e = clone::run("https://h/u/repo", None, None, &cfg, &os);
    assert_eq!(finished(&e), Err("fatal: repository not found".to_string()));
}

#[test]
fn clone_configures_then_creates_main_worktree() {
    let cfg = Config::default();
    let mut os = vec![
        cwd("/work"),
        Outcome::Fs(FsReply::No),
        Outcome::Ack,
        Outcome::Ack,
        Outcome::Done(Ok(())),
        Outcome::Ack,
        ok(""),
        Outcome::Ack,
    ];
    let expected = [
        vec!["config", "core.bare", "true"],
        vec!["config", "wt.layout", "modern"],
        vec!["config", "wt.baredir", ".git"],
        vec!["config", "remote.origin.fetch", "+refs/heads/*:refs/remotes/origin/*"],
    ];
    for want in expected.iter() {
        let e = clone::run("https://h/u/repo", None, None, &cfg, &os);
        let (dir, args, _) = git_args(&e);
        assert_eq!(dir, "/work/repo/.git");
        assert_eq!(&args, want);
        os.push(ok(""));
    }
    os.push(Outcome::Ack);
    let e = clone::run("https://h/u/repo", None, None, &cfg, &os);
    let (_, args, _) = git_args(&e);
    assert_eq!(args, vec!["fetch", "--all"]);
    os.push(failed("offline"));
    let e = clone::run("https://h/u/repo", None, None, &cfg, &os);
    match e {
        Effect::ProgressDone(_, t) => assert_eq!(t, "Fetch failed (continuing anyway)"),
        _ => panic!("expected the fetch to be reported"),
    }
    os.push(Outcome::Ack);
    let e = clone::run("https://h/u/repo", None, None, &cfg, &os);
    let (_, args, _) = git_args(&e);
    assert_eq!(args, vec!["remote", "set-head", "origin", "--auto"]);
    os.push(ok(""));
    os.push(ok("origin/main\n"));
    let e = clone::run("https://h/u/repo", None, None, &cfg, &os);
    match e {
        Effect::CreateDirAll(p) => assert_eq!(p, "/work/repo"),
        _ => panic!("expected the worktree parent to be created"),
    }
    os.push(Outcome::Done(Ok(())));
    os.push(Outcome::Ack);
    let e = clone::run("https://h/u/repo", None, None, &cfg, &os);
    let (_, args, _) = git_args(&e);
    assert_eq!(args, vec!["worktree", "add", "/work/repo/main", "main"]);
    os.push(ok(""));
    os.push(Outcome::Ack);
    os.push(failed("no upstream"));
    let e = clone::run("https://h/u/repo", None, None, &cfg, &os);
    let (dir, args, _) = git_args(&e);
    assert_eq!(dir, "/work/repo/main");
    assert_eq!(args, vec!["pull"]);
    os.push(failed("offline"));
    let e = clone::run("https://h/u/repo", None, None, &cfg, &os);
    assert_eq!(said(&e), (Level::Warning, "  Pull failed (you may need to pull manually)".to_string()));
    os.push(Outcome::Ack);
    let e = clone::run("https://h/u/repo", None, None, &cfg, &os);
    assert_eq!(said(&e), (Level::Success, "Repository ready at /work/repo".to_string()));
    os.push(Outcome::Ack);
    os.push(Outcome::Ack);
    let e = clone::run("https://h/u/repo", None, None, &cfg, &os);
    match e {
        Effect::Navigate(p) => assert_eq!(p, "/work/repo/main"),
        _ => panic!("expected navigation"),
    }
    os.push(Outcome::Ack);
    let e = clone::run("https://h/u/repo", None, None, &cfg, &os);
    assert_eq!(finished(&e), Ok(()));
}
