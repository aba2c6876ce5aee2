use lazywt::commands::alias::{self, detect_shell, profile_path, ProfileEnv, Shell, ShellEnv};
use lazywt::commands::config_cmd::{choose_scope, repo_saved_message, scope_of_choice, Scope};
use lazywt::commands::effects::{Effect, Level, Outcome};
use lazywt::commands::fix_fetch;
use lazywt::commands::init_shell::{self, eval_line_for_shell, eval_pattern_for_shell};
use lazywt::config::interactive::{
    global_from_answers, location_index, parse_copy_files, repo_from_answers, GlobalAnswers, RepoAnswers,
};
use lazywt::config::migration::{legacy_to_global, migrate_if_needed};
use lazywt::config::schema::{GlobalConfig, RepoConfig};
use lazywt::config::Config;
use lazywt::git::operations::{FsQuery, FsReply};
use lazywt::git::repo::{find_bare_repo_root, find_repo_root};
use lazywt::git::GitReply;
use lazywt::layout::{LayoutType, ProjectContext};

fn ok(s: &str) -> Outcome {
    Outcome::Git(GitReply::Success(s.to_string()))
}

fn failed(s: &str) -> Outcome {
    Outcome::Git(GitReply::Failure(s.to_string()))
}

fn text(s: &str) -> Outcome {
    Outcome::Fs(FsReply::Text(s.to_string()))
}

fn said(e: &Effect) -> (Level, String) {
    match e {
        Effect::Say(l, t) => (*l, t.clone()),
        _ => panic!("expected a message"),
    }
}

fn git_args(e: &Effect) -> (String, Vec<String>) {
    match e {
        Effect::Git(c) => (c.dir.clone(), c.args.clone()),
        _ => panic!("expected a git command"),
    }
}

fn finished(e: &Effect) -> Result<(), String> {
    match e {
        Effect::Finish(r) => r.clone(),
        _ => panic!("expected the end"),
    }
}

fn no_env() -> ShellEnv {
    ShellEnv { ps_module_path: false, nu_version: false, shell: None, windows: false }
}

fn home_env(home: &str) -> ProfileEnv {
    ProfileEnv {
        profile: None,
        nu_config_path: None,
        home: Some(home.to_string()),
        documents: None,
        config_dir: None,
        windows: false,
    }
}

// fix-fetch ----------------------------------------------------------

fn ctx() -> ProjectContext {
    ProjectContext {
        project_dir: "/p/.git".to_string(),
        project_root: "/p".to_string(),
        layout_type: LayoutType::Modern,
        project_name: "p".to_string(),
        worktree_folder: String::new(),
        worktree_parent: "/p".to_string(),
    }
}

#[test]
fn fix_fetch_already_correct() {
    let mut os = vec![Outcome::Ack, Outcome::Ack];
    let e = fix_fetch::run(&ctx(), &os);
    let (dir, args) = git_args(&e);
    assert_eq!(dir, "/p/.git");
    assert_eq!(args, vec!["config", "--get", "remote.origin.fetch"]);
    os.push(ok("+refs/heads/*:refs/remotes/origin/*\n"));
    os.push(Outcome::Ack);
    let e = fix_fetch::run(&ctx(), &os);
    assert_eq!(said(&e), (Level::Success, "Fetch refspec is already correctly configured".to_string()));
    os.push(Outcome::Ack);
    assert_eq!(finished(&fix_fetch::run(&ctx(), &os)), Ok(()));
}

#[test]
fn fix_fetch_narrow_refspec_is_replaced() {
    let mut os = vec![Outcome::Ack, Outcome::Ack, ok("+refs/heads/main:refs/remotes/origin/main")];
    let e = fix_fetch::run(&ctx(), &os);
    assert_eq!(said(&e), (Level::Info, "Current fetch refspec: +refs/heads/main:refs/remotes/origin/main".to_string()));
    os.push(Outcome::Ack);
    let e = fix_fetch::run(&ctx(), &os);
    assert_eq!(
        said(&e),
        (
            Level::Warning,
            "Fetch refspec is configured but not optimal\n   Current:  +refs/heads/main:refs/remotes/origin/main\n   Expected: +refs/heads/*:refs/remotes/origin/*".to_string()
        )
    );
    os.push(Outcome::Ack);
    let (_, args) = git_args(&fix_fetch::run(&ctx(), &os));
    assert_eq!(args, vec!["config", "remote.origin.fetch", "+refs/heads/*:refs/remotes/origin/*"]);
    os.push(ok(""));
    os.push(Outcome::Ack);
    let (_, args) = git_args(&fix_fetch::run(&ctx(), &os));
    assert_eq!(args, vec!["fetch", "origin"]);
    os.push(failed("offline"));
    os.push(Outcome::Ack);
    let e = fix_fetch::run(&ctx(), &os);
    assert_eq!(said(&e), (Level::Warning, "Could not fetch from origin: offline".to_string()));
}

#[test]
fn fix_fetch_unset_refspec_warns_and_fails_on_set_error() {
    let mut os = vec![Outcome::Ack, Outcome::Ack, failed("")];
    let e = fix_fetch::run(&ctx(), &os);
    assert_eq!(said(&e), (Level::Warning, "Fetch refspec is not configured".to_string()));
    os.push(Outcome::Ack);
    os.push(failed("could not lock config file"));
    assert_eq!(finished(&fix_fetch::run(&ctx(), &os)), Err("could not lock config file".to_string()));
}

// finding the repository ---------------------------------------------

#[test]
fn bare_root_from_inside_bare_repository() {
    let mut os = vec![];
    let (dir, args) = git_args(&find_bare_repo_root(None, &os));
    assert_eq!(dir, "");
    assert_eq!(args, vec!["rev-parse", "--git-dir"]);
    os.push(ok(".\n"));
    match find_bare_repo_root(None, &os) {
        Effect::Fs(FsQuery::Canonical(p)) => assert_eq!(p, "."),
        _ => panic!("expected canonicalization"),
    }
    os.push(text("/r/.bare"));
    os.push(ok("true\n"));
    match find_bare_repo_root(None, &os) {
        Effect::RepoFound { path, bare } => {
            assert_eq!(path, "/r/.bare");
            assert!(bare);
        },
        _ => panic!("expected the repository"),
    }
}

#[test]
fn bare_root_from_worktree_uses_common_dir() {
    let os = vec![
        ok("/r/.bare/worktrees/main\n"),
        Outcome::Fs(FsReply::Failed(String::new())),
        ok("false\n"),
        ok("/r/.bare\n"),
        text("/r/.bare"),
    ];
    let (dir, args) = git_args(&find_bare_repo_root(None, &os));
    assert_eq!(dir, "/r/.bare");
    assert_eq!(args, vec!["rev-parse", "--is-bare-repository"]);
    let mut os = os;
    os.push(ok("false\n"));
    assert_eq!(
        finished(&find_bare_repo_root(None, &os)),
        Err("This command requires a bare Git repository.\n   Please run from a bare repository directory or one of its worktrees.".to_string())
    );
}

#[test]
fn bare_root_from_project_root_uses_hint_then_scan() {
    let mut os = vec![failed("not a git repository"), text("/r")];
    match find_bare_repo_root(Some(".repo"), &os) {
        Effect::Fs(FsQuery::IsDir(p)) => assert_eq!(p, "/r/.repo"),
        _ => panic!("expected the hinted directory"),
    }
    os.push(Outcome::Fs(FsReply::No));
    match find_bare_repo_root(Some(".repo"), &os) {
        Effect::ListDir(p) => assert_eq!(p, "/r"),
        _ => panic!("expected a listing"),
    }
    os.push(Outcome::Lines(vec!["/r/file.txt".to_string(), "/r/.git".to_string()]));
    os.push(Outcome::Fs(FsReply::No));
    os.push(Outcome::Fs(FsReply::Yes));
    match find_bare_repo_root(Some(".repo"), &os) {
        Effect::Fs(FsQuery::IsFile(p)) => assert_eq!(p, "/r/.git/HEAD"),
        _ => panic!("expected a HEAD check"),
    }
    os.push(Outcome::Fs(FsReply::Yes));
    os.push(ok("true"));
    os.push(Outcome::Fs(FsReply::Failed(String::new())));
    match find_bare_repo_root(Some(".repo"), &os) {
        Effect::RepoFound { path, bare } => {
            assert_eq!(path, "/r/.git");
            assert!(bare);
        },
        _ => panic!("expected the repository"),
    }
}

#[test]
fn repo_root_falls_back_to_toplevel() {
    let os = vec![ok("/w/.git\n"), text("/w/.git"), ok("false\n"), ok(".git\n"), text("/w/.git"), ok("false\n")];
    let (_, args) = git_args(&find_repo_root(None, &os));
    assert_eq!(args, vec!["rev-parse", "--show-toplevel"]);
    let mut os = os;
    os.push(ok("/w\n"));
    os.push(text("/w"));
    match find_repo_root(None, &os) {
        Effect::RepoFound { path, bare } => {
            assert_eq!(path, "/w");
            assert!(!bare);
        },
        _ => panic!("expected the repository"),
    }
}

#[test]
fn repo_root_outside_any_repository() {
    let os = vec![failed("no"), text("/tmp"), Outcome::Lines(vec![]), failed("no")];
    assert_eq!(
        finished(&find_repo_root(None, &os)),
        Err("Not in a git repository.\n   Run from inside a git repository or one of its worktrees.".to_string())
    );
}

// shells and profiles ------------------------------------------------

#[test]
fn profile_path_bash_ends_with_bashrc() {
    let path = profile_path(&Shell::Bash, &home_env("/home/u")).unwrap();
    assert!(path.ends_with(".bashrc"), "Bash profile path should end with .bashrc, got: {:?}", path);
}

#[test]
fn profile_path_zsh_ends_with_zshrc() {
    let path = profile_path(&Shell::Zsh, &home_env("/home/u")).unwrap();
    assert!(path.ends_with(".zshrc"), "Zsh profile path should end with .zshrc, got: {:?}", path);
}

#[test]
fn profile_path_powershell_with_env_var() {
    let mut env = home_env("/home/u");
    env.profile = Some("/test/profile.ps1".to_string());
    let path = profile_path(&Shell::PowerShell, &env).unwrap();
    assert_eq!(path, "/test/profile.ps1", "Should use PROFILE env var when set");
}

#[test]
fn profile_path_nushell_with_env_var() {
    let mut env = home_env("/home/u");
    env.nu_config_path = Some("/test/config.nu".to_string());
    let path = profile_path(&Shell::Nushell, &env).unwrap();
    assert_eq!(path, "/test/config.nu", "Should use NU_CONFIG_PATH env var when set");
}

#[test]
fn profile_path_fallbacks_and_errors() {
    assert_eq!(
        profile_path(&Shell::PowerShell, &home_env("/home/u")).unwrap(),
        "/home/u/.config/powershell/Microsoft.PowerShell_profile.ps1"
    );
    assert_eq!(profile_path(&Shell::Nushell, &home_env("/home/u")).unwrap(), "/home/u/.config/nushell/config.nu");
    let mut win = home_env("/home/u");
    win.windows = true;
    win.documents = Some("C:/Users/u/Documents".to_string());
    assert_eq!(
        profile_path(&Shell::PowerShell, &win).unwrap(),
        "C:/Users/u/Documents/PowerShell/Microsoft.PowerShell_profile.ps1"
    );
    assert_eq!(
        profile_path(&Shell::Nushell, &win),
        Err("Could not determine Nushell config path".to_string())
    );
    let mut none = home_env("/h");
    none.home = None;
    assert_eq!(profile_path(&Shell::Bash, &none), Err("Could not determine home directory".to_string()));
}

#[test]
fn detect_shell_with_nu_version() {
    let env = ShellEnv { ps_module_path: false, nu_version: true, shell: Some("/bin/bash".to_string()), windows: false };
    let result = detect_shell(&env);
    assert!(result.is_ok());
    assert!(matches!(result.unwrap(), Shell::Nushell));
}

#[test]
fn alias_adds_function_to_profile() {
    let env = ShellEnv { shell: Some("/bin/zsh".to_string()), ..no_env() };
    let cfg = Config::default();
    let penv = home_env("/home/u");
    let mut os = vec![];
    match alias::run(&env, &penv, &cfg, &os) {
        Effect::Fs(FsQuery::Exists(p)) => assert_eq!(p, "/home/u/.zshrc"),
        _ => panic!("expected the profile to be looked for"),
    }
    os.push(Outcome::Fs(FsReply::Yes));
    os.push(text("export PATH=$PATH\n"));
    match alias::run(&env, &penv, &cfg, &os) {
        Effect::CreateDirAll(p) => assert_eq!(p, "/home/u"),
        _ => panic!("expected the profile directory"),
    }
    os.push(Outcome::Done(Ok(())));
    match alias::run(&env, &penv, &cfg, &os) {
        Effect::AppendLine { path, line } => {
            assert_eq!(path, "/home/u/.zshrc");
            assert!(line.starts_with("wt()"));
        },
        _ => panic!("expected the function to be appended"),
    }
    os.push(Outcome::Done(Ok(())));
    assert_eq!(said(&alias::run(&env, &penv, &cfg, &os)), (Level::Success, "Added alias 'wt' to /home/u/.zshrc".to_string()));
    os.push(Outcome::Ack);
    assert_eq!(
        said(&alias::run(&env, &penv, &cfg, &os)),
        (Level::Info, "Restart your shell or run 'source /home/u/.zshrc' to activate".to_string())
    );
}

#[test]
fn alias_already_configured() {
    let env = ShellEnv { shell: Some("/bin/bash".to_string()), ..no_env() };
    let cfg = Config::default();
    let os = vec![Outcome::Fs(FsReply::Yes), text("wt() {\n}\n")];
    assert_eq!(
        said(&alias::run(&env, &home_env("/h"), &cfg, &os)),
        (Level::Info, "Alias 'wt' is already configured in /h/.bashrc".to_string())
    );
}

#[test]
fn alias_reports_unreadable_profile() {
    let env = ShellEnv { shell: Some("/bin/bash".to_string()), ..no_env() };
    let cfg = Config::default();
    let os = vec![Outcome::Fs(FsReply::Yes), Outcome::Fs(FsReply::Failed("Permission denied (os error 13)".to_string()))];
    assert_eq!(
        finished(&alias::run(&env, &home_env("/h"), &cfg, &os)),
        Err("Permission denied (os error 13)".to_string())
    );
}

#[test]
fn alias_without_detectable_shell_fails() {
    let cfg = Config::default();
    assert_eq!(
        finished(&alias::run(&no_env(), &home_env("/h"), &cfg, &vec![])),
        Err("Could not detect your shell. Supported: PowerShell, Bash, Zsh, Nushell".to_string())
    );
}

#[test]
fn init_prints_function_for_named_shell() {
    let cfg = Config::default();
    let e = init_shell::run(Some("BASH"), false, &no_env(), &home_env("/h"), &cfg, &vec![]);
    let (level, t) = said(&e);
    assert_eq!(level, Level::Plain);
    assert!(t.starts_with("wt()"));
    let e = init_shell::run(Some("fish"), false, &no_env(), &home_env("/h"), &cfg, &vec![]);
    assert_eq!(finished(&e), Err("Unknown shell 'fish'. Supported: bash, zsh, powershell, nushell".to_string()));
}

#[test]
fn run_add_appends_eval_line() {
    let cfg = Config::default();
    let eval_line = eval_line_for_shell(&Shell::Bash);
    assert!(eval_line.contains("lazywt init bash"));
    let os = vec![Outcome::Fs(FsReply::Yes), text("# existing content\n"), Outcome::Done(Ok(()))];
    match init_shell::run(Some("bash"), true, &no_env(), &home_env("/h"), &cfg, &os) {
        Effect::AppendLine { path, line } => {
            assert_eq!(path, "/h/.bashrc");
            assert_eq!(line, eval_line);
            assert!(line.contains(eval_pattern_for_shell()));
        },
        _ => panic!("expected the line to be appended"),
    }
}

#[test]
fn run_add_skips_duplicate() {
    let cfg = Config::default();
    let existing = format!("{}\n", eval_line_for_shell(&Shell::Bash));
    let os = vec![Outcome::Fs(FsReply::Yes), text(&existing)];
    assert_eq!(
        said(&init_shell::run(Some("bash"), true, &no_env(), &home_env("/h"), &cfg, &os)),
        (Level::Warning, "Shell integration already configured in /h/.bashrc".to_string())
    );
}

// configuration editor ------------------------------------------------

#[test]
fn config_scope_rules() {
    assert_eq!(choose_scope(false, true, false, true), Err("Config editor requires a terminal".to_string()));
    assert_eq!(choose_scope(true, true, true, false), Ok(Some(Scope::Global)));
    assert_eq!(
        choose_scope(true, false, true, false),
        Err("Not inside a git repository. Run from a worktree or use --global.".to_string())
    );
    assert_eq!(choose_scope(true, false, true, true), Ok(Some(Scope::Repo)));
    assert_eq!(choose_scope(true, false, false, true), Ok(None));
    assert_eq!(choose_scope(true, false, false, false), Ok(Some(Scope::Global)));
    assert_eq!(scope_of_choice(0), Scope::Global);
    assert_eq!(scope_of_choice(1), Scope::Repo);
    assert_eq!(repo_saved_message("/r"), "Repo config saved to /r/lazywt.json");
}

#[test]
fn copy_files_answer_is_split_and_trimmed() {
    assert_eq!(parse_copy_files(".env, .envrc ,, config/*.toml "), vec![".env", ".envrc", "config/*.toml"]);
    assert!(parse_copy_files("").is_empty());
    assert_eq!(location_index("outside"), 1);
    assert_eq!(location_index("inside"), 0);
    assert_eq!(location_index("elsewhere"), 0);
}

#[test]
fn global_answers_keep_other_settings() {
    let mut current = GlobalConfig::default();
    current.copy_files = vec![".env".to_string()];
    current.bare_dir = Some(".repo".to_string());
    let a = GlobalAnswers {
        command_name: "gw".to_string(),
        worktree_folder: String::new(),
        auto_update: false,
        auto_navigate: true,
        branch_prefix: "feat/".to_string(),
    };
    let g = global_from_answers(&current, &a);
    assert_eq!(g.command_name, "gw");
    assert_eq!(g.worktree_folder, None);
    assert_eq!(g.bare_dir, Some(".repo".to_string()));
    assert!(!g.auto_update);
    assert!(g.auto_navigate);
    assert_eq!(g.branch_prefix, "feat/");
    assert_eq!(g.copy_files, vec![".env".to_string()]);
    assert_eq!(g.worktree_location, "inside");
}

#[test]
fn repo_answers_keep_only_differences() {
    let global = GlobalConfig::default();
    let a = RepoAnswers {
        branch_prefix: String::new(),
        copy_files: ".env".to_string(),
        location_index: 1,
        command_name: "wt".to_string(),
        worktree_folder: String::new(),
        auto_update: true,
        auto_navigate: true,
    };
    let r = repo_from_answers(&global, None, &a);
    assert_eq!(r.command_name, None);
    assert_eq!(r.worktree_folder, None);
    assert_eq!(r.bare_dir, None);
    assert_eq!(r.auto_update, None);
    assert_eq!(r.auto_navigate, Some(true));
    assert_eq!(r.branch_prefix, None);
    assert_eq!(r.copy_files, Some(vec![".env".to_string()]));
    assert_eq!(r.worktree_location, Some("outside".to_string()));
    let mut global2 = GlobalConfig::default();
    global2.worktree_folder = Some("trees".to_string());
    let existing = RepoConfig { worktree_folder: Some("trees".to_string()), ..RepoConfig::default() };
    let a2 = RepoAnswers { worktree_folder: "trees".to_string(), location_index: 0, ..a };
    assert_eq!(repo_from_answers(&global2, Some(&existing), &a2).worktree_folder, Some("trees".to_string()));
    assert_eq!(repo_from_answers(&global2, None, &a2).worktree_folder, None);
}

// migration ----------------------------------------------------------

#[test]
fn migrate_does_nothing_when_no_ini_exists() {
    let os = vec![Outcome::Fs(FsReply::No)];
    match migrate_if_needed(Some("/h"), Some("/c"), &os) {
        Effect::Fs(FsQuery::Exists(p)) => assert_eq!(p, "/h/.wt_update_check"),
        _ => panic!("expected the cache check"),
    }
    let os = vec![Outcome::Fs(FsReply::No), Outcome::Fs(FsReply::No)];
    assert_eq!(finished(&migrate_if_needed(Some("/h"), Some("/c"), &os)), Ok(()));
}

#[test]
fn migrate_does_nothing_when_json_already_exists() {
    let os = vec![Outcome::Fs(FsReply::Yes), Outcome::Fs(FsReply::Yes)];
    match migrate_if_needed(Some("/h"), Some("/c"), &os) {
        Effect::Fs(FsQuery::Exists(p)) => assert_eq!(p, "/h/.wt_update_check"),
        _ => panic!("the legacy file must be left alone"),
    }
}

#[test]
fn migrate_reads_ini_writes_json_deletes_ini() {
    let os = vec![
        Outcome::Fs(FsReply::Yes),
        Outcome::Fs(FsReply::No),
        text("command_name = mycmd\nauto_update = false\nworktree_folder = trees\nauto_navigate = true"),
    ];
    let global = match migrate_if_needed(Some("/h"), Some("/c"), &os) {
        Effect::WriteGlobalConfig { path, config } => {
            assert_eq!(path, "/c/lazywt/config.json");
            config
        },
        _ => panic!("expected the JSON file to be written"),
    };
    assert_eq!(global.command_name, "mycmd");
    assert!(!global.auto_update);
    assert_eq!(global.worktree_folder, Some("trees".to_string()));
    assert!(global.auto_navigate);
    assert_eq!(global.branch_prefix, "");
    assert!(global.copy_files.is_empty());
    assert_eq!(global.worktree_location, "inside");
    let mut os = os;
    os.push(Outcome::Done(Ok(())));
    match migrate_if_needed(Some("/h"), Some("/c"), &os) {
        Effect::RemoveFile(p) => assert_eq!(p, "/h/.wtconfig"),
        _ => panic!("expected the legacy file to be removed"),
    }
    os.push(Outcome::Ack);
    assert_eq!(
        said(&migrate_if_needed(Some("/h"), Some("/c"), &os)),
        (Level::Info, "Migrated config to /c/lazywt/config.json".to_string())
    );
}

#[test]
fn migrate_ini_with_all_four_keys() {
    let global = legacy_to_global("command_name = gw\nworktree_folder = wt\nauto_update = true\nauto_navigate = false");
    assert_eq!(global.command_name, "gw");
    assert_eq!(global.worktree_folder, Some("wt".to_string()));
    assert!(global.auto_update);
    assert!(!global.auto_navigate);
}

#[test]
fn migrate_ini_with_unknown_keys_ignores_them() {
    let global = legacy_to_global("command_name = wt\nunknown_future_key = value\nanother_key = 42");
    assert_eq!(global.command_name, "wt");
    assert_eq!(global.worktree_folder, None);
    assert_eq!(global.bare_dir, None);
}

#[test]
fn migrate_preserves_ini_on_write_failure() {
    let os = vec![
        Outcome::Fs(FsReply::Yes),
        Outcome::Fs(FsReply::No),
        text("command_name = preserved"),
        Outcome::Done(Err("permission denied".to_string())),
    ];
    match migrate_if_needed(Some("/h"), Some("/c"), &os) {
        Effect::Fs(FsQuery::Exists(p)) => assert_eq!(p, "/h/.wt_update_check"),
        _ => panic!("the legacy file must be kept"),
    }
}

#[test]
fn migrate_cache_moves_old_to_new() {
    let mut os = vec![Outcome::Fs(FsReply::No), Outcome::Fs(FsReply::Yes), Outcome::Fs(FsReply::No)];
    match migrate_if_needed(Some("/h"), Some("/c"), &os) {
        Effect::CreateDirAll(p) => assert_eq!(p, "/c/lazywt"),
        _ => panic!("expected the directory"),
    }
    os.push(Outcome::Done(Ok(())));
    match migrate_if_needed(Some("/h"), Some("/c"), &os) {
        Effect::CopyFile { from, to } => {
            assert_eq!(from, "/h/.wt_update_check");
            assert_eq!(to, "/c/lazywt/update_check");
        },
        _ => panic!("expected the copy"),
    }
    os.push(Outcome::Done(Ok(())));
    match migrate_if_needed(Some("/h"), Some("/c"), &os) {
        Effect::RemoveFile(p) => assert_eq!(p, "/h/.wt_update_check"),
        _ => panic!("expected the old cache to be removed"),
    }
}

#[test]
fn migrate_cache_does_nothing_if_old_cache_missing() {
    let os = vec![Outcome::Fs(FsReply::No), Outcome::Fs(FsReply::No)];
    assert_eq!(finished(&migrate_if_needed(Some("/h"), Some("/c"), &os)), Ok(()));
}

#[test]
fn migrate_cache_does_nothing_if_new_cache_exists() {
    let os = vec![Outcome::Fs(FsReply::No), Outcome::Fs(FsReply::Yes), Outcome::Fs(FsReply::Yes)];
    assert_eq!(finished(&migrate_if_needed(Some("/h"), Some("/c"), &os)), Ok(()));
}

#[test]
fn migrate_needs_both_directories() {
    assert_eq!(finished(&migrate_if_needed(None, Some("/c"), &vec![])), Ok(()));
    assert_eq!(finished(&migrate_if_needed(Some("/h"), None, &vec![])), Ok(()));
}

#[test]
fn lowered_names_are_matched_as_given() {
    assert!(matches!(lazywt::commands::alias::shell_of_lowered("pwsh"), Ok(Shell::PowerShell)));
    assert_eq!(
        lazywt::commands::alias::shell_of_lowered("bäsh").err(),
        Some("Unknown shell 'bäsh'. Supported: bash, zsh, powershell, nushell".to_string())
    );
    assert!(lazywt::commands::alias::shell_of_lowered("BASH").is_err());
    assert!(matches!(lazywt::commands::alias::parse_shell_name("BASH"), Ok(Shell::Bash)));
    assert!(matches!(
        lazywt::commands::completions::completion_shell_of_lowered("fish"),
        Ok(lazywt::commands::completions::CompletionShell::Fish)
    ));
    assert_eq!(
        lazywt::commands::completions::completion_shell_of_lowered("ﬁsh").err(),
        Some("Unsupported shell: 'ﬁsh'. Supported: bash, zsh, powershell, fish".to_string())
    );
    assert!(lazywt::navigate::accepts_lowered("yes"));
    assert!(!lazywt::navigate::accepts_lowered("ｙ"));
    assert!(!lazywt::navigate::accepts_lowered("YES"));
    assert!(lazywt::navigate::accepts_navigation("  YES "));
}

#[test]
fn config_value_set_is_read_back() {
    let replies = vec![GitReply::Success("origin/main\n".to_string())];
    match lazywt::git::config::get_config("/r", "wt.layout", &replies) {
        lazywt::git::GitStep::Done(v) => assert_eq!(v, Some("origin/main".to_string())),
        lazywt::git::GitStep::Run(_) => panic!("expected a value"),
    }
    let replies = vec![GitReply::Failure("".to_string())];
    match lazywt::git::config::get_config("/r", "wt.layout", &replies) {
        lazywt::git::GitStep::Done(v) => assert_eq!(v, None),
        lazywt::git::GitStep::Run(_) => panic!("expected a value"),
    }
}
