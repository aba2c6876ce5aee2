use lazywt::cli::{Cli, CliError, Commands};
#[test]
fn parse_list_command() {
    let cli = Cli::parse_from(&["lazywt", "list"]);
    match cli.command {
        Commands::List { short, json, no_path, no_color } => {
            assert!(!short);
            assert!(!json);
            assert!(!no_path);
            assert!(!no_color);
        }
        _ => panic!("Expected List command"),
    }
    assert!(!cli.verbose);
}

#[test]
fn parse_fix_fetch_command() {
    let cli = Cli::parse_from(&["lazywt", "fix-fetch"]);
    assert_eq!(cli.command, Commands::FixFetch);
}

#[test]
fn parse_version_command() {
    let cli = Cli::parse_from(&["lazywt", "version"]);
    assert_eq!(cli.command, Commands::Version);
}

#[test]
fn parse_verbose_flag_before_subcommand() {
    let cli = Cli::parse_from(&["lazywt", "--verbose", "list"]);
    assert!(cli.verbose);
    assert!(matches!(cli.command, Commands::List { .. }));
}

#[test]
fn parse_verbose_flag_after_subcommand() {
    let cli = Cli::parse_from(&["lazywt", "list", "--verbose"]);
    assert!(cli.verbose);
    assert!(matches!(cli.command, Commands::List { .. }));
}

#[test]
fn parse_clone_command() {
    let cli = Cli::parse_from(&["lazywt", "clone", "https://github.com/user/repo.git"]);
    assert_eq!(
        cli.command,
        Commands::Clone {
            url: "https://github.com/user/repo.git".to_string(),
            dirname: None,
            bare_dir: None,
        }
    );
}

#[test]
fn parse_clone_with_dirname() {
    let cli = Cli::parse_from(&[
        "lazywt",
        "clone",
        "https://github.com/user/repo.git",
        "mydir",
    ]);
    assert_eq!(
        cli.command,
        Commands::Clone {
            url: "https://github.com/user/repo.git".to_string(),
            dirname: Some("mydir".to_string()),
            bare_dir: None,
        }
    );
}

#[test]
fn parse_clone_with_bare_dir() {
    let cli = Cli::parse_from(&[
        "lazywt",
        "clone",
        "https://github.com/user/repo.git",
        "--bare-dir",
        ".repo",
    ]);
    assert_eq!(
        cli.command,
        Commands::Clone {
            url: "https://github.com/user/repo.git".to_string(),
            dirname: None,
            bare_dir: Some(".repo".to_string()),
        }
    );
}

#[test]
fn parse_clone_with_dirname_and_bare_dir() {
    let cli = Cli::parse_from(&[
        "lazywt",
        "clone",
        "https://github.com/user/repo.git",
        "mydir",
        "--bare-dir",
        ".repo",
    ]);
    assert_eq!(
        cli.command,
        Commands::Clone {
            url: "https://github.com/user/repo.git".to_string(),
            dirname: Some("mydir".to_string()),
            bare_dir: Some(".repo".to_string()),
        }
    );
}

#[test]
fn parse_add_command() {
    let cli = Cli::parse_from(&["lazywt", "add", "auth"]);
    assert_eq!(
        cli.command,
        Commands::Add {
            name: "auth".to_string(),
            branch: None,
            from: None,
        }
    );
}

#[test]
fn parse_add_with_from() {
    let cli = Cli::parse_from(&["lazywt", "add", "auth", "--from", "dev"]);
    assert_eq!(
        cli.command,
        Commands::Add {
            name: "auth".to_string(),
            branch: None,
            from: Some("dev".to_string()),
        }
    );
}

#[test]
fn parse_add_with_branch() {
    let cli = Cli::parse_from(&["lazywt", "add", "auth", "--branch", "custom-branch"]);
    assert_eq!(
        cli.command,
        Commands::Add {
            name: "auth".to_string(),
            branch: Some("custom-branch".to_string()),
            from: None,
        }
    );
}

#[test]
fn parse_add_with_branch_short() {
    let cli = Cli::parse_from(&["lazywt", "add", "auth", "-b", "custom"]);
    assert_eq!(
        cli.command,
        Commands::Add {
            name: "auth".to_string(),
            branch: Some("custom".to_string()),
            from: None,
        }
    );
}

#[test]
fn parse_add_with_branch_and_from() {
    let cli = Cli::parse_from(&["lazywt", "add", "auth", "--branch", "custom", "--from", "dev"]);
    assert_eq!(
        cli.command,
        Commands::Add {
            name: "auth".to_string(),
            branch: Some("custom".to_string()),
            from: Some("dev".to_string()),
        }
    );
}

#[test]
fn parse_add_rejects_extra_positional() {
    let result = Cli::try_parse_from(&["lazywt", "add", "auth", "bugfix"]);
    assert!(result.is_err(), "Extra positional arg should be rejected");
}

#[test]
fn parse_remove_command() {
    let cli = Cli::parse_from(&["lazywt", "remove", "auth"]);
    assert_eq!(
        cli.command,
        Commands::Remove {
            name: "auth".to_string(),
            yes: false,
        }
    );
}

#[test]
fn parse_remove_with_yes() {
    let cli = Cli::parse_from(&["lazywt", "remove", "auth", "--yes"]);
    assert_eq!(
        cli.command,
        Commands::Remove {
            name: "auth".to_string(),
            yes: true,
        }
    );
}

#[test]
fn parse_remove_all_command() {
    let cli = Cli::parse_from(&["lazywt", "remove-all"]);
    assert_eq!(cli.command, Commands::RemoveAll { yes: false });
}

#[test]
fn parse_remove_all_with_y() {
    let cli = Cli::parse_from(&["lazywt", "remove-all", "-y"]);
    assert_eq!(cli.command, Commands::RemoveAll { yes: true });
}

#[test]
fn parse_migrate_command() {
    let cli = Cli::parse_from(&["lazywt", "migrate"]);
    assert_eq!(
        cli.command,
        Commands::Migrate {
            dry_run: false,
            yes: false,
            bare_dir: None,
        }
    );
}

#[test]
fn parse_migrate_dry_run() {
    let cli = Cli::parse_from(&["lazywt", "migrate", "--dry-run"]);
    assert_eq!(
        cli.command,
        Commands::Migrate {
            dry_run: true,
            yes: false,
            bare_dir: None,
        }
    );
}

#[test]
fn parse_migrate_yes() {
    let cli = Cli::parse_from(&["lazywt", "migrate", "--yes"]);
    assert_eq!(
        cli.command,
        Commands::Migrate {
            dry_run: false,
            yes: true,
            bare_dir: None,
        }
    );
}

#[test]
fn parse_migrate_dry_run_and_yes() {
    let cli = Cli::parse_from(&["lazywt", "migrate", "--dry-run", "--yes"]);
    assert_eq!(
        cli.command,
        Commands::Migrate {
            dry_run: true,
            yes: true,
            bare_dir: None,
        }
    );
}

#[test]
fn parse_migrate_with_bare_dir() {
    let cli = Cli::parse_from(&["lazywt", "migrate", "--bare-dir", ".repo", "--yes"]);
    assert_eq!(
        cli.command,
        Commands::Migrate {
            dry_run: false,
            yes: true,
            bare_dir: Some(".repo".to_string()),
        }
    );
}

#[test]
fn parse_update_command() {
    let cli = Cli::parse_from(&["lazywt", "update"]);
    assert_eq!(cli.command, Commands::Update);
}

#[test]
fn parse_alias_command() {
    let cli = Cli::parse_from(&["lazywt", "alias"]);
    assert_eq!(cli.command, Commands::Alias);
}

#[test]
fn parse_init_command() {
    let cli = Cli::parse_from(&["lazywt", "init", "bash"]);
    assert_eq!(
        cli.command,
        Commands::Init {
            shell: Some("bash".to_string()),
            add: false,
        }
    );
}

#[test]
fn parse_init_powershell() {
    let cli = Cli::parse_from(&["lazywt", "init", "powershell"]);
    assert_eq!(
        cli.command,
        Commands::Init {
            shell: Some("powershell".to_string()),
            add: false,
        }
    );
}

#[test]
fn parse_init_no_args() {
    let cli = Cli::parse_from(&["lazywt", "init"]);
    assert_eq!(
        cli.command,
        Commands::Init {
            shell: None,
            add: false,
        }
    );
}

#[test]
fn parse_init_add_flag() {
    let cli = Cli::parse_from(&["lazywt", "init", "--add"]);
    assert_eq!(
        cli.command,
        Commands::Init {
            shell: None,
            add: true,
        }
    );
}

#[test]
fn parse_init_bash_add() {
    let cli = Cli::parse_from(&["lazywt", "init", "bash", "--add"]);
    assert_eq!(
        cli.command,
        Commands::Init {
            shell: Some("bash".to_string()),
            add: true,
        }
    );
}

#[test]
fn parse_completions_command() {
    let cli = Cli::parse_from(&["lazywt", "completions", "bash"]);
    assert_eq!(
        cli.command,
        Commands::Completions {
            shell: "bash".to_string(),
        }
    );
}

#[test]
fn parse_completions_zsh() {
    let cli = Cli::parse_from(&["lazywt", "completions", "zsh"]);
    assert_eq!(
        cli.command,
        Commands::Completions {
            shell: "zsh".to_string(),
        }
    );
}

#[test]
fn parse_switch_no_args() {
    let cli = Cli::parse_from(&["lazywt", "switch"]);
    assert_eq!(
        cli.command,
        Commands::Switch { name: None }
    );
}

#[test]
fn parse_switch_with_name() {
    let cli = Cli::parse_from(&["lazywt", "switch", "auth"]);
    assert_eq!(
        cli.command,
        Commands::Switch {
            name: Some("auth".to_string()),
        }
    );
}

#[test]
fn parse_switch_dash() {
    let cli = Cli::parse_from(&["lazywt", "switch", "-"]);
    assert_eq!(
        cli.command,
        Commands::Switch {
            name: Some("-".to_string()),
        }
    );
}

#[test]
fn parse_list_with_short_flag() {
    let cli = Cli::parse_from(&["lazywt", "list", "--short"]);
    match cli.command {
        Commands::List { short, json, no_path, no_color } => {
            assert!(short);
            assert!(!json);
            assert!(!no_path);
            assert!(!no_color);
        }
        _ => panic!("Expected List command"),
    }
}

#[test]
fn parse_list_with_json_flag() {
    let cli = Cli::parse_from(&["lazywt", "list", "--json"]);
    match cli.command {
        Commands::List { json, .. } => assert!(json),
        _ => panic!("Expected List command"),
    }
}

#[test]
fn parse_list_with_no_path_flag() {
    let cli = Cli::parse_from(&["lazywt", "list", "--no-path"]);
    match cli.command {
        Commands::List { no_path, .. } => assert!(no_path),
        _ => panic!("Expected List command"),
    }
}

#[test]
fn parse_list_with_no_color_flag() {
    let cli = Cli::parse_from(&["lazywt", "list", "--no-color"]);
    match cli.command {
        Commands::List { no_color, .. } => assert!(no_color),
        _ => panic!("Expected List command"),
    }
}

#[test]
fn parse_config_command() {
    let cli = Cli::parse_from(&["lazywt", "config"]);
    assert_eq!(
        cli.command,
        Commands::Config {
            global: false,
            repo: false
        }
    );
}

#[test]
fn parse_config_global() {
    let cli = Cli::parse_from(&["lazywt", "config", "--global"]);
    assert_eq!(
        cli.command,
        Commands::Config {
            global: true,
            repo: false
        }
    );
}

#[test]
fn parse_config_repo() {
    let cli = Cli::parse_from(&["lazywt", "config", "--repo"]);
    assert_eq!(
        cli.command,
        Commands::Config {
            global: false,
            repo: true
        }
    );
}

#[test]
fn parse_pr_number_only() {
    let cli = Cli::parse_from(&["lazywt", "pr", "42"]);
    assert_eq!(
        cli.command,
        Commands::Pr {
            target: "42".to_string(),
            name: None,
        }
    );
}

#[test]
fn parse_pr_with_name() {
    let cli = Cli::parse_from(&["lazywt", "pr", "42", "review"]);
    assert_eq!(
        cli.command,
        Commands::Pr {
            target: "42".to_string(),
            name: Some("review".to_string()),
        }
    );
}

#[test]
fn parse_pr_url() {
    let cli =
        Cli::parse_from(&["lazywt", "pr", "https://github.com/owner/repo/pull/123"]);
    assert_eq!(
        cli.command,
        Commands::Pr {
            target: "https://github.com/owner/repo/pull/123".to_string(),
            name: None,
        }
    );
}

#[test]
fn parse_list_with_all_flags() {
    let cli = Cli::parse_from(&["lazywt", "list", "--short", "--no-path", "--no-color"]);
    match cli.command {
        Commands::List { short, no_path, no_color, .. } => {
            assert!(short);
            assert!(no_path);
            assert!(no_color);
        }
        _ => panic!("Expected List command"),
    }
}

#[test]
fn parse_prune_no_flags() {
    let cli = Cli::parse_from(&["lazywt", "prune"]);
    assert_eq!(
        cli.command,
        Commands::Prune {
            force: false,
            yes: false,
        }
    );
}

#[test]
fn parse_prune_force_yes() {
    let cli = Cli::parse_from(&["lazywt", "prune", "--force", "--yes"]);
    assert_eq!(
        cli.command,
        Commands::Prune {
            force: true,
            yes: true,
        }
    );
}

#[test]
fn parse_sync_no_flags() {
    let cli = Cli::parse_from(&["lazywt", "sync"]);
    assert_eq!(cli.command, Commands::Sync { all: false });
}

#[test]
fn parse_sync_all() {
    let cli = Cli::parse_from(&["lazywt", "sync", "--all"]);
    assert_eq!(cli.command, Commands::Sync { all: true });
}

#[test]
fn parse_list_no_flags_defaults_to_false() {
    let cli = Cli::parse_from(&["lazywt", "list"]);
    match cli.command {
        Commands::List { short, json, no_path, no_color } => {
            assert!(!short);
            assert!(!json);
            assert!(!no_path);
            assert!(!no_color);
        }
        _ => panic!("Expected List command"),
    }
}

#[test]
fn parse_setup_command() {
    let cli = Cli::parse_from(&["lazywt", "setup"]);
    assert_eq!(
        cli.command,
        Commands::Setup {
            dry_run: false,
            yes: false,
            bare_dir: None,
        }
    );
}

#[test]
fn parse_setup_dry_run_yes() {
    let cli = Cli::parse_from(&["lazywt", "setup", "--dry-run", "--yes"]);
    assert_eq!(
        cli.command,
        Commands::Setup {
            dry_run: true,
            yes: true,
            bare_dir: None,
        }
    );
}

#[test]
fn parse_setup_short_yes() {
    let cli = Cli::parse_from(&["lazywt", "setup", "-y"]);
    assert_eq!(
        cli.command,
        Commands::Setup {
            dry_run: false,
            yes: true,
            bare_dir: None,
        }
    );
}

#[test]
fn parse_setup_with_bare_dir() {
    let cli = Cli::parse_from(&["lazywt", "setup", "--bare-dir", ".repo", "--yes"]);
    assert_eq!(
        cli.command,
        Commands::Setup {
            dry_run: false,
            yes: true,
            bare_dir: Some(".repo".to_string()),
        }
    );
}

#[test]
fn command_line_errors_by_kind() {
    assert_eq!(Cli::try_parse_from(&["lazywt"]).err(), Some(CliError::MissingSubcommand));
    assert_eq!(Cli::try_parse_from(&["lazywt", "--help"]).err(), Some(CliError::Help));
    assert_eq!(Cli::try_parse_from(&["lazywt", "-V"]).err(), Some(CliError::Version));
    assert_eq!(Cli::try_parse_from(&["lazywt", "frobnicate"]).err(), Some(CliError::InvalidSubcommand));
    assert_eq!(Cli::try_parse_from(&["lazywt", "add"]).err(), Some(CliError::MissingArgument));
    assert_eq!(Cli::try_parse_from(&["lazywt", "add", "x", "--from"]).err(), Some(CliError::MissingValue));
    assert_eq!(Cli::try_parse_from(&["lazywt", "config", "--global", "--repo"]).err(), Some(CliError::Conflict));
    assert_eq!(Cli::try_parse_from(&["lazywt", "prune", "--yes", "-y"]).err(), Some(CliError::Duplicate));
    assert_eq!(Cli::try_parse_from(&["lazywt", "list", "--json=1"]).err(), Some(CliError::UnexpectedValue));
    assert_eq!(Cli::try_parse_from(&["lazywt", "sync", "--force"]).err(), Some(CliError::UnknownArgument));
}

#[test]
fn options_take_attached_values_and_dash_dash_ends_flags() {
    let cli = Cli::parse_from(&["lazywt", "add", "auth", "-bfeat", "--from=dev"]);
    assert_eq!(cli.command, Commands::Add { name: "auth".to_string(), branch: Some("feat".to_string()), from: Some("dev".to_string()) });
    let cli = Cli::parse_from(&["lazywt", "switch", "--", "--weird"]);
    assert_eq!(cli.command, Commands::Switch { name: Some("--weird".to_string()) });
}
