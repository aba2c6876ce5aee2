use lazywt::config::merge::merge;
use lazywt::config::schema::{GlobalConfig, RepoConfig};
use lazywt::config::{repo_config_path, Config, EnvOverrides};
use lazywt::git::{GitReply, GitStep};
use lazywt::layout::{build_context, detect_layout, LayoutType};
use lazywt::commands::steps::find_worktree_by_name;
use lazywt::git::worktree::Worktree;
use lazywt::paths::{file_name, join};

fn default_config() -> Config {
    Config::default()
}

fn config_with_folder(folder: &str) -> Config {
    Config { worktree_folder: Some(folder.to_string()), ..Config::default() }
}

fn config_with_location(location: &str) -> Config {
    Config { worktree_location: location.to_string(), ..Config::default() }
}

#[test]
fn layout_type_classic_and_modern_are_distinct() {
    assert_ne!(LayoutType::Classic, LayoutType::Modern);
}

#[test]
fn modern_layout_project_root_is_parent_of_project_dir() {
    let ctx = build_context("/home/user/myproject/.git", LayoutType::Modern, &default_config());
    assert_eq!(ctx.project_root, "/home/user/myproject");
}

#[test]
fn modern_layout_worktree_parent_equals_project_root_when_no_folder() {
    let ctx = build_context("/home/user/myproject/.git", LayoutType::Modern, &default_config());
    assert_eq!(ctx.worktree_parent, ctx.project_root, "Modern layout without worktree_folder config should have worktree_parent == project_root");
}

#[test]
fn classic_layout_project_root_equals_project_dir() {
    let project_dir = "/home/user/myproject/.bare";
    let ctx = build_context(project_dir, LayoutType::Classic, &default_config());
    assert_eq!(ctx.project_root, project_dir);
}

#[test]
fn classic_layout_worktree_parent_is_project_root_trees() {
    let ctx = build_context("/home/user/myproject/.bare", LayoutType::Classic, &default_config());
    assert_eq!(ctx.worktree_parent, "/home/user/myproject/.bare/trees");
}

#[test]
fn config_worktree_folder_overrides_default() {
    let ctx = build_context("/home/user/myproject/.bare", LayoutType::Classic, &config_with_folder("custom"));
    assert_eq!(ctx.worktree_parent, "/home/user/myproject/.bare/custom");
}

#[test]
fn empty_worktree_folder_means_project_root() {
    let ctx = build_context("/home/user/myproject/.bare", LayoutType::Classic, &config_with_folder(""));
    assert_eq!(ctx.worktree_parent, ctx.project_root, "Empty worktree_folder should mean worktree_parent == project_root");
}

#[test]
fn project_name_is_leaf_of_project_root() {
    let ctx = build_context("/home/user/myproject/.git", LayoutType::Modern, &default_config());
    assert_eq!(ctx.project_name, "myproject");
}

#[test]
fn project_name_classic_layout() {
    let ctx = build_context("/home/user/myproject/.bare", LayoutType::Classic, &default_config());
    assert_eq!(ctx.project_name, ".bare");
}

#[test]
fn worktree_folder_default_classic_is_trees() {
    let ctx = build_context("/home/user/myproject/.bare", LayoutType::Classic, &default_config());
    assert_eq!(ctx.worktree_folder, "trees");
}

#[test]
fn worktree_folder_default_modern_is_empty() {
    let ctx = build_context("/home/user/myproject/.git", LayoutType::Modern, &default_config());
    assert_eq!(ctx.worktree_folder, "");
}

#[test]
fn nonbare_is_distinct_from_classic_and_modern() {
    assert_ne!(LayoutType::NonBare, LayoutType::Classic);
    assert_ne!(LayoutType::NonBare, LayoutType::Modern);
}

#[test]
fn nonbare_inside_worktree_parent_is_wts() {
    let ctx = build_context("/home/user/myproject", LayoutType::NonBare, &config_with_location("inside"));
    assert_eq!(ctx.worktree_parent, "/home/user/myproject/.wts");
}

#[test]
fn nonbare_outside_worktree_parent_is_sibling() {
    let ctx = build_context("/home/user/myproject", LayoutType::NonBare, &config_with_location("outside"));
    assert_eq!(ctx.worktree_parent, "/home/user/myproject-wts");
}

#[test]
fn nonbare_default_location_uses_inside() {
    let ctx = build_context("/home/user/myproject", LayoutType::NonBare, &default_config());
    assert_eq!(ctx.worktree_parent, "/home/user/myproject/.wts");
}

#[test]
fn nonbare_project_root_is_repo_root() {
    let ctx = build_context("/home/user/myproject", LayoutType::NonBare, &default_config());
    assert_eq!(ctx.project_root, "/home/user/myproject");
}

#[test]
fn nonbare_project_name_is_dir_name() {
    let ctx = build_context("/home/user/myproject", LayoutType::NonBare, &default_config());
    assert_eq!(ctx.project_name, "myproject");
}

#[test]
fn nonbare_worktree_folder_default_inside_is_wts() {
    let ctx = build_context("/home/user/myproject", LayoutType::NonBare, &default_config());
    assert_eq!(ctx.worktree_folder, ".wts");
}

#[test]
fn nonbare_config_folder_overrides_default() {
    let ctx = build_context("/home/user/myproject", LayoutType::NonBare, &config_with_folder("custom"));
    assert_eq!(ctx.worktree_parent, "/home/user/myproject/custom");
}

#[test]
fn detect_layout_follows_setting_then_names_then_bareness() {
    let cfg = default_config();
    let done = |r: GitStep<lazywt::layout::ProjectContext>| match r {
        GitStep::Done(c) => c.layout_type,
        GitStep::Run(_) => panic!("expected a result"),
    };
    assert_eq!(done(detect_layout("/p/.bare", &cfg, &vec![GitReply::Success("nonbare\n".to_string())])), LayoutType::NonBare);
    let r = vec![GitReply::Failure(String::new()), GitReply::Success(".repo\n".to_string())];
    assert_eq!(done(detect_layout("/t/test-project/.repo", &cfg, &r)), LayoutType::Modern);
    let r = vec![GitReply::Failure(String::new()), GitReply::Success(".repo\n".to_string()), GitReply::Success("true\n".to_string())];
    assert_eq!(done(detect_layout("/t/test-project/.other", &cfg, &r)), LayoutType::Classic);
    let r = vec![GitReply::Failure(String::new()), GitReply::Failure(String::new())];
    assert_eq!(done(detect_layout("/t/test-project/.git", &cfg, &r)), LayoutType::Modern);
    let r = vec![GitReply::Failure(String::new()), GitReply::Failure(String::new()), GitReply::Success("false\n".to_string())];
    assert_eq!(done(detect_layout("/t/project", &cfg, &r)), LayoutType::NonBare);
}

// ---- configuration ----

#[test]
fn default_values() {
    let config = Config::default();
    assert_eq!(config.command_name, "wt");
    assert_eq!(config.worktree_folder, None);
    assert_eq!(config.bare_dir, None);
    assert!(config.auto_update);
    assert!(!config.auto_navigate);
    assert_eq!(config.branch_prefix, "");
    assert!(config.copy_files.is_empty());
    assert_eq!(config.worktree_location, "inside");
}

#[test]
fn repo_config_path_appends_lazywt_json() {
    let path = repo_config_path("/some/project");
    assert!(path.ends_with("lazywt.json"));
    assert_eq!(path, "/some/project/lazywt.json");
}

#[test]
fn parse_ini_all_keys() {
    let content = "command_name = custom\nworktree_folder = trees\nauto_update = false";
    let config = Config::parse(content);
    assert_eq!(config.command_name, "custom");
    assert_eq!(config.worktree_folder, Some("trees".to_string()));
    assert!(!config.auto_update);
}

#[test]
fn parse_ini_ignores_comments() {
    let content = "# This is a comment\ncommand_name = mycmd\n# Another comment";
    let config = Config::parse(content);
    assert_eq!(config.command_name, "mycmd");
}

#[test]
fn parse_ini_handles_empty_lines() {
    let content = "\n\ncommand_name = test\n\n";
    let config = Config::parse(content);
    assert_eq!(config.command_name, "test");
}

#[test]
fn parse_ini_splits_on_first_equals_only() {
    let content = "command_name = val=ue=with=equals";
    let config = Config::parse(content);
    assert_eq!(config.command_name, "val=ue=with=equals");
}

#[test]
fn parse_ini_trims_whitespace() {
    let content = "  command_name  =  spaced  ";
    let config = Config::parse(content);
    assert_eq!(config.command_name, "spaced");
}

#[test]
fn parse_ini_handles_carriage_return() {
    let content = "command_name = test\r\nauto_update = false\r\n";
    let config = Config::parse(content);
    assert_eq!(config.command_name, "test");
    assert!(!config.auto_update);
}

#[test]
fn parse_ini_ignores_unknown_keys() {
    let content = "unknown_key = value\ncommand_name = known";
    let config = Config::parse(content);
    assert_eq!(config.command_name, "known");
}

#[test]
fn global_config_default_values() {
    let config = GlobalConfig::default();
    assert_eq!(config.command_name, "wt");
    assert_eq!(config.worktree_folder, None);
    assert!(config.auto_update);
    assert!(!config.auto_navigate);
    assert_eq!(config.branch_prefix, "");
    assert!(config.copy_files.is_empty());
    assert_eq!(config.worktree_location, "inside");
}

#[test]
fn global_config_bare_dir_default_is_none() {
    let config = GlobalConfig::default();
    assert_eq!(config.bare_dir, None);
}

#[test]
fn merge_priority_env_over_repo_over_global() {
    let global = GlobalConfig {
        command_name: "global".to_string(),
        copy_files: vec![".envrc".to_string()],
        ..GlobalConfig::default()
    };
    let repo = RepoConfig {
        command_name: Some("repo".to_string()),
        auto_navigate: Some(true),
        copy_files: Some(vec![".env".to_string()]),
        ..RepoConfig::default()
    };
    let none = EnvOverrides::none();
    let merged = merge(&global, Some(&repo), &none);
    assert_eq!(merged.command_name, "repo");
    assert!(merged.auto_navigate);
    assert_eq!(merged.copy_files, vec![".env".to_string()]);
    assert!(merged.auto_update);
    let env = EnvOverrides { rename: Some("env".to_string()), worktree_folder: Some(String::new()), auto_update: Some("false".to_string()), ..EnvOverrides::none() };
    let merged = merge(&global, Some(&repo), &env);
    assert_eq!(merged.command_name, "env");
    assert_eq!(merged.worktree_folder, Some(String::new()));
    assert!(!merged.auto_update);
    let alone = Config::load(&global, &none);
    assert_eq!(alone.command_name, "global");
    assert_eq!(alone.copy_files, vec![".envrc".to_string()]);
}

#[test]
fn default_worktree_parents_by_layout() {
    let cfg = Config::default();
    assert_eq!(build_context("/r/.git", LayoutType::Modern, &cfg).worktree_parent, "/r");
    assert_eq!(build_context("/r/.git", LayoutType::Classic, &cfg).worktree_parent, "/r/.git/trees");
}

#[test]
fn added_worktree_is_found_by_its_name() {
    let path = join("/r/trees/", "feat-x");
    assert_eq!(path, "/r/trees/feat-x");
    assert_eq!(file_name(&path), Some("feat-x".to_string()));
    let bare = Worktree { path: "/r/.git".to_string(), head: None, branch: None, is_bare: true, is_detached: false, is_locked: false, lock_reason: None, is_prunable: false };
    let wt = Worktree { path: path.clone(), head: None, branch: Some("feat-x".to_string()), is_bare: false, is_detached: false, is_locked: false, lock_reason: None, is_prunable: false };
    assert_eq!(find_worktree_by_name(&vec![bare, wt], "feat-x"), Some(1));
    assert_eq!(file_name(&join("/r", ".")), Some("r".to_string()));
}

#[test]
fn global_config_path_returns_some() {
    if let Some(path) = lazywt::config::global_config_path() {
        assert!(path.ends_with("lazywt/config.json") || path.ends_with("lazywt\\config.json"));
    }
}
