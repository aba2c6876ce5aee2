use lazywt::commands::completions::{completion_shell, CompletionShell};
use lazywt::commands::switch::{closest_message, picker_default, previous_target};
use lazywt::commands::version::version_line;
use lazywt::navigate::{accepts_navigation, navigate_path, navigate_question, navigation_choice, NavChoice};
use lazywt::prompt::{confirm_without_asking, confirms};
use lazywt::update_check::PACKAGE_VERSION;

#[test]
fn navigation_file_prefers_lazywt_home() {
    assert_eq!(navigate_path(Some("/tmp/t"), Some("/home/u")), Some("/tmp/t/.lazywt_cd".to_string()));
    assert_eq!(navigate_path(None, Some("/home/u")), Some("/home/u/.lazywt_cd".to_string()));
    assert_eq!(navigate_path(None, None), None);
}

#[test]
fn navigation_choice_rules() {
    assert_eq!(navigation_choice(true, false), NavChoice::Go);
    assert_eq!(navigation_choice(false, true), NavChoice::Ask);
    assert_eq!(navigation_choice(false, false), NavChoice::Skip);
    assert_eq!(navigate_question("/w/main"), "  Navigate to /w/main? (y/N) ");
}

#[test]
fn navigation_answers() {
    assert!(accepts_navigation("y\n"));
    assert!(accepts_navigation(" YES "));
    assert!(!accepts_navigation("no"));
    assert!(!accepts_navigation(""));
}

#[test]
fn confirmation_rules() {
    assert_eq!(confirm_without_asking(true, false), Ok(Some(true)));
    assert_eq!(
        confirm_without_asking(false, false),
        Err("Cannot prompt for confirmation -- use --yes to skip".to_string())
    );
    assert_eq!(confirm_without_asking(false, true), Ok(None));
    assert!(confirms("y\n"));
    assert!(confirms(" Y "));
    assert!(!confirms("yes"));
    assert!(!confirms("n"));
}

#[test]
fn completion_shell_names() {
    assert_eq!(completion_shell("Bash"), Ok(CompletionShell::Bash));
    assert_eq!(completion_shell("fish"), Ok(CompletionShell::Fish));
    assert_eq!(
        completion_shell("nu"),
        Err("Unsupported shell: 'nu'. Supported: bash, zsh, powershell, fish".to_string())
    );
}

#[test]
fn version_line_names_the_package() {
    assert_eq!(version_line(), format!("lazywt {}", PACKAGE_VERSION));
}

#[test]
fn picker_selects_worktree_holding_current_directory() {
    let canon = vec![Some("/r/main".to_string()), None, Some("/r/feat".to_string())];
    assert_eq!(picker_default(Some("/r/feat/src"), &canon), Some(2));
    assert_eq!(picker_default(Some("/r/main"), &canon), Some(0));
    assert_eq!(picker_default(Some("/elsewhere"), &canon), None);
    assert_eq!(picker_default(None, &canon), None);
    assert_eq!(picker_default(Some("/r/feature"), &canon), None);
}

#[test]
fn previous_worktree_rules() {
    assert!(previous_target(None, false).unwrap_err().contains("LAZYWT_PREV is not set"));
    assert_eq!(previous_target(Some("/w/a"), true), Ok("/w/a".to_string()));
    assert_eq!(
        previous_target(Some("/w/a"), false),
        Err("Previous worktree path no longer exists: /w/a".to_string())
    );
    assert_eq!(closest_message("fea", "feature"), "No exact match for 'fea' (closest: 'feature')");
}
