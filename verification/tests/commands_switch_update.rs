use lazywt::commands::switch::{find_worktree_matches, levenshtein, switch_direct, MatchResult, SwitchOutcome};
use lazywt::commands::update;
use lazywt::config::Config;
use lazywt::git::worktree::Worktree;
use lazywt::update_check::{
    check_for_update, extract_json_string, fetch_latest_version, format_cache,
    is_update_available, is_within_throttle_at, maybe_notify, parse_cache, FetchStep, UpdateStep,
};

#[test]
fn levenshtein_identical_strings() {
    assert_eq!(levenshtein("auth", "auth"), 0);
}

#[test]
fn levenshtein_transposition() {
    assert_eq!(levenshtein("auth", "auht"), 2);
}

#[test]
fn levenshtein_deletion() {
    assert_eq!(levenshtein("auth", "aut"), 1);
}

#[test]
fn levenshtein_empty_first() {
    assert_eq!(levenshtein("", "abc"), 3);
}

#[test]
fn levenshtein_empty_second() {
    assert_eq!(levenshtein("abc", ""), 3);
}

#[test]
fn levenshtein_both_empty() {
    assert_eq!(levenshtein("", ""), 0);
}

#[test]
fn levenshtein_classic_example() {
    assert_eq!(levenshtein("kitten", "sitting"), 3);
    assert_eq!(levenshtein("sitting", "kitten"), 3);
}

#[test]
fn find_matches_exact_returns_single() {
    let names = vec!["auth", "main", "dev"];
    let result = find_worktree_matches("auth", &names);
    assert_eq!(result, MatchResult::Exact("auth".to_string()));
}

#[test]
fn find_matches_substring_found() {
    let names = vec!["auth", "main", "dev"];
    let result = find_worktree_matches("au", &names);
    assert_eq!(result, MatchResult::Substring(vec!["auth".to_string()]));
}

#[test]
fn find_matches_no_match_returns_none() {
    let names = vec!["auth", "main", "dev"];
    let result = find_worktree_matches("xyz", &names);
    assert_eq!(result, MatchResult::NotFound);
}

#[test]
fn find_matches_levenshtein_skipped_for_short_names() {
    let names = vec!["abc", "def", "ghi"];
    let result = find_worktree_matches("a", &names);
    assert_eq!(result, MatchResult::Substring(vec!["abc".to_string()]));
}

#[test]
fn find_matches_levenshtein_skipped_for_short_input_no_substring() {
    let names = vec!["abc", "def"];
    let result = find_worktree_matches("z", &names);
    assert_eq!(result, MatchResult::NotFound);
}

#[test]
fn find_matches_substring_is_one_directional() {
    let names = vec!["auth", "main"];
    let result = find_worktree_matches("authentication", &names);
    assert_eq!(result, MatchResult::NotFound);
}

#[test]
fn find_matches_fuzzy_with_valid_distance() {
    let names = vec!["auth", "main", "dev"];
    let result = find_worktree_matches("auht", &names);
    assert_eq!(result, MatchResult::Fuzzy(vec!["auth".to_string()]));
}

#[test]
fn find_matches_multiple_substring_matches() {
    let names = vec!["auth-login", "auth-signup", "main"];
    let result = find_worktree_matches("auth", &names);
    assert_eq!(result, MatchResult::Substring(vec!["auth-login".to_string(), "auth-signup".to_string()]));
}

#[test]
fn find_matches_levenshtein_min_length_guard() {
    let names = vec!["abc"];
    let result = find_worktree_matches("ab", &names);
    assert_eq!(result, MatchResult::Substring(vec!["abc".to_string()]));
}

#[test]
fn find_matches_levenshtein_short_candidate_skipped() {
    let names = vec!["ab"];
    let result = find_worktree_matches("abc", &names);
    assert_eq!(result, MatchResult::NotFound);
}

#[test]
fn find_matches_multiple_fuzzy_candidates() {
    let names = vec!["auth", "auto", "autz", "main", "dev"];
    let result = find_worktree_matches("autx", &names);
    match result {
        MatchResult::Fuzzy(candidates) => {
            assert!(candidates.len() >= 2, "expected multiple fuzzy candidates, got: {:?}", candidates);
            assert!(candidates.contains(&"auth".to_string()), "should contain auth");
            assert!(candidates.contains(&"auto".to_string()), "should contain auto");
            assert!(candidates.contains(&"autz".to_string()), "should contain autz");
        }
        other => panic!("expected Fuzzy result, got: {:?}", other),
    }
}

#[test]
fn find_matches_fuzzy_sorted_by_distance() {
    let names2 = vec!["auth", "main", "auxh"];
    let result = find_worktree_matches("autx", &names2);
    match result {
        MatchResult::Fuzzy(candidates) => {
            assert!(candidates.len() >= 2, "should have multiple candidates: {:?}", candidates);
            let auth_pos = candidates.iter().position(|c| c == "auth");
            let auxh_pos = candidates.iter().position(|c| c == "auxh");
            assert!(auth_pos.is_some(), "auth should be in candidates");
            assert!(auxh_pos.is_some(), "auxh should be in candidates");
            assert!(auth_pos.unwrap() < auxh_pos.unwrap(), "auth should come before auxh (closer distance)");
        }
        other => panic!("expected Fuzzy result, got: {:?}", other),
    }
}

fn wt(path: &str, branch: Option<&str>, bare: bool) -> Worktree {
    Worktree {
        path: path.to_string(),
        head: None,
        branch: branch.map(|b| b.to_string()),
        is_bare: bare,
        is_detached: false,
        is_locked: false,
        lock_reason: None,
        is_prunable: false,
    }
}

#[test]
fn switch_direct_decides_by_match() {
    let ws = vec![wt("/p/.bare", None, true), wt("/p/auth", Some("auth"), false), wt("/p/auth-ui", Some("x"), false), wt("/p/main", Some("main"), false)];
    match switch_direct("main", &ws) {
        SwitchOutcome::Navigate(p) => assert_eq!(p, "/p/main"),
        _ => panic!("expected navigation"),
    }
    match switch_direct("ui", &ws) {
        SwitchOutcome::Confirm { candidate, path, .. } => {
            assert_eq!(candidate, "auth-ui");
            assert_eq!(path, "/p/auth-ui");
        }
        _ => panic!("expected a confirmation"),
    }
    match switch_direct("aut", &ws) {
        SwitchOutcome::Ambiguous { candidates, message, .. } => {
            assert_eq!(candidates, vec!["auth".to_string(), "auth-ui".to_string()]);
            assert_eq!(message, "Ambiguous match for 'aut' -- 2 candidates found");
        }
        _ => panic!("expected ambiguity"),
    }
    match switch_direct("zzz", &ws) {
        SwitchOutcome::Fail(m) => assert_eq!(m, "No worktree found matching 'zzz'"),
        _ => panic!("expected a failure"),
    }
}

// ---- update check ----

#[test]
fn extract_json_string_finds_value() {
    let body = r#"{"crate":{"max_stable_version":"1.2.3","name":"lazywt"}}"#;
    assert_eq!(extract_json_string(body, "max_stable_version"), Some("1.2.3".to_string()));
}

#[test]
fn extract_json_string_with_spaces() {
    let body = r#"{ "tag_name": "v2.0.0", "name": "Release" }"#;
    assert_eq!(extract_json_string(body, "tag_name"), Some("v2.0.0".to_string()));
}

#[test]
fn extract_json_string_missing_key() {
    let body = r#"{"name":"lazywt"}"#;
    assert_eq!(extract_json_string(body, "max_stable_version"), None);
}

#[test]
fn extract_json_string_malformed_json() {
    let body = "not json at all";
    assert_eq!(extract_json_string(body, "key"), None);
}

#[test]
fn extract_json_string_no_value_after_key() {
    let body = r#"{"key"}"#;
    assert_eq!(extract_json_string(body, "key"), None);
}

#[test]
fn extract_json_string_numeric_value() {
    let body = r#"{"count": 42, "name": "test"}"#;
    assert_eq!(extract_json_string(body, "count"), None);
}

#[test]
fn test_extract_json_string_colon_no_space() {
    let body = r#"{"key":"value"}"#;
    assert_eq!(extract_json_string(body, "key"), Some("value".to_string()));
}

#[test]
fn test_extract_json_string_empty_value() {
    let body = r#"{"key":""}"#;
    assert_eq!(extract_json_string(body, "key"), Some("".to_string()));
}

#[test]
fn test_extract_json_nested_key() {
    let body = r#"{"outer":{"inner":"nested_val"},"top":"top_val"}"#;
    assert_eq!(extract_json_string(body, "inner"), Some("nested_val".to_string()));
}

#[test]
fn update_available_newer_version() {
    assert!(is_update_available("0.1.0", "0.2.0"));
    assert!(is_update_available("1.0.0", "1.0.1"));
    assert!(is_update_available("1.0.0", "2.0.0"));
}

#[test]
fn update_not_available_same_version() {
    assert!(!is_update_available("1.0.0", "1.0.0"));
}

#[test]
fn update_not_available_older_version() {
    assert!(!is_update_available("2.0.0", "1.0.0"));
    assert!(!is_update_available("1.1.0", "1.0.0"));
}

#[test]
fn update_available_invalid_current() {
    assert!(!is_update_available("bad", "1.0.0"));
}

#[test]
fn update_available_invalid_remote() {
    assert!(!is_update_available("1.0.0", "bad"));
}

#[test]
fn update_available_both_invalid() {
    assert!(!is_update_available("bad", "worse"));
}

#[test]
fn update_available_prerelease() {
    assert!(is_update_available("1.0.0-alpha", "1.0.0"));
    assert!(!is_update_available("1.0.0", "1.0.0-alpha"));
}

#[test]
fn test_maybe_notify_update_available() {
    let notice = maybe_notify("999.0.0");
    assert_eq!(notice, Some("New version 999.0.0 available. Run `cargo install lazywt` to update.".to_string()));
}

#[test]
fn test_maybe_notify_up_to_date() {
    assert_eq!(maybe_notify("0.0.1"), None);
}

#[test]
fn test_check_for_update_with_auto_update_disabled() {
    let config = Config { auto_update: false, ..Config::default() };
    assert!(matches!(check_for_update(&config, None, now_secs()), UpdateStep::Nothing));
}

#[test]
fn test_throttle_logic_fresh_write() {
    let now = now_secs();
    let cache_ts = now;
    assert!(now.saturating_sub(cache_ts) < 86400, "Fresh timestamp should be within throttle window");
}

#[test]
fn test_throttle_logic_expired_write() {
    let now = now_secs();
    let cache_ts = now - 90000;
    assert!(now.saturating_sub(cache_ts) >= 86400, "25h-old timestamp should be outside throttle window");
}

#[test]
fn cache_round_trip_and_throttle() {
    let text = format_cache(1_700_000_000, Some("2.0.0"));
    assert_eq!(text, "1700000000\n2.0.0\n");
    assert_eq!(parse_cache(&text), Some((1_700_000_000, Some("2.0.0".to_string()))));
    let text = format_cache(5, None);
    assert_eq!(parse_cache(&text), Some((5, None)));
    assert_eq!(parse_cache("bad\n1.0.0\n"), None);
    assert_eq!(parse_cache(""), None);
    assert!(is_within_throttle_at(Some("1000\n"), 1000 + 86399));
    assert!(!is_within_throttle_at(Some("1000\n"), 1000 + 86400));
    assert!(is_within_throttle_at(Some("5000\n"), 10));
    assert!(!is_within_throttle_at(None, 10));
}

#[test]
fn check_for_update_uses_cache_within_a_day() {
    let config = Config::default();
    match check_for_update(&config, Some("1000\n999.0.0\n"), 1010) {
        UpdateStep::Notify(m) => assert!(m.contains("999.0.0")),
        _ => panic!("expected a notice"),
    }
    assert!(matches!(check_for_update(&config, Some("1000\n0.0.1\n"), 1010), UpdateStep::Nothing));
    assert!(matches!(check_for_update(&config, Some("1000\n"), 1000 + 90000), UpdateStep::Fetch));
}

#[test]
fn release_lookup_falls_back_to_github_tag() {
    assert!(matches!(fetch_latest_version(&Vec::new()), FetchStep::Get(_)));
    let replies = vec![Some(r#"{"crate":{"max_stable_version":"1.4.0"}}"#.to_string())];
    match fetch_latest_version(&replies) {
        FetchStep::Done(v) => assert_eq!(v, Some("1.4.0".to_string())),
        FetchStep::Get(_) => panic!("expected a version"),
    }
    let replies = vec![None, Some(r#"{"tag_name":"v1.5.0"}"#.to_string())];
    match fetch_latest_version(&replies) {
        FetchStep::Done(v) => assert_eq!(v, Some("1.5.0".to_string())),
        FetchStep::Get(_) => panic!("expected a version"),
    }
}

#[test]
fn explicit_update_reports_and_records() {
    let r = update::run(Some("999.0.0"), 42);
    assert!(r.success);
    assert!(r.message.starts_with("New version 999.0.0 available (current: "));
    assert_eq!(r.cache, "42\n999.0.0\n");
    let r = update::run(None, 42);
    assert!(!r.success);
    assert_eq!(r.cache, "42\n");
}

#[test]
fn test_run_update_available() {
    let r = update::run(Some("999.0.0"), 7);
    assert!(r.success);
    assert!(r.message.contains("999.0.0"));
    assert!(r.message.contains("cargo install lazywt"));
}

#[test]
fn test_run_up_to_date() {
    let current = lazywt::update_check::PACKAGE_VERSION;
    let r = update::run(Some(current), 7);
    assert!(r.success);
    assert_eq!(r.message, format!("You are on the latest version ({}).", current));
    assert_eq!(r.cache, format!("7\n{}\n", current));
}

#[test]
fn test_run_fetch_failed() {
    let r = update::run(None, 7);
    assert!(!r.success);
    assert_eq!(r.message, "Could not check for updates. You may be offline or the package is not yet published.");
    assert_eq!(r.cache, "7\n");
}

fn now_secs() -> u64 {
    std::time::SystemTime::now().duration_since(std::time::UNIX_EPOCH).map(|d| d.as_secs()).unwrap_or(0)
}

#[test]
fn test_write_and_read_cache_at_round_trip_with_version() {
    let now = now_secs();
    let text = format_cache(now, Some("2.0.0"));
    let result = parse_cache(&text);
    assert!(result.is_some(), "the cache should read back after being written");
    let (ts, version) = result.unwrap();
    assert!(now_secs().saturating_sub(ts) < 5, "timestamp should be within 5 seconds of now");
    assert_eq!(version, Some("2.0.0".to_string()));
}

#[test]
fn test_write_and_read_cache_at_round_trip_without_version() {
    let now = now_secs();
    let text = format_cache(now, None);
    let result = parse_cache(&text);
    assert!(result.is_some(), "the cache should read back after being written");
    let (ts, version) = result.unwrap();
    assert!(now_secs().saturating_sub(ts) < 5, "timestamp should be within 5 seconds of now");
    assert_eq!(version, None);
}

#[test]
fn test_is_within_throttle_at_fresh_cache() {
    let now = now_secs();
    let text = format_cache(now, None);
    assert!(is_within_throttle_at(Some(&text), now_secs()), "fresh cache should be within throttle");
}

#[test]
fn test_is_within_throttle_at_missing_cache() {
    assert!(!is_within_throttle_at(None, now_secs()), "missing cache should NOT be within throttle");
}

#[test]
fn test_check_for_update_throttled_path() {
    let now = now_secs();
    let text = format_cache(now, Some("0.0.1"));
    assert!(is_within_throttle_at(Some(&text), now), "fresh cache should be within throttle");
    let (_, cached_version) = parse_cache(&text).unwrap();
    assert_eq!(cached_version, Some("0.0.1".to_string()));
    assert_eq!(maybe_notify("0.0.1"), None);
    let config = Config { auto_update: true, ..Config::default() };
    assert!(matches!(check_for_update(&config, Some(&text), now), UpdateStep::Nothing));
}

#[test]
fn cache_keeps_an_empty_version_as_none() {
    let text = format_cache(42, Some(""));
    assert_eq!(parse_cache(&text), Some((42, None)));
}

#[test]
fn test_cache_path_returns_some_with_lazywt() {
    let path = lazywt::update_check::cache_path();
    assert!(path.is_some(), "cache_path should return Some on normal systems");
    let path_str = path.unwrap();
    assert!(path_str.contains("lazywt"), "cache_path should contain 'lazywt', got: {}", path_str);
}

#[test]
fn levenshtein_is_symmetric_and_bounded_by_length_gap() {
    assert_eq!(levenshtein("kitten", "sitting"), 3);
    assert_eq!(levenshtein("sitting", "kitten"), 3);
    assert!(levenshtein("ab", "abcde") >= 3);
    assert!(levenshtein("flaw", "lawn") <= levenshtein("flaw", "law") + levenshtein("law", "lawn"));
}

#[test]
fn installed_version_is_not_newer_than_itself() {
    assert_eq!(maybe_notify(lazywt::update_check::PACKAGE_VERSION), None);
    assert!(!is_update_available("1.2.3-beta.1", "1.2.3-beta.1"));
}
