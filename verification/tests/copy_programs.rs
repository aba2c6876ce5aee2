use std::collections::BTreeMap;

use lazywt::commands::copy_files::copy_config_files;
use lazywt::commands::effects::{Effect, Level, Outcome};
use lazywt::commands::remove::check_copy_files_diff;
use lazywt::git::operations::{FsQuery, FsReply};

/// A small file system in memory: files with their text, and directories.
struct FakeFs {
    files: BTreeMap<String, String>,
    dirs: Vec<String>,
}

impl FakeFs {
    fn new() -> Self {
        FakeFs { files: BTreeMap::new(), dirs: vec!["/s".to_string(), "/d".to_string()] }
    }

    fn write(&mut self, path: &str, text: &str) {
        self.files.insert(path.to_string(), text.to_string());
    }
}

/// `*` matches any run of characters (a leading dot too, as `glob` does by
/// default).
fn wildcard(pattern: &str, name: &str) -> bool {
    match pattern.find('*') {
        None => pattern == name,
        Some(i) => {
            let (head, rest) = (&pattern[..i], &pattern[i + 1..]);
            if !name.starts_with(head) {
                return false;
            }
            let tail = &name[head.len()..];
            (0..=tail.len()).any(|k| tail.is_char_boundary(k) && wildcard(rest, &tail[k..]))
        }
    }
}

fn glob(fs: &FakeFs, pattern: &str) -> Vec<String> {
    let cut = pattern.rfind('/').unwrap();
    let (dir, name) = (&pattern[..cut], &pattern[cut + 1..]);
    let mut out: Vec<String> = Vec::new();
    let entries = fs.files.keys().cloned().chain(fs.dirs.iter().cloned());
    for p in entries {
        if let Some(c) = p.rfind('/') {
            if &p[..c] == dir && wildcard(name, &p[c + 1..]) {
                out.push(p.clone());
            }
        }
    }
    out.sort();
    out
}

/// Run a program against the file system: what it said, and how it ended.
fn run<F: Fn(&Vec<Outcome>) -> Effect>(fs: &mut FakeFs, step: F) -> (Vec<(Level, String)>, Result<(), String>) {
    let mut os: Vec<Outcome> = Vec::new();
    let mut said: Vec<(Level, String)> = Vec::new();
    loop {
        let o = match step(&os) {
            Effect::Finish(r) => return (said, r),
            Effect::Glob(p) => Outcome::Lines(glob(fs, &p)),
            Effect::Fs(FsQuery::IsFile(p)) => Outcome::Fs(if fs.files.contains_key(&p) { FsReply::Yes } else { FsReply::No }),
            Effect::Fs(FsQuery::Exists(p)) => Outcome::Fs(
                if fs.files.contains_key(&p) || fs.dirs.contains(&p) { FsReply::Yes } else { FsReply::No },
            ),
            Effect::Fs(FsQuery::SameBytes(a, b)) => {
                let x = fs.files.get(&a).cloned().unwrap_or_default();
                let y = fs.files.get(&b).cloned().unwrap_or_default();
                Outcome::Fs(if x == y { FsReply::Yes } else { FsReply::No })
            }
            Effect::CreateDirAll(p) => {
                fs.dirs.push(p);
                Outcome::Done(Ok(()))
            }
            Effect::CopyFile { from, to } => match fs.files.get(&from).cloned() {
                Some(t) => {
                    fs.files.insert(to, t);
                    Outcome::Done(Ok(()))
                }
                None => Outcome::Done(Err("No such file or directory (os error 2)".to_string())),
            },
            Effect::Say(l, t) => {
                said.push((l, t));
                Outcome::Ack
            }
            _ => panic!("unexpected effect"),
        };
        os.push(o);
    }
}

fn pats(ps: &[&str]) -> Vec<String> {
    ps.iter().map(|p| p.to_string()).collect()
}

#[test]
fn copy_config_files_empty_patterns() {
    let mut fs = FakeFs::new();
    let (said, r) = run(&mut fs, |os| copy_config_files("/s", "/d", &vec![], os));
    assert!(said.is_empty());
    assert_eq!(r, Ok(()));
}

#[test]
fn copy_config_files_copies_matching_file() {
    let mut fs = FakeFs::new();
    fs.write("/s/.env", "SECRET=123");
    let ps = pats(&[".env"]);
    let (said, _) = run(&mut fs, |os| copy_config_files("/s", "/d", &ps, os));
    assert_eq!(fs.files.get("/d/.env").map(|s| s.as_str()), Some("SECRET=123"));
    assert_eq!(said[0], (Level::Info, "  Copied: .env".to_string()));
    assert_eq!(said[1], (Level::Info, "  1 file(s) copied from default worktree".to_string()));
}

#[test]
fn copy_config_files_glob_pattern() {
    let mut fs = FakeFs::new();
    fs.write("/s/a.txt", "a");
    fs.write("/s/b.txt", "b");
    fs.write("/s/c.rs", "c");
    let ps = pats(&["*.txt"]);
    run(&mut fs, |os| copy_config_files("/s", "/d", &ps, os));
    assert!(fs.files.contains_key("/d/a.txt"));
    assert!(fs.files.contains_key("/d/b.txt"));
    assert!(!fs.files.contains_key("/d/c.rs"));
}

#[test]
fn copy_config_files_no_match_no_error() {
    let mut fs = FakeFs::new();
    let ps = pats(&[".env"]);
    let (said, r) = run(&mut fs, |os| copy_config_files("/s", "/d", &ps, os));
    assert!(!fs.files.contains_key("/d/.env"));
    assert!(said.is_empty());
    assert_eq!(r, Ok(()));
}

#[test]
fn copy_config_files_skips_directories() {
    let mut fs = FakeFs::new();
    fs.dirs.push("/s/subdir".to_string());
    fs.write("/s/file.txt", "data");
    let ps = pats(&["*"]);
    run(&mut fs, |os| copy_config_files("/s", "/d", &ps, os));
    assert!(fs.files.contains_key("/d/file.txt"));
    assert!(!fs.files.contains_key("/d/subdir"));
}

#[test]
fn copy_config_files_deduplicates_across_patterns() {
    let mut fs = FakeFs::new();
    fs.write("/s/.env", "data");
    let ps = pats(&[".env", "*"]);
    let (said, _) = run(&mut fs, |os| copy_config_files("/s", "/d", &ps, os));
    assert!(fs.files.contains_key("/d/.env"));
    let copies = said.iter().filter(|(_, t)| t == "  Copied: .env").count();
    assert_eq!(copies, 1);
}

#[test]
fn copy_config_files_nested_path_creates_directory() {
    let mut fs = FakeFs::new();
    fs.dirs.push("/s/config".to_string());
    fs.write("/s/config/local.toml", "x = 1");
    let ps = pats(&["config/*.toml"]);
    run(&mut fs, |os| copy_config_files("/s", "/d", &ps, os));
    assert!(fs.dirs.contains(&"/d/config".to_string()));
    assert_eq!(fs.files.get("/d/config/local.toml").map(|s| s.as_str()), Some("x = 1"));
}

#[test]
fn diff_identical_files() {
    let mut fs = FakeFs::new();
    fs.write("/s/.env", "SAME");
    fs.write("/d/.env", "SAME");
    let ps = pats(&[".env"]);
    let (said, r) = run(&mut fs, |os| check_copy_files_diff("/d", "/s", &ps, os));
    assert!(said.is_empty());
    assert_eq!(r, Ok(()));
}

#[test]
fn diff_different_files() {
    let mut fs = FakeFs::new();
    fs.write("/s/.env", "OLD");
    fs.write("/d/.env", "NEW");
    let ps = pats(&[".env"]);
    let (said, _) = run(&mut fs, |os| check_copy_files_diff("/d", "/s", &ps, os));
    let listed: Vec<&str> = said.iter().filter_map(|(_, t)| t.strip_prefix("    - ")).collect();
    assert_eq!(listed, vec![".env"]);
    assert_eq!(said[0], (Level::Warning, "  Warning: Copy-tracked files differ from default worktree:".to_string()));
}

#[test]
fn diff_missing_source_no_diff() {
    let mut fs = FakeFs::new();
    fs.write("/d/.env", "data");
    let ps = pats(&[".env"]);
    let (said, _) = run(&mut fs, |os| check_copy_files_diff("/d", "/s", &ps, os));
    assert!(said.is_empty());
}

#[test]
fn diff_empty_patterns() {
    let mut fs = FakeFs::new();
    let (said, r) = run(&mut fs, |os| check_copy_files_diff("/d", "/s", &vec![], os));
    assert!(said.is_empty());
    assert_eq!(r, Ok(()));
}
