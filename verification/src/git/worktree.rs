//! `git worktree list --porcelain`.
use vstd::prelude::*;

use crate::git::{args3, make_call, output_of, reply_views, GitCallView, GitMode, GitReply, GitStep};
use crate::text::{
    chars_eq, chars_of, has_prefix, lines, opt_chars, opt_string, opt_view, split_lines,
    starts_with, string_of, strip_prefix, strip_prefix_chars, views,
};

verus! {

/// One worktree record.
pub struct Worktree {
    pub path: String,
    pub head: Option<String>,
    pub branch: Option<String>,
    pub is_bare: bool,
    pub is_detached: bool,
    pub is_locked: bool,
    pub lock_reason: Option<String>,
    pub is_prunable: bool,
}

pub struct WorktreeView {
    pub path: Seq<char>,
    pub head: Option<Seq<char>>,
    pub branch: Option<Seq<char>>,
    pub is_bare: bool,
    pub is_detached: bool,
    pub is_locked: bool,
    pub lock_reason: Option<Seq<char>>,
    pub is_prunable: bool,
}

impl View for Worktree {
    type V = WorktreeView;

    open spec fn view(&self) -> WorktreeView {
        WorktreeView {
            path: self.path@,
            head: opt_view(self.head),
            branch: opt_view(self.branch),
            is_bare: self.is_bare,
            is_detached: self.is_detached,
            is_locked: self.is_locked,
            lock_reason: opt_view(self.lock_reason),
            is_prunable: self.is_prunable,
        }
    }
}

impl Clone for Worktree {
    fn clone(&self) -> (r: Self)
        ensures
            r@ == self@,
    {
        Worktree {
            path: self.path.clone(),
            head: clone_opt(&self.head),
            branch: clone_opt(&self.branch),
            is_bare: self.is_bare,
            is_detached: self.is_detached,
            is_locked: self.is_locked,
            lock_reason: clone_opt(&self.lock_reason),
            is_prunable: self.is_prunable,
        }
    }
}

pub fn clone_opt(o: &Option<String>) -> (r: Option<String>)
    ensures
        opt_view(r) == opt_view(*o),
{
    match o {
        Some(s) => Some(s.clone()),
        None => None,
    }
}

/// The views of a sequence of worktrees.
pub open spec fn worktree_views(v: Seq<Worktree>) -> Seq<WorktreeView> {
    v.map_values(|w: Worktree| w@)
}

/// The record being read: what the lines so far have said.
pub struct PorcelainState {
    pub done: Seq<WorktreeView>,
    pub path: Option<Seq<char>>,
    pub head: Option<Seq<char>>,
    pub branch: Option<Seq<char>>,
    pub is_bare: bool,
    pub is_detached: bool,
    pub is_locked: bool,
    pub lock_reason: Option<Seq<char>>,
    pub is_prunable: bool,
}

pub open spec fn initial_state() -> PorcelainState {
    PorcelainState {
        done: seq![],
        path: None,
        head: None,
        branch: None,
        is_bare: false,
        is_detached: false,
        is_locked: false,
        lock_reason: None,
        is_prunable: false,
    }
}

/// Close the open record, if one has begun; with none open, nothing changes.
pub open spec fn flush(st: PorcelainState) -> PorcelainState {
    match st.path {
        Some(p) => PorcelainState {
            done: st.done.push(
                WorktreeView {
                    path: p,
                    head: st.head,
                    branch: st.branch,
                    is_bare: st.is_bare,
                    is_detached: st.is_detached,
                    is_locked: st.is_locked,
                    lock_reason: st.lock_reason,
                    is_prunable: st.is_prunable,
                },
            ),
            ..initial_state()
        },
        None => st,
    }
}

/// A branch reference without its `refs/heads/` prefix.
pub open spec fn short_branch(r: Seq<char>) -> Seq<char> {
    match strip_prefix(r, "refs/heads/"@) {
        Some(b) => b,
        None => r,
    }
}

/// What one line does to the record being read.
pub open spec fn step(st: PorcelainState, line: Seq<char>) -> PorcelainState {
    if line.len() == 0 {
        flush(st)
    } else if strip_prefix(line, "worktree "@) is Some {
        PorcelainState { path: Some(strip_prefix(line, "worktree "@)->0), ..flush(st) }
    } else if strip_prefix(line, "HEAD "@) is Some {
        PorcelainState { head: Some(strip_prefix(line, "HEAD "@)->0), ..st }
    } else if strip_prefix(line, "branch "@) is Some {
        PorcelainState { branch: Some(short_branch(strip_prefix(line, "branch "@)->0)), ..st }
    } else if line == "bare"@ {
        PorcelainState { is_bare: true, ..st }
    } else if line == "detached"@ {
        PorcelainState { is_detached: true, ..st }
    } else if line == "locked"@ {
        PorcelainState { is_locked: true, ..st }
    } else if strip_prefix(line, "locked "@) is Some {
        PorcelainState {
            is_locked: true,
            lock_reason: Some(strip_prefix(line, "locked "@)->0),
            ..st
        }
    } else if line == "prunable"@ || starts_with(line, "prunable "@) {
        PorcelainState { is_prunable: true, ..st }
    } else {
        st
    }
}

/// The state after reading the given lines.
pub open spec fn read_lines(ls: Seq<Seq<char>>) -> PorcelainState {
    ls.fold_left(initial_state(), |st: PorcelainState, l: Seq<char>| step(st, l))
}

/// The worktrees that `git worktree list --porcelain` output describes:
/// records start at `worktree <path>` lines and end at blank lines or at the
/// next record; a record still open at the end is kept.
pub open spec fn porcelain_worktrees(s: Seq<char>) -> Seq<WorktreeView> {
    flush(read_lines(lines(s))).done
}

/// Exec mirror of the record being read.
struct Reader {
    worktrees: Vec<Worktree>,
    path: Option<Vec<char>>,
    head: Option<Vec<char>>,
    branch: Option<Vec<char>>,
    is_bare: bool,
    is_detached: bool,
    is_locked: bool,
    lock_reason: Option<Vec<char>>,
    is_prunable: bool,
}

impl Reader {
    spec fn state(&self) -> PorcelainState {
        PorcelainState {
            done: worktree_views(self.worktrees@),
            path: opt_chars(self.path),
            head: opt_chars(self.head),
            branch: opt_chars(self.branch),
            is_bare: self.is_bare,
            is_detached: self.is_detached,
            is_locked: self.is_locked,
            lock_reason: opt_chars(self.lock_reason),
            is_prunable: self.is_prunable,
        }
    }

    fn flush(&mut self)
        ensures
            final(self).state() == flush(old(self).state()),
    {
        let p = self.path.take();
        match p {
            Some(p) => {
                let w = Worktree {
                    path: string_of(&p),
                    head: opt_string(self.head.take()),
                    branch: opt_string(self.branch.take()),
                    is_bare: self.is_bare,
                    is_detached: self.is_detached,
                    is_locked: self.is_locked,
                    lock_reason: opt_string(self.lock_reason.take()),
                    is_prunable: self.is_prunable,
                };
                let ghost before = worktree_views(self.worktrees@);
                self.worktrees.push(w);
                assert(worktree_views(self.worktrees@) =~= before.push(w@));
                self.is_bare = false;
                self.is_detached = false;
                self.is_locked = false;
                self.is_prunable = false;
            },
            None => {},
        }
    }

    fn step(&mut self, line: &Vec<char>)
        ensures
            final(self).state() == step(old(self).state(), line@),
    {
        let kw_worktree = chars_of("worktree ");
        let kw_head = chars_of("HEAD ");
        let kw_branch = chars_of("branch ");
        let kw_locked_sp = chars_of("locked ");
        let kw_prunable_sp = chars_of("prunable ");
        let w_bare = chars_of("bare");
        let w_detached = chars_of("detached");
        let w_locked = chars_of("locked");
        let w_prunable = chars_of("prunable");
        let refs_heads = chars_of("refs/heads/");
        if line.len() == 0 {
            self.flush();
        } else if let Some(p) = strip_prefix_chars(line, &kw_worktree) {
            self.flush();
            self.path = Some(p);
        } else if let Some(h) = strip_prefix_chars(line, &kw_head) {
            self.head = Some(h);
        } else if let Some(b) = strip_prefix_chars(line, &kw_branch) {
            let short = match strip_prefix_chars(&b, &refs_heads) {
                Some(x) => x,
                None => b,
            };
            self.branch = Some(short);
        } else if chars_eq(line, &w_bare) {
            self.is_bare = true;
        } else if chars_eq(line, &w_detached) {
            self.is_detached = true;
        } else if chars_eq(line, &w_locked) {
            self.is_locked = true;
        } else if let Some(reason) = strip_prefix_chars(line, &kw_locked_sp) {
            self.is_locked = true;
            self.lock_reason = Some(reason);
        } else if chars_eq(line, &w_prunable) || has_prefix(line, &kw_prunable_sp) {
            self.is_prunable = true;
        }
    }
}

/// Parse `git worktree list --porcelain` output into worktree records.
pub fn parse_porcelain(output: &str) -> (r: Vec<Worktree>)
    ensures
        worktree_views(r@) == porcelain_worktrees(output@),
{
    let text = chars_of(output);
    let ls = split_lines(&text);
    let mut rd = Reader {
        worktrees: Vec::new(),
        path: None,
        head: None,
        branch: None,
        is_bare: false,
        is_detached: false,
        is_locked: false,
        lock_reason: None,
        is_prunable: false,
    };
    assert(rd.state().done =~= Seq::<WorktreeView>::empty());
    let mut i: usize = 0;
    while i < ls.len()
        invariant
            i <= ls.len(),
            views(ls@) == lines(text@),
            rd.state() == read_lines(views(ls@).take(i as int)),
        decreases ls.len() - i,
    {
        rd.step(&ls[i]);
        proof {
            let all = views(ls@);
            assert(all.take(i + 1).drop_last() =~= all.take(i as int));
            assert(all.take(i + 1).last() == ls@[i as int]@);
        }
        i = i + 1;
    }
    assert(views(ls@).take(ls.len() as int) =~= views(ls@));
    rd.flush();
    rd.worktrees
}

pub open spec fn worktree_list_call(dir: Seq<char>) -> GitCallView {
    GitCallView { dir, args: seq!["worktree"@, "list"@, "--porcelain"@], mode: GitMode::Output }
}

/// The message given when `git worktree list --porcelain` fails.
pub open spec fn list_failed_message() -> Seq<char> {
    "Failed to list worktrees. Your git version may not support --porcelain.\n   Please upgrade git to version 2.7 or later."@
}

/// The worktrees of the repository at `project_dir`.
pub fn list_worktrees(project_dir: &str, replies: &Vec<GitReply>) -> (r: GitStep<Result<Vec<Worktree>, String>>)
    ensures
        replies.len() == 0 ==> (r matches GitStep::Run(c) && c@ == worktree_list_call(project_dir@)),
        replies.len() > 0 ==> (r matches GitStep::Done(res) && match output_of(reply_views(replies@)[0]) {
            Ok(out) => res is Ok && worktree_views(res->Ok_0@) == porcelain_worktrees(out),
            Err(_) => res is Err && res->Err_0@ == list_failed_message(),
        }),
{
    if replies.len() == 0 {
        return GitStep::Run(make_call(project_dir, args3("worktree", "list", "--porcelain"), GitMode::Output));
    }
    match &replies[0] {
        GitReply::Success(out) => GitStep::Done(Ok(parse_porcelain(out.as_str()))),
        _ => GitStep::Done(Err("Failed to list worktrees. Your git version may not support --porcelain.\n   Please upgrade git to version 2.7 or later.".to_string())),
    }
}

} // verus!
