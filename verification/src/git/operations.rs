//! A rebase or merge in progress in a worktree, read from its git directory.
use vstd::prelude::*;

use crate::paths::{has_root, join, path_join};
use crate::text::{chars_of, lines, split_lines, string_of, strip_prefix, strip_prefix_chars, trim, trim_chars};

verus! {

#[derive(Clone, Copy, Debug, PartialEq, Eq, Structural)]
pub enum ActiveOperation {
    Idle,
    Rebase,
    Merge,
}

/// A question about the file system.
pub enum FsQuery {
    Exists(String),
    IsDir(String),
    IsFile(String),
    /// The text of a file.
    ReadText(String),
    /// The canonical form of a path (`dunce::canonicalize`).
    Canonical(String),
    /// The current directory.
    CurrentDir,
    /// Whether two files hold the same bytes (a file that cannot be read
    /// counts as empty).
    SameBytes(String, String),
}

pub enum FsQueryView {
    Exists(Seq<char>),
    IsDir(Seq<char>),
    IsFile(Seq<char>),
    ReadText(Seq<char>),
    Canonical(Seq<char>),
    CurrentDir,
    SameBytes(Seq<char>, Seq<char>),
}

pub open spec fn query_view(q: FsQuery) -> FsQueryView {
    match q {
        FsQuery::Exists(p) => FsQueryView::Exists(p@),
        FsQuery::IsDir(p) => FsQueryView::IsDir(p@),
        FsQuery::IsFile(p) => FsQueryView::IsFile(p@),
        FsQuery::ReadText(p) => FsQueryView::ReadText(p@),
        FsQuery::Canonical(p) => FsQueryView::Canonical(p@),
        FsQuery::CurrentDir => FsQueryView::CurrentDir,
        FsQuery::SameBytes(a, b) => FsQueryView::SameBytes(a@, b@),
    }
}

/// The answer to a question: yes or no, or a text (of a file, or a path),
/// or a failure with the system's message (the file could not be read, the
/// path not resolved).
pub enum FsReply {
    Yes,
    No,
    Text(String),
    Failed(String),
}

pub enum FsReplyView {
    Yes,
    No,
    Text(Seq<char>),
    Failed(Seq<char>),
}

pub open spec fn fs_reply_view(r: FsReply) -> FsReplyView {
    match r {
        FsReply::Yes => FsReplyView::Yes,
        FsReply::No => FsReplyView::No,
        FsReply::Text(t) => FsReplyView::Text(t@),
        FsReply::Failed(m) => FsReplyView::Failed(m@),
    }
}

pub open spec fn fs_reply_views(r: Seq<FsReply>) -> Seq<FsReplyView> {
    r.map_values(|x: FsReply| fs_reply_view(x))
}

pub enum FsStep<T> {
    Ask(FsQuery),
    Done(T),
}

pub enum FsPlan<V> {
    Ask(FsQueryView),
    Done(V),
}

/// The first `gitdir: ` pointer among the lines, without that prefix.
pub open spec fn gitdir_pointer(ls: Seq<Seq<char>>) -> Option<Seq<char>>
    decreases ls.len(),
{
    if ls.len() == 0 {
        None
    } else if strip_prefix(ls[0], "gitdir: "@) is Some {
        strip_prefix(ls[0], "gitdir: "@)
    } else {
        gitdir_pointer(ls.drop_first())
    }
}

/// How the git directory of a worktree is found. A `.git` directory is the
/// git directory; a `.git` file points at it with a `gitdir: ` line,
/// relative to the worktree unless absolute, then canonicalised when that
/// works. `Done(None)`: no git directory.
pub enum GitDirPlan {
    Ask(FsQueryView),
    NoDir,
    /// The git directory, and how many replies led to it.
    Dir(Seq<char>, int),
}

pub open spec fn git_dir_plan(wt: Seq<char>, rs: Seq<FsReplyView>) -> GitDirPlan {
    let dot_git = path_join(wt, ".git"@);
    if rs.len() == 0 {
        GitDirPlan::Ask(FsQueryView::Exists(wt))
    } else if !(rs[0] is Yes) {
        GitDirPlan::NoDir
    } else if rs.len() == 1 {
        GitDirPlan::Ask(FsQueryView::IsDir(dot_git))
    } else if rs[1] is Yes {
        GitDirPlan::Dir(dot_git, 2)
    } else if rs.len() == 2 {
        GitDirPlan::Ask(FsQueryView::IsFile(dot_git))
    } else if !(rs[2] is Yes) {
        GitDirPlan::NoDir
    } else if rs.len() == 3 {
        GitDirPlan::Ask(FsQueryView::ReadText(dot_git))
    } else {
        match rs[3] {
            FsReplyView::Text(content) => match gitdir_pointer(lines(content)) {
                None => GitDirPlan::NoDir,
                Some(p) => {
                    let pointer = trim(p);
                    let gd = if has_root(pointer) {
                        pointer
                    } else {
                        path_join(wt, pointer)
                    };
                    if rs.len() == 4 {
                        GitDirPlan::Ask(FsQueryView::Canonical(gd))
                    } else {
                        match rs[4] {
                            FsReplyView::Text(c) => GitDirPlan::Dir(c, 5),
                            _ => GitDirPlan::Dir(gd, 5),
                        }
                    }
                },
            },
            _ => GitDirPlan::NoDir,
        }
    }
}

/// With the git directory known: `rebase-merge` or `rebase-apply` there
/// means a rebase, else `MERGE_HEAD` means a merge. The merge marker is
/// asked for in any case.
pub open spec fn operation_probe_plan(gd: Seq<char>, rs: Seq<FsReplyView>) -> FsPlan<ActiveOperation> {
    if rs.len() == 0 {
        FsPlan::Ask(FsQueryView::IsDir(path_join(gd, "rebase-merge"@)))
    } else if !(rs[0] is Yes) && rs.len() == 1 {
        FsPlan::Ask(FsQueryView::IsDir(path_join(gd, "rebase-apply"@)))
    } else {
        let rebase = rs[0] is Yes || rs[1] is Yes;
        let k: int = if rs[0] is Yes { 1 } else { 2 };
        if rs.len() == k {
            FsPlan::Ask(FsQueryView::IsFile(path_join(gd, "MERGE_HEAD"@)))
        } else if rebase {
            FsPlan::Done(ActiveOperation::Rebase)
        } else if rs[k] is Yes {
            FsPlan::Done(ActiveOperation::Merge)
        } else {
            FsPlan::Done(ActiveOperation::Idle)
        }
    }
}

pub open spec fn operation_plan(wt: Seq<char>, rs: Seq<FsReplyView>) -> FsPlan<ActiveOperation> {
    match git_dir_plan(wt, rs) {
        GitDirPlan::Ask(q) => FsPlan::Ask(q),
        GitDirPlan::NoDir => FsPlan::Done(ActiveOperation::Idle),
        GitDirPlan::Dir(gd, n) => operation_probe_plan(gd, rs.skip(n)),
    }
}

pub open spec fn op_step_view(r: FsStep<ActiveOperation>) -> FsPlan<ActiveOperation> {
    match r {
        FsStep::Ask(q) => FsPlan::Ask(query_view(q)),
        FsStep::Done(v) => FsPlan::Done(v),
    }
}

fn gitdir_pointer_exec(ls: &Vec<Vec<char>>) -> (r: Option<Vec<char>>)
    ensures
        crate::text::opt_chars(r) == gitdir_pointer(crate::text::views(ls@)),
{
    let prefix = chars_of("gitdir: ");
    let mut i: usize = 0;
    assert(crate::text::views(ls@).skip(0) =~= crate::text::views(ls@));
    while i < ls.len()
        invariant
            i <= ls.len(),
            prefix@ == "gitdir: "@,
            gitdir_pointer(crate::text::views(ls@).skip(i as int)) == gitdir_pointer(crate::text::views(ls@)),
        decreases ls.len() - i,
    {
        let ghost rest = crate::text::views(ls@).skip(i as int);
        assert(rest[0] == ls@[i as int]@);
        match strip_prefix_chars(&ls[i], &prefix) {
            Some(p) => {
                return Some(p);
            },
            None => {},
        }
        assert(rest.drop_first() =~= crate::text::views(ls@).skip(i + 1));
        i = i + 1;
    }
    assert(crate::text::views(ls@).skip(i as int).len() == 0);
    assert(crate::text::views(ls@).skip(0) =~= crate::text::views(ls@));
    None
}

enum GitDirFound {
    Ask(FsQuery),
    NoDir,
    Dir(String, usize),
}

fn find_git_dir(wt: &str, replies: &Vec<FsReply>) -> (r: GitDirFound)
    ensures
        match (r, git_dir_plan(wt@, fs_reply_views(replies@))) {
            (GitDirFound::Ask(q), GitDirPlan::Ask(qv)) => query_view(q) == qv,
            (GitDirFound::NoDir, GitDirPlan::NoDir) => true,
            (GitDirFound::Dir(d, n), GitDirPlan::Dir(dv, nv)) => d@ == dv && n == nv && n <= replies.len(),
            _ => false,
        },
{
    let ghost rs = fs_reply_views(replies@);
    let dot_git = join(wt, ".git");
    if replies.len() == 0 {
        return GitDirFound::Ask(FsQuery::Exists(wt.to_string()));
    }
    assert(rs[0] == fs_reply_view(replies@[0]));
    match &replies[0] {
        FsReply::Yes => {},
        _ => {
            return GitDirFound::NoDir;
        },
    }
    if replies.len() == 1 {
        return GitDirFound::Ask(FsQuery::IsDir(dot_git));
    }
    assert(rs[1] == fs_reply_view(replies@[1]));
    match &replies[1] {
        FsReply::Yes => {
            return GitDirFound::Dir(dot_git, 2);
        },
        _ => {},
    }
    if replies.len() == 2 {
        return GitDirFound::Ask(FsQuery::IsFile(dot_git));
    }
    assert(rs[2] == fs_reply_view(replies@[2]));
    match &replies[2] {
        FsReply::Yes => {},
        _ => {
            return GitDirFound::NoDir;
        },
    }
    if replies.len() == 3 {
        return GitDirFound::Ask(FsQuery::ReadText(dot_git));
    }
    assert(rs[3] == fs_reply_view(replies@[3]));
    let content = match &replies[3] {
        FsReply::Text(c) => c,
        _ => {
            return GitDirFound::NoDir;
        },
    };
    let ls = split_lines(&chars_of(content.as_str()));
    let p = match gitdir_pointer_exec(&ls) {
        Some(p) => p,
        None => {
            return GitDirFound::NoDir;
        },
    };
    let pointer = trim_chars(&p);
    let gd: String = if pointer.len() > 0 && pointer[0] == '/' {
        string_of(&pointer)
    } else {
        join(wt, string_of(&pointer).as_str())
    };
    if replies.len() == 4 {
        return GitDirFound::Ask(FsQuery::Canonical(gd));
    }
    assert(rs[4] == fs_reply_view(replies@[4]));
    match &replies[4] {
        FsReply::Text(c) => GitDirFound::Dir(c.clone(), 5),
        _ => GitDirFound::Dir(gd, 5),
    }
}

/// Whether a rebase or merge is in progress in the worktree at
/// `worktree_path`; none when the path or its `.git` is missing. A rebase
/// wins over a merge.
pub fn detect_operation(worktree_path: &str, replies: &Vec<FsReply>) -> (r: FsStep<ActiveOperation>)
    ensures
        op_step_view(r) == operation_plan(worktree_path@, fs_reply_views(replies@)),
{
    let ghost all = fs_reply_views(replies@);
    let (gd, n) = match find_git_dir(worktree_path, replies) {
        GitDirFound::Ask(q) => {
            return FsStep::Ask(q);
        },
        GitDirFound::NoDir => {
            return FsStep::Done(ActiveOperation::Idle);
        },
        GitDirFound::Dir(d, n) => (d, n),
    };
    let ghost rs = all.skip(n as int);
    let m = replies.len() - n;
    if m == 0 {
        return FsStep::Ask(FsQuery::IsDir(join(gd.as_str(), "rebase-merge")));
    }
    assert(rs[0] == fs_reply_view(replies@[n as int]));
    let first = match &replies[n] {
        FsReply::Yes => true,
        _ => false,
    };
    if !first && m == 1 {
        return FsStep::Ask(FsQuery::IsDir(join(gd.as_str(), "rebase-apply")));
    }
    let second = if first {
        false
    } else {
        assert(rs[1] == fs_reply_view(replies@[n + 1]));
        match &replies[n + 1] {
            FsReply::Yes => true,
            _ => false,
        }
    };
    let k: usize = if first {
        1
    } else {
        2
    };
    if m == k {
        return FsStep::Ask(FsQuery::IsFile(join(gd.as_str(), "MERGE_HEAD")));
    }
    assert(rs[k as int] == fs_reply_view(replies@[n + k]));
    let merge = match &replies[n + k] {
        FsReply::Yes => true,
        _ => false,
    };
    if first || second {
        FsStep::Done(ActiveOperation::Rebase)
    } else if merge {
        FsStep::Done(ActiveOperation::Merge)
    } else {
        FsStep::Done(ActiveOperation::Idle)
    }
}

} // verus!
