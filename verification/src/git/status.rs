//! Dirty state and upstream tracking of a worktree, from `git status`.
use vstd::prelude::*;
use vstd::utf8::encode_utf8;

use crate::git::{args2, args3, make_call, output_of, reply_views, GitCallView, GitMode, GitReply, GitReplyView, GitStep};
use crate::text::{chars_of, has_prefix, lines, parse_u32, parse_unsigned, push_char, split_lines, split_whitespace_chars, starts_with, trim_start_char, trim_start_char_chars, utf8_bytes, views, words};

verus! {

/// Flags for the dirty state of a worktree, with its upstream tracking.
#[derive(Clone, Copy, Debug, PartialEq, Eq, Structural)]
pub struct WorktreeStatus {
    /// Changes staged in the index (`+`).
    pub has_staged: bool,
    /// Changes in the working tree (`!`).
    pub has_modified: bool,
    /// Untracked files (`?`).
    pub has_untracked: bool,
    /// Commits ahead of upstream.
    pub ahead: u32,
    /// Commits behind upstream.
    pub behind: u32,
    /// Whether a tracking branch exists.
    pub has_upstream: bool,
}

pub open spec fn clean_status() -> WorktreeStatus {
    WorktreeStatus {
        has_staged: false,
        has_modified: false,
        has_untracked: false,
        ahead: 0,
        behind: 0,
        has_upstream: false,
    }
}

impl Default for WorktreeStatus {
    fn default() -> (r: Self)
        ensures
            r == clean_status(),
    {
        WorktreeStatus {
            has_staged: false,
            has_modified: false,
            has_untracked: false,
            ahead: 0,
            behind: 0,
            has_upstream: false,
        }
    }
}

/// The compact flag string: `+` staged, `!` modified, `?` untracked, in
/// that order.
pub open spec fn status_symbols(st: WorktreeStatus) -> Seq<char> {
    (if st.has_staged { seq!['+'] } else { seq![] }) + (if st.has_modified {
        seq!['!']
    } else {
        seq![]
    }) + (if st.has_untracked { seq!['?'] } else { seq![] })
}

pub open spec fn status_clean(st: WorktreeStatus) -> bool {
    !st.has_staged && !st.has_modified && !st.has_untracked
}

impl WorktreeStatus {
    /// The flags as a compact string: `"+!?"` or a part of it; empty when
    /// clean.
    pub fn symbols(&self) -> (r: String)
        ensures
            r@ == status_symbols(*self),
    {
        let mut s = String::new();
        if self.has_staged {
            push_char(&mut s, '+');
        }
        if self.has_modified {
            push_char(&mut s, '!');
        }
        if self.has_untracked {
            push_char(&mut s, '?');
        }
        assert(s@ =~= status_symbols(*self));
        s
    }

    /// No staged, modified or untracked changes.
    pub fn is_clean(&self) -> (r: bool)
        ensures
            r == status_clean(*self),
    {
        !self.has_staged && !self.has_modified && !self.has_untracked
    }
}

/// A status is clean exactly when it shows no symbols.
pub proof fn lemma_clean_iff_no_symbols(st: WorktreeStatus)
    ensures
        status_clean(st) <==> status_symbols(st).len() == 0,
{
}

/// All three dirty flags are set; reading stops there.
pub open spec fn all_dirty(st: WorktreeStatus) -> bool {
    st.has_staged && st.has_modified && st.has_untracked
}

/// One line of `git status --porcelain`: its first two bytes are the index
/// and the working-tree state.
pub open spec fn v1_line(st: WorktreeStatus, line: Seq<char>) -> WorktreeStatus {
    let b = encode_utf8(line);
    if b.len() < 2 {
        st
    } else if b[0] == 0x3Fu8 && b[1] == 0x3Fu8 {
        WorktreeStatus { has_untracked: true, ..st }
    } else {
        WorktreeStatus {
            has_staged: st.has_staged || (b[0] != 0x20u8 && b[0] != 0x3Fu8),
            has_modified: st.has_modified || (b[1] != 0x20u8 && b[1] != 0x3Fu8),
            ..st
        }
    }
}

pub open spec fn v1_from(ls: Seq<Seq<char>>, i: int, st: WorktreeStatus) -> WorktreeStatus
    decreases ls.len() - i,
{
    if i < 0 || i >= ls.len() || all_dirty(st) {
        st
    } else {
        v1_from(ls, i + 1, v1_line(st, ls[i]))
    }
}

/// The status that `git status --porcelain` output describes.
pub open spec fn porcelain_status(s: Seq<char>) -> WorktreeStatus {
    v1_from(lines(s), 0, clean_status())
}

/// A number field of `# branch.ab`, after dropping its sign characters; 0
/// when it does not parse as `u32`.
pub open spec fn count_field(s: Seq<char>, sign: char) -> u32 {
    match parse_unsigned(trim_start_char(s, sign), u32::MAX as nat) {
        Some(n) => n as u32,
        None => 0,
    }
}

/// One line of `git status --porcelain=v2 --branch`.
pub open spec fn v2_line(st: WorktreeStatus, line: Seq<char>) -> WorktreeStatus {
    if starts_with(line, "# branch.ab "@) {
        let parts = words(line);
        if parts.len() >= 4 {
            WorktreeStatus {
                ahead: count_field(parts[2], '+'),
                behind: count_field(parts[3], '-'),
                ..st
            }
        } else {
            st
        }
    } else if starts_with(line, "# branch.upstream "@) {
        WorktreeStatus { has_upstream: true, ..st }
    } else if starts_with(line, "#"@) {
        st
    } else if starts_with(line, "?"@) {
        WorktreeStatus { has_untracked: true, ..st }
    } else if starts_with(line, "1"@) || starts_with(line, "2"@) {
        let b = encode_utf8(line);
        if b.len() >= 4 {
            WorktreeStatus {
                has_staged: st.has_staged || b[2] != 0x2Eu8,
                has_modified: st.has_modified || b[3] != 0x2Eu8,
                ..st
            }
        } else {
            st
        }
    } else if starts_with(line, "u"@) {
        WorktreeStatus { has_staged: true, has_modified: true, ..st }
    } else {
        st
    }
}

pub open spec fn v2_from(ls: Seq<Seq<char>>, i: int, st: WorktreeStatus) -> WorktreeStatus
    decreases ls.len() - i,
{
    if i < 0 || i >= ls.len() || all_dirty(st) {
        st
    } else {
        v2_from(ls, i + 1, v2_line(st, ls[i]))
    }
}

/// The status that `git status --porcelain=v2 --branch` output describes.
pub open spec fn porcelain_v2_status(s: Seq<char>) -> WorktreeStatus {
    v2_from(lines(s), 0, clean_status())
}

fn v1_line_exec(st: WorktreeStatus, line: &Vec<char>) -> (r: WorktreeStatus)
    ensures
        r == v1_line(st, line@),
{
    let b = utf8_bytes(line);
    if b.len() < 2 {
        return st;
    }
    let index_char = b[0];
    let tree_char = b[1];
    let mut out = st;
    if index_char == 0x3Fu8 && tree_char == 0x3Fu8 {
        out.has_untracked = true;
    } else {
        if index_char != 0x20u8 && index_char != 0x3Fu8 {
            out.has_staged = true;
        }
        if tree_char != 0x20u8 && tree_char != 0x3Fu8 {
            out.has_modified = true;
        }
    }
    out
}

/// Parse `git status --porcelain` output: `??` marks an untracked file; an
/// index byte other than space and `?` a staged change; a working-tree byte
/// other than those a modification.
pub fn parse_porcelain(output: &str) -> (r: WorktreeStatus)
    ensures
        r == porcelain_status(output@),
{
    let text = chars_of(output);
    let ls = split_lines(&text);
    let mut st = WorktreeStatus::default();
    let mut i: usize = 0;
    while i < ls.len()
        invariant
            i <= ls.len(),
            views(ls@) == lines(text@),
            text@ == output@,
            v1_from(views(ls@), i as int, st) == porcelain_status(output@),
        ensures
            v1_from(views(ls@), i as int, st) == porcelain_status(output@),
            i == ls.len() || all_dirty(st),
        decreases ls.len() - i,
    {
        if st.has_staged && st.has_modified && st.has_untracked {
            break;
        }
        st = v1_line_exec(st, &ls[i]);
        i = i + 1;
    }
    assert(v1_from(views(ls@), i as int, st) == st);
    st
}

fn count_field_exec(s: &Vec<char>, sign: char) -> (r: u32)
    ensures
        r == count_field(s@, sign),
{
    let t = trim_start_char_chars(s, sign);
    match parse_u32(&t) {
        Some(n) => n,
        None => 0,
    }
}

fn v2_line_exec(st: WorktreeStatus, line: &Vec<char>) -> (r: WorktreeStatus)
    ensures
        r == v2_line(st, line@),
{
    let mut out = st;
    if has_prefix(line, &chars_of("# branch.ab ")) {
        let parts = split_whitespace_chars(line);
        if parts.len() >= 4 {
            out.ahead = count_field_exec(&parts[2], '+');
            out.behind = count_field_exec(&parts[3], '-');
        }
    } else if has_prefix(line, &chars_of("# branch.upstream ")) {
        out.has_upstream = true;
    } else if has_prefix(line, &chars_of("#")) {
    } else if has_prefix(line, &chars_of("?")) {
        out.has_untracked = true;
    } else if has_prefix(line, &chars_of("1")) || has_prefix(line, &chars_of("2")) {
        let b = utf8_bytes(line);
        if b.len() >= 4 {
            if b[2] != 0x2Eu8 {
                out.has_staged = true;
            }
            if b[3] != 0x2Eu8 {
                out.has_modified = true;
            }
        }
    } else if has_prefix(line, &chars_of("u")) {
        out.has_staged = true;
        out.has_modified = true;
    }
    out
}

/// Parse `git status --porcelain=v2 --branch` output: `# branch.ab +N -M`
/// gives ahead and behind, `# branch.upstream` the upstream, entries `1`/`2`
/// their XY bytes, `?` untracked files and `u` unmerged ones.
pub fn parse_porcelain_v2(output: &str) -> (r: WorktreeStatus)
    ensures
        r == porcelain_v2_status(output@),
{
    let text = chars_of(output);
    let ls = split_lines(&text);
    let mut st = WorktreeStatus::default();
    let mut i: usize = 0;
    while i < ls.len()
        invariant
            i <= ls.len(),
            views(ls@) == lines(text@),
            text@ == output@,
            v2_from(views(ls@), i as int, st) == porcelain_v2_status(output@),
        ensures
            v2_from(views(ls@), i as int, st) == porcelain_v2_status(output@),
            i == ls.len() || all_dirty(st),
        decreases ls.len() - i,
    {
        if st.has_staged && st.has_modified && st.has_untracked {
            break;
        }
        st = v2_line_exec(st, &ls[i]);
        i = i + 1;
    }
    assert(v2_from(views(ls@), i as int, st) == st);
    st
}

// ------------------------------------------------------------------
// Queries
// ------------------------------------------------------------------

pub open spec fn status_call(path: Seq<char>) -> GitCallView {
    GitCallView { dir: path, args: seq!["status"@, "--porcelain"@], mode: GitMode::Output }
}

pub open spec fn status_v2_call(path: Seq<char>) -> GitCallView {
    GitCallView {
        dir: path,
        args: seq!["status"@, "--porcelain=v2"@, "--branch"@],
        mode: GitMode::Output,
    }
}

/// What the plain status query gives for one reply: the parsed output, or
/// a clean status when git failed.
pub open spec fn status_from(r: GitReplyView) -> WorktreeStatus {
    match output_of(r) {
        Ok(out) => porcelain_status(out),
        Err(_) => clean_status(),
    }
}

/// The dirty status of the worktree at `path` (`git status --porcelain`);
/// clean when git fails, so that one broken worktree does not stop a listing.
pub fn worktree_status(path: &str, replies: &Vec<GitReply>) -> (r: GitStep<WorktreeStatus>)
    ensures
        replies.len() == 0 ==> (r matches GitStep::Run(c) && c@ == status_call(path@)),
        replies.len() > 0 ==> (r matches GitStep::Done(st) && st == status_from(
            reply_views(replies@)[0],
        )),
{
    if replies.len() == 0 {
        return GitStep::Run(make_call(path, args2("status", "--porcelain"), GitMode::Output));
    }
    match &replies[0] {
        GitReply::Success(out) => GitStep::Done(parse_porcelain(out.as_str())),
        _ => GitStep::Done(WorktreeStatus::default()),
    }
}

/// Dirty status with upstream ahead/behind (`git status --porcelain=v2
/// --branch`); when that fails, the plain status query is asked instead.
pub fn extended_worktree_status(path: &str, replies: &Vec<GitReply>) -> (r: GitStep<
    WorktreeStatus,
>)
    ensures
        replies.len() == 0 ==> (r matches GitStep::Run(c) && c@ == status_v2_call(path@)),
        replies.len() > 0 && output_of(reply_views(replies@)[0]) is Ok ==> (r matches GitStep::Done(
            st,
        ) && st == porcelain_v2_status(output_of(reply_views(replies@)[0])->Ok_0)),
        replies.len() == 1 && output_of(reply_views(replies@)[0]) is Err ==> (r matches GitStep::Run(
            c,
        ) && c@ == status_call(path@)),
        replies.len() > 1 && output_of(reply_views(replies@)[0]) is Err ==> (r matches GitStep::Done(
            st,
        ) && st == status_from(reply_views(replies@)[1])),
{
    if replies.len() == 0 {
        return GitStep::Run(
            make_call(path, args3("status", "--porcelain=v2", "--branch"), GitMode::Output),
        );
    }
    match &replies[0] {
        GitReply::Success(out) => GitStep::Done(parse_porcelain_v2(out.as_str())),
        _ => {
            if replies.len() == 1 {
                GitStep::Run(make_call(path, args2("status", "--porcelain"), GitMode::Output))
            } else {
                match &replies[1] {
                    GitReply::Success(out) => GitStep::Done(parse_porcelain(out.as_str())),
                    _ => GitStep::Done(WorktreeStatus::default()),
                }
            }
        },
    }
}

} // verus!
