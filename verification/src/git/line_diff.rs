//! Inserted and deleted line counts, from `git diff --numstat`.
use vstd::prelude::*;

use crate::git::{make_call, output_of, reply_views, GitCallView, GitMode, GitReply, GitReplyView, GitStep};
use crate::text::{chars_of, lines, parse_u32, parse_unsigned, split, split_chars, split_lines, views};

verus! {

#[derive(Clone, Copy, Debug, PartialEq, Eq, Structural)]
pub struct LineDiff {
    pub insertions: u32,
    pub deletions: u32,
}

impl Default for LineDiff {
    fn default() -> (r: Self)
        ensures
            r.insertions == 0 && r.deletions == 0,
    {
        LineDiff { insertions: 0, deletions: 0 }
    }
}

/// The counts of one numstat line: its first two tab-separated fields, when
/// both parse as `u32` (binary files show `-` and count for nothing).
pub open spec fn numstat_entry(line: Seq<char>) -> Option<(nat, nat)> {
    let parts = split(line, '\t');
    if parts.len() >= 2 {
        match (parse_unsigned(parts[0], u32::MAX as nat), parse_unsigned(parts[1], u32::MAX as nat)) {
            (Some(a), Some(b)) => Some((a, b)),
            _ => None,
        }
    } else {
        None
    }
}

/// Sums of the counts over the given lines.
pub open spec fn numstat_sum(ls: Seq<Seq<char>>) -> (nat, nat)
    decreases ls.len(),
{
    if ls.len() == 0 {
        (0, 0)
    } else {
        let (a, b) = numstat_sum(ls.drop_last());
        match numstat_entry(ls.last()) {
            Some((x, y)) => (a + x, b + y),
            None => (a, b),
        }
    }
}

/// Total insertions and deletions that numstat output lists.
pub open spec fn numstat_totals(s: Seq<char>) -> (nat, nat) {
    numstat_sum(lines(s))
}

/// Both totals fit in `u32`.
pub open spec fn numstat_in_range(s: Seq<char>) -> bool {
    numstat_totals(s).0 <= u32::MAX && numstat_totals(s).1 <= u32::MAX
}

/// Sums over a prefix never exceed the sums over the whole.
pub proof fn lemma_numstat_sum_prefix(ls: Seq<Seq<char>>, i: int)
    requires
        0 <= i <= ls.len(),
    ensures
        numstat_sum(ls.take(i)).0 <= numstat_sum(ls).0,
        numstat_sum(ls.take(i)).1 <= numstat_sum(ls).1,
    decreases ls.len() - i,
{
    if i < ls.len() {
        lemma_numstat_sum_prefix(ls, i + 1);
        assert(ls.take(i + 1).drop_last() =~= ls.take(i));
    } else {
        assert(ls.take(i) =~= ls);
    }
}

fn numstat_entry_exec(line: &Vec<char>) -> (r: Option<(u32, u32)>)
    ensures
        r matches Some((a, b)) ==> numstat_entry(line@) == Some((a as nat, b as nat)),
        r is None ==> numstat_entry(line@) is None,
{
    let parts = split_chars(line, '\t');
    if parts.len() >= 2 {
        match (parse_u32(&parts[0]), parse_u32(&parts[1])) {
            (Some(a), Some(b)) => Some((a, b)),
            _ => None,
        }
    } else {
        None
    }
}

/// Whether the totals of numstat output fit in `u32`.
pub fn numstat_fits(output: &str) -> (r: bool)
    ensures
        r == numstat_in_range(output@),
{
    let text = chars_of(output);
    let ls = split_lines(&text);
    let ghost all = views(ls@);
    let mut ins: u64 = 0;
    let mut del: u64 = 0;
    let mut i: usize = 0;
    while i < ls.len()
        invariant
            i <= ls.len(),
            all == views(ls@),
            all == lines(output@),
            ins == numstat_sum(all.take(i as int)).0,
            del == numstat_sum(all.take(i as int)).1,
            ins <= u32::MAX && del <= u32::MAX,
        decreases ls.len() - i,
    {
        proof {
            assert(all.take(i + 1).drop_last() =~= all.take(i as int));
            assert(all.take(i + 1).last() == ls@[i as int]@);
        }
        match numstat_entry_exec(&ls[i]) {
            Some((a, b)) => {
                ins = ins + a as u64;
                del = del + b as u64;
            },
            None => {},
        }
        i = i + 1;
        if ins > u32::MAX as u64 || del > u32::MAX as u64 {
            proof {
                lemma_numstat_sum_prefix(all, i as int);
            }
            return false;
        }
    }
    assert(all.take(i as int) =~= all);
    true
}

/// Sum the counts of `git diff --numstat` output.
pub fn parse_numstat(output: &str) -> (r: LineDiff)
    requires
        numstat_in_range(output@),
    ensures
        r.insertions == numstat_totals(output@).0,
        r.deletions == numstat_totals(output@).1,
{
    let text = chars_of(output);
    let ls = split_lines(&text);
    let ghost all = views(ls@);
    let mut diff = LineDiff::default();
    let mut i: usize = 0;
    while i < ls.len()
        invariant
            i <= ls.len(),
            all == views(ls@),
            all == lines(output@),
            numstat_in_range(output@),
            diff.insertions == numstat_sum(all.take(i as int)).0,
            diff.deletions == numstat_sum(all.take(i as int)).1,
        decreases ls.len() - i,
    {
        proof {
            assert(all.take(i + 1).drop_last() =~= all.take(i as int));
            assert(all.take(i + 1).last() == ls@[i as int]@);
            lemma_numstat_sum_prefix(all, i + 1);
        }
        match numstat_entry_exec(&ls[i]) {
            Some((a, b)) => {
                diff.insertions = diff.insertions + a;
                diff.deletions = diff.deletions + b;
            },
            None => {},
        }
        i = i + 1;
    }
    assert(all.take(i as int) =~= all);
    diff
}

pub open spec fn numstat_call(dir: Seq<char>, target: Seq<char>) -> GitCallView {
    GitCallView { dir, args: seq!["diff"@, "--numstat"@, target], mode: GitMode::Output }
}

/// What a numstat query gives for its reply: the totals, or zero counts when
/// git failed.
pub open spec fn diff_from(r: GitReplyView, d: LineDiff) -> bool {
    match output_of(r) {
        Ok(out) => d.insertions == numstat_totals(out).0 && d.deletions == numstat_totals(out).1,
        Err(_) => d.insertions == 0 && d.deletions == 0,
    }
}

/// The reply holds output whose totals fit in `u32`, or is a failure.
pub open spec fn diff_reply_in_range(r: GitReplyView) -> bool {
    match output_of(r) {
        Ok(out) => numstat_in_range(out),
        Err(_) => true,
    }
}

fn numstat_query(dir: &str, target: &str, replies: &Vec<GitReply>) -> (r: GitStep<LineDiff>)
    requires
        replies.len() > 0 ==> diff_reply_in_range(reply_views(replies@)[0]),
    ensures
        replies.len() == 0 ==> (r matches GitStep::Run(c) && c@ == numstat_call(dir@, target@)),
        replies.len() > 0 ==> (r matches GitStep::Done(d) && diff_from(
            reply_views(replies@)[0],
            d,
        )),
{
    if replies.len() == 0 {
        let mut args: Vec<String> = Vec::new();
        args.push("diff".to_string());
        args.push("--numstat".to_string());
        args.push(target.to_string());
        assert(args@.map_values(|s: String| s@) =~= seq!["diff"@, "--numstat"@, target@]);
        return GitStep::Run(make_call(dir, args, GitMode::Output));
    }
    match &replies[0] {
        GitReply::Success(out) => GitStep::Done(parse_numstat(out.as_str())),
        _ => GitStep::Done(LineDiff::default()),
    }
}

/// Uncommitted line changes of the worktree at `path` (`git diff --numstat
/// HEAD`); zero when git fails.
pub fn line_diff_head(path: &str, replies: &Vec<GitReply>) -> (r: GitStep<LineDiff>)
    requires
        replies.len() > 0 ==> diff_reply_in_range(reply_views(replies@)[0]),
    ensures
        replies.len() == 0 ==> (r matches GitStep::Run(c) && c@ == numstat_call(path@, "HEAD"@)),
        replies.len() > 0 ==> (r matches GitStep::Done(d) && diff_from(
            reply_views(replies@)[0],
            d,
        )),
{
    numstat_query(path, "HEAD", replies)
}

/// Line changes over a revision range (`git diff --numstat <range>`); zero
/// when git fails.
pub fn line_diff_refs(dir: &str, range: &str, replies: &Vec<GitReply>) -> (r: GitStep<LineDiff>)
    requires
        replies.len() > 0 ==> diff_reply_in_range(reply_views(replies@)[0]),
    ensures
        replies.len() == 0 ==> (r matches GitStep::Run(c) && c@ == numstat_call(dir@, range@)),
        replies.len() > 0 ==> (r matches GitStep::Done(d) && diff_from(
            reply_views(replies@)[0],
            d,
        )),
{
    numstat_query(dir, range, replies)
}

} // verus!
