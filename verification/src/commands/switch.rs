//! Choosing the worktree to switch to: exact, substring and edit-distance
//! matches on worktree directory names.
use vstd::prelude::*;

use crate::git::worktree::{list_worktrees, porcelain_worktrees, worktree_views, Worktree, WorktreeView};
use crate::git::{output_of, reply_views, GitReply, GitStep};
use crate::layout::ProjectContext;
use crate::paths::{file_name, path_file_name};
use crate::text::{chars_eq, chars_of, concat, contains, contains_exec, decimal, opt_view, string_of, u64_to_chars};

verus! {

// ------------------------------------------------------------------
// Edit distance
// ------------------------------------------------------------------

pub open spec fn min3(a: int, b: int, c: int) -> int {
    let m = if a < b { a } else { b };
    if m < c { m } else { c }
}

/// Levenshtein distance between two character sequences: insertions,
/// deletions and substitutions each cost one.
pub open spec fn edit_distance(a: Seq<char>, b: Seq<char>) -> int
    decreases a.len() + b.len(),
{
    if a.len() == 0 {
        b.len() as int
    } else if b.len() == 0 {
        a.len() as int
    } else {
        min3(
            edit_distance(a.drop_last(), b) + 1,
            edit_distance(a, b.drop_last()) + 1,
            edit_distance(a.drop_last(), b.drop_last()) + if a.last() == b.last() {
                0int
            } else {
                1int
            },
        )
    }
}

/// The distance lies between 0 and the longer length.
pub proof fn lemma_edit_distance_bounds(a: Seq<char>, b: Seq<char>)
    ensures
        0 <= edit_distance(a, b),
        edit_distance(a, b) <= if a.len() > b.len() { a.len() as int } else { b.len() as int },
    decreases a.len() + b.len(),
{
    if a.len() > 0 && b.len() > 0 {
        lemma_edit_distance_bounds(a.drop_last(), b);
        lemma_edit_distance_bounds(a, b.drop_last());
        lemma_edit_distance_bounds(a.drop_last(), b.drop_last());
    }
}

/// A string is at distance 0 from itself, and only from itself.
pub proof fn lemma_edit_distance_zero(a: Seq<char>, b: Seq<char>)
    ensures
        edit_distance(a, b) == 0 <==> a == b,
    decreases a.len() + b.len(),
{
    lemma_edit_distance_bounds(a, b);
    if a.len() > 0 && b.len() > 0 {
        lemma_edit_distance_zero(a.drop_last(), b.drop_last());
        lemma_edit_distance_bounds(a.drop_last(), b);
        lemma_edit_distance_bounds(a, b.drop_last());
        lemma_edit_distance_bounds(a.drop_last(), b.drop_last());
        if a == b {
            assert(a.drop_last() == b.drop_last());
        }
        if edit_distance(a, b) == 0 {
            assert(a.drop_last() =~= b.drop_last());
            assert(a =~= a.drop_last().push(a.last()));
            assert(b =~= b.drop_last().push(b.last()));
        }
    } else if a.len() == 0 && b.len() > 0 {
        assert(a != b);
    } else if a.len() > 0 && b.len() == 0 {
        assert(a != b);
    } else {
        assert(a =~= b);
    }
}

/// The distance does not depend on the direction.
pub proof fn lemma_edit_distance_symmetric(a: Seq<char>, b: Seq<char>)
    ensures
        edit_distance(a, b) == edit_distance(b, a),
    decreases a.len() + b.len(),
{
    if a.len() > 0 && b.len() > 0 {
        lemma_edit_distance_symmetric(a.drop_last(), b);
        lemma_edit_distance_symmetric(a, b.drop_last());
        lemma_edit_distance_symmetric(a.drop_last(), b.drop_last());
    }
}

/// The distance is at least the difference of the lengths.
pub proof fn lemma_edit_distance_length_gap(a: Seq<char>, b: Seq<char>)
    ensures
        a.len() - b.len() <= edit_distance(a, b),
        b.len() - a.len() <= edit_distance(a, b),
    decreases a.len() + b.len(),
{
    if a.len() > 0 && b.len() > 0 {
        lemma_edit_distance_length_gap(a.drop_last(), b);
        lemma_edit_distance_length_gap(a, b.drop_last());
        lemma_edit_distance_length_gap(a.drop_last(), b.drop_last());
    }
}

/// Going through a third string is never shorter.
pub proof fn lemma_edit_distance_triangle(a: Seq<char>, b: Seq<char>, c: Seq<char>)
    ensures
        edit_distance(a, c) <= edit_distance(a, b) + edit_distance(b, c),
    decreases a.len() + b.len() + c.len(),
{
    lemma_edit_distance_bounds(a, c);
    lemma_edit_distance_length_gap(a, b);
    lemma_edit_distance_length_gap(b, c);
    if a.len() > 0 && b.len() > 0 && c.len() > 0 {
        let a1 = a.drop_last();
        let b1 = b.drop_last();
        let c1 = c.drop_last();
        lemma_edit_distance_triangle(a1, b, c);
        lemma_edit_distance_triangle(a, b, c1);
        lemma_edit_distance_triangle(a, b1, c);
        lemma_edit_distance_triangle(a, b1, c1);
        lemma_edit_distance_triangle(a1, b1, c);
        lemma_edit_distance_triangle(a1, b1, c1);
        lemma_edit_distance_bounds(a1, c);
        lemma_edit_distance_bounds(a, c1);
    }
}

/// One change to a text: insert a character before position `i`, delete
/// the character at `i`, or replace it.
pub enum CharEdit {
    Insert(int, char),
    Delete(int),
    Substitute(int, char),
}

/// The text after one change, if the position fits.
pub open spec fn apply_edit(s: Seq<char>, e: CharEdit) -> Option<Seq<char>> {
    match e {
        CharEdit::Insert(i, x) => if 0 <= i <= s.len() {
            Some(s.insert(i, x))
        } else {
            None
        },
        CharEdit::Delete(i) => if 0 <= i < s.len() {
            Some(s.remove(i))
        } else {
            None
        },
        CharEdit::Substitute(i, x) => if 0 <= i < s.len() {
            Some(s.update(i, x))
        } else {
            None
        },
    }
}

/// The text after the changes, made in order, if every position fits.
pub open spec fn apply_edits(s: Seq<char>, es: Seq<CharEdit>) -> Option<Seq<char>>
    decreases es.len(),
{
    if es.len() == 0 {
        Some(s)
    } else {
        match apply_edit(s, es[0]) {
            Some(t) => apply_edits(t, es.drop_first()),
            None => None,
        }
    }
}

proof fn lemma_delete_one(s: Seq<char>, i: int)
    requires
        0 <= i < s.len(),
    ensures
        edit_distance(s, s.remove(i)) <= 1,
    decreases s.len(),
{
    let t = s.remove(i);
    lemma_edit_distance_zero(s.drop_last(), s.drop_last());
    if i == s.len() - 1 {
        assert(t =~= s.drop_last());
        if t.len() > 0 {
            lemma_edit_distance_bounds(s.drop_last(), t);
        }
    } else {
        let s1 = s.drop_last();
        assert(s1.remove(i) =~= t.drop_last());
        assert(t.last() == s.last());
        lemma_delete_one(s1, i);
        lemma_edit_distance_bounds(s, t.drop_last());
        lemma_edit_distance_bounds(s1, t);
    }
}

proof fn lemma_substitute_one(s: Seq<char>, i: int, x: char)
    requires
        0 <= i < s.len(),
    ensures
        edit_distance(s, s.update(i, x)) <= 1,
    decreases s.len(),
{
    let t = s.update(i, x);
    let s1 = s.drop_last();
    lemma_edit_distance_zero(s1, s1);
    lemma_edit_distance_bounds(s1, t);
    lemma_edit_distance_bounds(s, t.drop_last());
    if i == s.len() - 1 {
        assert(t.drop_last() =~= s1);
    } else {
        assert(s1.update(i, x) =~= t.drop_last());
        assert(t.last() == s.last());
        lemma_substitute_one(s1, i, x);
    }
}

/// One change moves a text by at most one.
pub proof fn lemma_one_edit(s: Seq<char>, e: CharEdit)
    requires
        apply_edit(s, e) is Some,
    ensures
        edit_distance(s, apply_edit(s, e)->Some_0) <= 1,
{
    let t = apply_edit(s, e)->Some_0;
    match e {
        CharEdit::Insert(i, x) => {
            assert(t.remove(i) =~= s);
            lemma_delete_one(t, i);
            lemma_edit_distance_symmetric(s, t);
        },
        CharEdit::Delete(i) => {
            lemma_delete_one(s, i);
        },
        CharEdit::Substitute(i, x) => {
            lemma_substitute_one(s, i, x);
        },
    }
}

proof fn lemma_apply_single(s: Seq<char>, e: CharEdit)
    ensures
        apply_edits(s, Seq::<CharEdit>::empty().push(e)) == apply_edit(s, e),
{
    let es = Seq::<CharEdit>::empty().push(e);
    assert(es.len() == 1);
    assert(es[0] == e);
    assert(es.drop_first() =~= Seq::<CharEdit>::empty());
    match apply_edit(s, e) {
        Some(t) => {
            assert(apply_edits(t, es.drop_first()) == Some(t));
        },
        None => {},
    }
}

/// No sequence of changes from one text to another is shorter than their
/// distance.
pub proof fn lemma_edit_distance_minimal(a: Seq<char>, b: Seq<char>, es: Seq<CharEdit>)
    requires
        apply_edits(a, es) == Some(b),
    ensures
        edit_distance(a, b) <= es.len(),
    decreases es.len(),
{
    if es.len() == 0 {
        lemma_edit_distance_zero(a, b);
    } else {
        let t = apply_edit(a, es[0])->Some_0;
        lemma_one_edit(a, es[0]);
        lemma_edit_distance_minimal(t, b, es.drop_first());
        lemma_edit_distance_triangle(a, t, b);
    }
}

proof fn lemma_apply_edits_append(s: Seq<char>, es1: Seq<CharEdit>, es2: Seq<CharEdit>)
    ensures
        apply_edits(s, es1 + es2) == match apply_edits(s, es1) {
            Some(t) => apply_edits(t, es2),
            None => None,
        },
    decreases es1.len(),
{
    if es1.len() == 0 {
        assert(es1 + es2 =~= es2);
    } else {
        assert((es1 + es2).drop_first() =~= es1.drop_first() + es2);
        assert((es1 + es2)[0] == es1[0]);
        match apply_edit(s, es1[0]) {
            Some(t) => lemma_apply_edits_append(t, es1.drop_first(), es2),
            None => {},
        }
    }
}

proof fn lemma_apply_edits_push(s: Seq<char>, es: Seq<CharEdit>, x: char)
    requires
        apply_edits(s, es) is Some,
    ensures
        apply_edits(s.push(x), es) == Some(apply_edits(s, es)->Some_0.push(x)),
    decreases es.len(),
{
    if es.len() > 0 {
        let t = apply_edit(s, es[0])->Some_0;
        match es[0] {
            CharEdit::Insert(i, c) => {
                assert(s.push(x).insert(i, c) =~= t.push(x));
            },
            CharEdit::Delete(i) => {
                assert(s.push(x).remove(i) =~= t.push(x));
            },
            CharEdit::Substitute(i, c) => {
                assert(s.push(x).update(i, c) =~= t.push(x));
            },
        }
        lemma_apply_edits_push(t, es.drop_first(), x);
    }
}

proof fn lemma_append_edit(a: Seq<char>, es1: Seq<CharEdit>, e: CharEdit)
    requires
        apply_edits(a, es1) is Some,
    ensures
        apply_edits(a, es1 + Seq::<CharEdit>::empty().push(e)) == apply_edit(apply_edits(a, es1)->Some_0, e),
        (es1 + Seq::<CharEdit>::empty().push(e)).len() == es1.len() + 1,
{
    lemma_apply_edits_append(a, es1, Seq::<CharEdit>::empty().push(e));
    lemma_apply_single(apply_edits(a, es1)->Some_0, e);
}

proof fn lemma_prepend_edit(a: Seq<char>, e: CharEdit, es1: Seq<CharEdit>)
    requires
        apply_edit(a, e) is Some,
    ensures
        apply_edits(a, Seq::<CharEdit>::empty().push(e) + es1) == apply_edits(apply_edit(a, e)->Some_0, es1),
        (Seq::<CharEdit>::empty().push(e) + es1).len() == es1.len() + 1,
{
    lemma_apply_edits_append(a, Seq::<CharEdit>::empty().push(e), es1);
    lemma_apply_single(a, e);
}

proof fn diagonal_script(a: Seq<char>, b: Seq<char>, es1: Seq<CharEdit>, y: char) -> (es: Seq<CharEdit>)
    requires
        a.len() > 0,
        b.len() > 0,
        y == b.last(),
        apply_edits(a.drop_last(), es1) == Some(b.drop_last()),
    ensures
        apply_edits(a, es) == Some(b),
        es.len() == es1.len() + if a.last() == b.last() { 0int } else { 1int },
{
    let a1 = a.drop_last();
    let b1 = b.drop_last();
    lemma_apply_edits_push(a1, es1, a.last());
    assert(a1.push(a.last()) =~= a);
    let mid = b1.push(a.last());
    assert(apply_edits(a, es1) == Some(mid));
    if a.last() == y {
        assert(mid =~= b);
        es1
    } else {
        let step = CharEdit::Substitute(b.len() - 1, y);
        assert(mid.update(b.len() - 1, y) =~= b);
        lemma_append_edit(a, es1, step);
        es1 + Seq::<CharEdit>::empty().push(step)
    }
}

proof fn insert_script(a: Seq<char>, b: Seq<char>, es1: Seq<CharEdit>, y: char) -> (es: Seq<CharEdit>)
    requires
        b.len() > 0,
        y == b.last(),
        apply_edits(a, es1) == Some(b.drop_last()),
    ensures
        apply_edits(a, es) == Some(b),
        es.len() == es1.len() + 1,
{
    let b1 = b.drop_last();
    let step = CharEdit::Insert(b.len() - 1, y);
    assert(b1.insert(b.len() - 1, y) =~= b);
    lemma_append_edit(a, es1, step);
    es1 + Seq::<CharEdit>::empty().push(step)
}

/// A sequence of changes as short as the distance: the distance is the
/// least number of insertions, deletions and substitutions that turn one
/// text into the other.
pub proof fn edit_script(a: Seq<char>, b: Seq<char>) -> (es: Seq<CharEdit>)
    ensures
        apply_edits(a, es) == Some(b),
        es.len() == edit_distance(a, b),
    decreases a.len() + b.len(),
{
    if a.len() == 0 && b.len() == 0 {
        assert(a =~= b);
        Seq::<CharEdit>::empty()
    } else if a.len() > 0 && (b.len() == 0 || edit_distance(a, b) == edit_distance(a.drop_last(), b) + 1) {
        let step = CharEdit::Delete(a.len() - 1);
        let es1 = edit_script(a.drop_last(), b);
        assert(a.remove(a.len() - 1) =~= a.drop_last());
        lemma_prepend_edit(a, step, es1);
        Seq::<CharEdit>::empty().push(step) + es1
    } else if b.len() > 0 && (a.len() == 0 || edit_distance(a, b) == edit_distance(a, b.drop_last()) + 1) {
        let es1 = edit_script(a, b.drop_last());
        insert_script(a, b, es1, b.last())
    } else {
        let es1 = edit_script(a.drop_last(), b.drop_last());
        diagonal_script(a, b, es1, b.last())
    }
}

/// The distance between two strings' characters.
pub fn levenshtein(a: &str, b: &str) -> (r: usize)
    ensures
        r == edit_distance(a@, b@),
{
    let av = chars_of(a);
    let bv = chars_of(b);
    let m = av.len();
    let n = bv.len();
    // `prev[k]` is the distance between the first `i` characters of `a`
    // and the first `k + 1` of `b`.
    let mut prev: Vec<u128> = Vec::new();
    let mut j: usize = 0;
    while j < n
        invariant
            j <= n,
            n == bv@.len(),
            prev@.len() == j,
            forall|k: int| 0 <= k < j ==> prev@[k] == edit_distance(av@.take(0), bv@.take(k + 1)),
        decreases n - j,
    {
        proof {
            assert(av@.take(0).len() == 0);
        }
        prev.push(j as u128 + 1);
        j = j + 1;
    }
    let mut i: usize = 0;
    while i < m
        invariant
            i <= m,
            m == av@.len(),
            n == bv@.len(),
            prev@.len() == n,
            forall|k: int| 0 <= k < n ==> prev@[k] == edit_distance(av@.take(i as int), bv@.take(k + 1)),
        decreases m - i,
    {
        let mut cur: Vec<u128> = Vec::new();
        let mut left: u128 = i as u128 + 1;
        let mut diag: u128 = i as u128;
        proof {
            assert(bv@.take(0).len() == 0);
            assert(av@.take(i + 1).len() == i + 1);
        }
        let mut jj: usize = 0;
        while jj < n
            invariant
                jj <= n,
                i < m,
                m == av@.len(),
                n == bv@.len(),
                prev@.len() == n,
                cur@.len() == jj,
                forall|k: int| 0 <= k < n ==> prev@[k] == edit_distance(av@.take(i as int), bv@.take(k + 1)),
                forall|k: int| 0 <= k < jj ==> cur@[k] == edit_distance(av@.take(i + 1), bv@.take(k + 1)),
                left == edit_distance(av@.take(i + 1), bv@.take(jj as int)),
                diag == edit_distance(av@.take(i as int), bv@.take(jj as int)),
            decreases n - jj,
        {
            let ghost x = av@.take(i + 1);
            let ghost y = bv@.take(jj + 1);
            proof {
                assert(x.drop_last() =~= av@.take(i as int));
                assert(y.drop_last() =~= bv@.take(jj as int));
                assert(x.last() == av@[i as int]);
                assert(y.last() == bv@[jj as int]);
                lemma_edit_distance_bounds(av@.take(i as int), bv@.take(jj + 1));
                lemma_edit_distance_bounds(x, bv@.take(jj as int));
                lemma_edit_distance_bounds(av@.take(i as int), bv@.take(jj as int));
            }
            let cost: u128 = if av[i] == bv[jj] {
                0
            } else {
                1
            };
            let del = prev[jj] + 1;
            let ins = left + 1;
            let sub = diag + cost;
            let mut best = if del < ins {
                del
            } else {
                ins
            };
            if sub < best {
                best = sub;
            }
            cur.push(best);
            diag = prev[jj];
            left = best;
            jj = jj + 1;
        }
        prev = cur;
        i = i + 1;
    }
    proof {
        assert(av@.take(m as int) =~= av@);
        assert(bv@.take(n as int) =~= bv@);
        lemma_edit_distance_bounds(av@, bv@);
    }
    if n == 0 {
        m
    } else {
        assert(bv@.take(n as int) =~= bv@);
        prev[n - 1] as usize
    }
}

// ------------------------------------------------------------------
// Matching names
// ------------------------------------------------------------------

/// How an input matched the worktree names.
#[derive(Debug, PartialEq)]
pub enum MatchResult {
    Exact(String),
    Substring(Vec<String>),
    Fuzzy(Vec<String>),
    NotFound,
}

/// Length in UTF-8 bytes, as `str::len` counts.
pub open spec fn byte_len(s: Seq<char>) -> nat {
    vstd::utf8::encode_utf8(s).len()
}

/// Names that contain the input, in order.
pub open spec fn substring_matches(input: Seq<char>, names: Seq<Seq<char>>) -> Seq<Seq<char>>
    decreases names.len(),
{
    if names.len() == 0 {
        seq![]
    } else {
        let rest = substring_matches(input, names.drop_last());
        if contains(names.last(), input) {
            rest.push(names.last())
        } else {
            rest
        }
    }
}

/// Names of at least three bytes at exactly distance `d` from the input, in
/// order.
pub open spec fn at_distance(input: Seq<char>, names: Seq<Seq<char>>, d: int) -> Seq<Seq<char>>
    decreases names.len(),
{
    if names.len() == 0 {
        seq![]
    } else {
        let rest = at_distance(input, names.drop_last(), d);
        if byte_len(names.last()) >= 3 && edit_distance(input, names.last()) == d {
            rest.push(names.last())
        } else {
            rest
        }
    }
}

/// The close names: when the input has at least three bytes, the names of
/// at least three bytes at distance 1, then those at distance 2, each group
/// in order (a stable sort by distance).
pub open spec fn fuzzy_matches(input: Seq<char>, names: Seq<Seq<char>>) -> Seq<Seq<char>> {
    if byte_len(input) >= 3 {
        at_distance(input, names, 1) + at_distance(input, names, 2)
    } else {
        seq![]
    }
}

pub open spec fn match_view(m: MatchResult) -> (int, Seq<Seq<char>>) {
    match m {
        MatchResult::Exact(s) => (0, seq![s@]),
        MatchResult::Substring(v) => (1, v@.map_values(|x: String| x@)),
        MatchResult::Fuzzy(v) => (2, v@.map_values(|x: String| x@)),
        MatchResult::NotFound => (3, seq![]),
    }
}

/// The match of an input against names: exact first, else every name that
/// contains it, else the close names, else none.
pub open spec fn match_of(input: Seq<char>, names: Seq<Seq<char>>) -> (int, Seq<Seq<char>>) {
    if names.contains(input) {
        (0, seq![input])
    } else if substring_matches(input, names).len() > 0 {
        (1, substring_matches(input, names))
    } else if fuzzy_matches(input, names).len() > 0 {
        (2, fuzzy_matches(input, names))
    } else {
        (3, seq![])
    }
}

pub open spec fn str_views(v: Seq<&str>) -> Seq<Seq<char>> {
    v.map_values(|s: &str| s@)
}

fn str_vec(names: &[&str]) -> (r: Vec<Vec<char>>)
    ensures
        crate::text::views(r@) == str_views(names@),
{
    let mut out: Vec<Vec<char>> = Vec::new();
    let mut i: usize = 0;
    while i < names.len()
        invariant
            i <= names.len(),
            crate::text::views(out@) == str_views(names@).take(i as int),
        decreases names.len() - i,
    {
        let ghost before = crate::text::views(out@);
        out.push(chars_of(names[i]));
        assert(crate::text::views(out@) =~= before.push(names@[i as int]@));
        assert(str_views(names@).take(i + 1) =~= str_views(names@).take(i as int).push(
            names@[i as int]@,
        ));
        i = i + 1;
    }
    assert(str_views(names@).take(names.len() as int) =~= str_views(names@));
    out
}

/// Byte length of a character sequence, at most `usize::MAX`-bounded.
fn byte_len_exec(v: &Vec<char>) -> (r: usize)
    ensures
        r == byte_len(v@),
{
    crate::text::utf8_bytes(v).len()
}

fn index_of(names: &Vec<Vec<char>>, input: &Vec<char>) -> (r: Option<usize>)
    ensures
        r is Some <==> crate::text::views(names@).contains(input@),
{
    let mut i: usize = 0;
    while i < names.len()
        invariant
            i <= names.len(),
            forall|k: int| 0 <= k < i ==> names@[k]@ != input@,
        decreases names.len() - i,
    {
        if chars_eq(&names[i], input) {
            assert(crate::text::views(names@)[i as int] == input@);
            return Some(i);
        }
        i = i + 1;
    }
    proof {
        if crate::text::views(names@).contains(input@) {
            let k = choose|k: int| 0 <= k < names@.len() && crate::text::views(names@)[k] == input@;
            assert(names@[k]@ == input@);
        }
    }
    None
}

fn substring_matches_exec(input: &Vec<char>, names: &Vec<Vec<char>>) -> (r: Vec<Vec<char>>)
    ensures
        crate::text::views(r@) == substring_matches(input@, crate::text::views(names@)),
{
    let ghost all = crate::text::views(names@);
    let mut out: Vec<Vec<char>> = Vec::new();
    let mut i: usize = 0;
    assert(all.take(0) =~= Seq::<Seq<char>>::empty());
    while i < names.len()
        invariant
            i <= names.len(),
            all == crate::text::views(names@),
            crate::text::views(out@) == substring_matches(input@, all.take(i as int)),
        decreases names.len() - i,
    {
        proof {
            assert(all.take(i + 1).drop_last() =~= all.take(i as int));
            assert(all.take(i + 1).last() == names@[i as int]@);
        }
        if contains_exec(&names[i], input) {
            let ghost before = crate::text::views(out@);
            out.push(crate::text::copy_chars(&names[i]));
            assert(crate::text::views(out@) =~= before.push(names@[i as int]@));
        }
        i = i + 1;
    }
    assert(all.take(i as int) =~= all);
    out
}

fn at_distance_exec(input: &Vec<char>, names: &Vec<Vec<char>>, d: usize) -> (r: Vec<Vec<char>>)
    ensures
        crate::text::views(r@) == at_distance(input@, crate::text::views(names@), d as int),
{
    let ghost all = crate::text::views(names@);
    let a = string_of(input);
    let mut out: Vec<Vec<char>> = Vec::new();
    let mut i: usize = 0;
    assert(all.take(0) =~= Seq::<Seq<char>>::empty());
    while i < names.len()
        invariant
            i <= names.len(),
            all == crate::text::views(names@),
            a@ == input@,
            crate::text::views(out@) == at_distance(input@, all.take(i as int), d as int),
        decreases names.len() - i,
    {
        proof {
            assert(all.take(i + 1).drop_last() =~= all.take(i as int));
            assert(all.take(i + 1).last() == names@[i as int]@);
        }
        let nm = string_of(&names[i]);
        if byte_len_exec(&names[i]) >= 3 && levenshtein(a.as_str(), nm.as_str()) == d {
            let ghost before = crate::text::views(out@);
            out.push(crate::text::copy_chars(&names[i]));
            assert(crate::text::views(out@) =~= before.push(names@[i as int]@));
        }
        i = i + 1;
    }
    assert(all.take(i as int) =~= all);
    out
}

fn strings_of(v: &Vec<Vec<char>>) -> (r: Vec<String>)
    ensures
        r@.map_values(|x: String| x@) == crate::text::views(v@),
{
    let mut out: Vec<String> = Vec::new();
    let mut i: usize = 0;
    while i < v.len()
        invariant
            i <= v.len(),
            out@.map_values(|x: String| x@) == crate::text::views(v@).take(i as int),
        decreases v.len() - i,
    {
        let ghost before = out@.map_values(|x: String| x@);
        out.push(string_of(&v[i]));
        assert(out@.map_values(|x: String| x@) =~= before.push(v@[i as int]@));
        assert(crate::text::views(v@).take(i + 1) =~= crate::text::views(v@).take(i as int).push(
            v@[i as int]@,
        ));
        i = i + 1;
    }
    assert(crate::text::views(v@).take(v.len() as int) =~= crate::text::views(v@));
    out
}

fn append_all(a: Vec<Vec<char>>, b: &Vec<Vec<char>>) -> (r: Vec<Vec<char>>)
    ensures
        crate::text::views(r@) == crate::text::views(a@) + crate::text::views(b@),
{
    let mut out = a;
    let ghost start = crate::text::views(out@);
    let mut i: usize = 0;
    while i < b.len()
        invariant
            i <= b.len(),
            crate::text::views(out@) == start + crate::text::views(b@).take(i as int),
        decreases b.len() - i,
    {
        let ghost before = crate::text::views(out@);
        out.push(crate::text::copy_chars(&b[i]));
        assert(crate::text::views(out@) =~= before.push(b@[i as int]@));
        assert(crate::text::views(b@).take(i + 1) =~= crate::text::views(b@).take(i as int).push(
            b@[i as int]@,
        ));
        i = i + 1;
    }
    assert(crate::text::views(b@).take(b.len() as int) =~= crate::text::views(b@));
    out
}

/// The close names, computed.
fn fuzzy_matches_exec(input: &Vec<char>, names: &Vec<Vec<char>>) -> (r: Vec<Vec<char>>)
    ensures
        crate::text::views(r@) == fuzzy_matches(input@, crate::text::views(names@)),
{
    if byte_len_exec(input) >= 3 {
        let one = at_distance_exec(input, names, 1);
        let two = at_distance_exec(input, names, 2);
        append_all(one, &two)
    } else {
        let r: Vec<Vec<char>> = Vec::new();
        assert(crate::text::views(r@) =~= Seq::<Seq<char>>::empty());
        r
    }
}

/// Match an input against worktree names.
pub fn find_worktree_matches(input: &str, worktree_names: &[&str]) -> (r: MatchResult)
    ensures
        match_view(r) == match_of(input@, str_views(worktree_names@)),
{
    let inp = chars_of(input);
    let names = str_vec(worktree_names);
    if index_of(&names, &inp).is_some() {
        return MatchResult::Exact(input.to_string());
    }
    let subs = substring_matches_exec(&inp, &names);
    if subs.len() > 0 {
        return MatchResult::Substring(strings_of(&subs));
    }
    let fuzzy = fuzzy_matches_exec(&inp, &names);
    if fuzzy.len() > 0 {
        return MatchResult::Fuzzy(strings_of(&fuzzy));
    }
    MatchResult::NotFound
}

// ------------------------------------------------------------------
// Switching
// ------------------------------------------------------------------

/// What switching to a named worktree comes to.
pub enum SwitchOutcome {
    /// Go to this path.
    Navigate(String),
    /// One close candidate: ask whether `candidate` was meant for `input`
    /// and go to `path` if so.
    Confirm { input: String, candidate: String, path: String },
    /// Several candidates: show them after `heading`, then fail with
    /// `message`.
    Ambiguous { heading: String, candidates: Vec<String>, message: String },
    /// Fail with this message.
    Fail(String),
}

/// A worktree's directory name (empty when it has none) with its path.
pub open spec fn named_entry(w: WorktreeView) -> (Seq<char>, Seq<char>) {
    (
        match path_file_name(w.path) {
            Some(n) => n,
            None => Seq::empty(),
        },
        w.path,
    )
}

/// The non-bare worktrees as (directory name, path), in order.
pub open spec fn switch_entries(ws: Seq<WorktreeView>) -> Seq<(Seq<char>, Seq<char>)>
    decreases ws.len(),
{
    if ws.len() == 0 {
        seq![]
    } else {
        let rest = switch_entries(ws.drop_last());
        if ws.last().is_bare {
            rest
        } else {
            rest.push(named_entry(ws.last()))
        }
    }
}

pub open spec fn entry_names(es: Seq<(Seq<char>, Seq<char>)>) -> Seq<Seq<char>> {
    es.map_values(|e: (Seq<char>, Seq<char>)| e.0)
}

/// The path of the first entry with the given name.
pub open spec fn path_of_name(es: Seq<(Seq<char>, Seq<char>)>, n: Seq<char>) -> Seq<char>
    decreases es.len(),
{
    if es.len() == 0 {
        Seq::empty()
    } else if es[0].0 == n {
        es[0].1
    } else {
        path_of_name(es.drop_first(), n)
    }
}

pub open spec fn not_found_message(name: Seq<char>) -> Seq<char> {
    "No worktree found matching '"@ + name + "'"@
}

pub open spec fn ambiguous_message(name: Seq<char>, count: nat) -> Seq<char> {
    "Ambiguous match for '"@ + name + "' -- "@ + decimal(count) + " candidates found"@
}

pub open spec fn ambiguous_heading(name: Seq<char>) -> Seq<char> {
    "No exact match for '"@ + name + "'. Did you mean:"@
}

pub enum SwitchOutcomeView {
    Navigate(Seq<char>),
    Confirm { input: Seq<char>, candidate: Seq<char>, path: Seq<char> },
    Ambiguous { heading: Seq<char>, candidates: Seq<Seq<char>>, message: Seq<char> },
    Fail(Seq<char>),
}

pub open spec fn outcome_view(o: SwitchOutcome) -> SwitchOutcomeView {
    match o {
        SwitchOutcome::Navigate(p) => SwitchOutcomeView::Navigate(p@),
        SwitchOutcome::Confirm { input, candidate, path } => SwitchOutcomeView::Confirm {
            input: input@,
            candidate: candidate@,
            path: path@,
        },
        SwitchOutcome::Ambiguous { heading, candidates, message } => SwitchOutcomeView::Ambiguous {
            heading: heading@,
            candidates: candidates@.map_values(|x: String| x@),
            message: message@,
        },
        SwitchOutcome::Fail(m) => SwitchOutcomeView::Fail(m@),
    }
}

/// Where switching to `name` leads among the given worktrees: the path of
/// the first exact name; a single name that contains the input, or the only
/// candidate, to confirm; several candidates (the containing names, else the
/// close ones) to list; no candidate at all is an error.
pub open spec fn switch_plan(name: Seq<char>, ws: Seq<WorktreeView>) -> SwitchOutcomeView {
    let es = switch_entries(ws);
    let names = entry_names(es);
    let subs = substring_matches(name, names);
    let fuzzy = fuzzy_matches(name, names);
    let cands = if subs.len() > 0 { subs } else { fuzzy };
    if names.contains(name) {
        SwitchOutcomeView::Navigate(path_of_name(es, name))
    } else if subs.len() == 1 {
        SwitchOutcomeView::Confirm { input: name, candidate: subs[0], path: path_of_name(es, subs[0]) }
    } else if subs.len() == 0 && fuzzy.len() == 0 {
        SwitchOutcomeView::Fail(not_found_message(name))
    } else if cands.len() == 1 {
        SwitchOutcomeView::Confirm { input: name, candidate: cands[0], path: path_of_name(es, cands[0]) }
    } else {
        SwitchOutcomeView::Ambiguous {
            heading: ambiguous_heading(name),
            candidates: cands,
            message: ambiguous_message(name, cands.len()),
        }
    }
}

proof fn lemma_entries_from_worktrees(ws: Seq<WorktreeView>, j: int)
    requires
        0 <= j < switch_entries(ws).len(),
    ensures
        exists|i: int|
            0 <= i < ws.len() && !ws[i].is_bare && #[trigger] named_entry(ws[i]) == switch_entries(ws)[j],
    decreases ws.len(),
{
    let rest = switch_entries(ws.drop_last());
    if j < rest.len() {
        lemma_entries_from_worktrees(ws.drop_last(), j);
        let i = choose|i: int|
            0 <= i < ws.drop_last().len() && !ws.drop_last()[i].is_bare && #[trigger] named_entry(ws.drop_last()[i])
                == rest[j];
        assert(ws[i] == ws.drop_last()[i]);
    } else {
        assert(named_entry(ws[ws.len() - 1]) == switch_entries(ws)[j]);
    }
}

proof fn lemma_path_of_listed_name(es: Seq<(Seq<char>, Seq<char>)>, n: Seq<char>)
    requires
        entry_names(es).contains(n),
    ensures
        exists|j: int| 0 <= j < es.len() && (#[trigger] es[j]) == (n, path_of_name(es, n)),
    decreases es.len(),
{
    if es[0].0 == n {
        assert(es[0] == (n, path_of_name(es, n)));
    } else {
        let k = choose|k: int| 0 <= k < entry_names(es).len() && entry_names(es)[k] == n;
        assert(k > 0);
        assert(entry_names(es.drop_first())[k - 1] == n);
        lemma_path_of_listed_name(es.drop_first(), n);
        let j = choose|j: int| 0 <= j < es.drop_first().len() && (#[trigger] es.drop_first()[j]) == (
            n,
            path_of_name(es.drop_first(), n),
        );
        assert(es[j + 1] == es.drop_first()[j]);
    }
}

proof fn lemma_substring_matches_listed(input: Seq<char>, names: Seq<Seq<char>>, k: int)
    requires
        0 <= k < substring_matches(input, names).len(),
    ensures
        names.contains(substring_matches(input, names)[k]),
        contains(substring_matches(input, names)[k], input),
    decreases names.len(),
{
    let rest = substring_matches(input, names.drop_last());
    if k < rest.len() {
        lemma_substring_matches_listed(input, names.drop_last(), k);
        let m = choose|m: int| 0 <= m < names.drop_last().len() && names.drop_last()[m] == rest[k];
        assert(names[m] == rest[k]);
    } else {
        assert(names[names.len() - 1] == names.last());
    }
}

proof fn lemma_at_distance_listed(input: Seq<char>, names: Seq<Seq<char>>, d: int, k: int)
    requires
        0 <= k < at_distance(input, names, d).len(),
    ensures
        names.contains(at_distance(input, names, d)[k]),
        byte_len(at_distance(input, names, d)[k]) >= 3,
    decreases names.len(),
{
    let rest = at_distance(input, names.drop_last(), d);
    if k < rest.len() {
        lemma_at_distance_listed(input, names.drop_last(), d, k);
        let m = choose|m: int| 0 <= m < names.drop_last().len() && names.drop_last()[m] == rest[k];
        assert(names[m] == rest[k]);
    } else {
        assert(names[names.len() - 1] == names.last());
    }
}

/// Switching only ever leads to a listed worktree under its own name: a
/// direct switch goes to the path of a non-bare worktree whose directory is
/// named as asked, and a switch to confirm offers a candidate that is the
/// directory name of a non-bare worktree (never empty), with that
/// worktree's path.
pub proof fn lemma_switch_targets_listed(name: Seq<char>, ws: Seq<WorktreeView>)
    ensures
        switch_plan(name, ws) matches SwitchOutcomeView::Navigate(p) ==> exists|i: int|
            0 <= i < ws.len() && !ws[i].is_bare && ws[i].path == p && #[trigger] named_entry(ws[i]).0 == name,
        switch_plan(name, ws) matches SwitchOutcomeView::Confirm { input, candidate, path } ==> {
            &&& input == name
            &&& candidate.len() > 0
            &&& path_file_name(path) == Some(candidate)
            &&& exists|i: int| 0 <= i < ws.len() && !ws[i].is_bare && #[trigger] ws[i].path == path
        },
{
    let es = switch_entries(ws);
    let names = entry_names(es);
    let subs = substring_matches(name, names);
    let fuzzy = fuzzy_matches(name, names);
    let plan = switch_plan(name, ws);
    let target: Seq<char> = if names.contains(name) {
        name
    } else if subs.len() > 0 {
        subs[0]
    } else if fuzzy.len() > 0 {
        fuzzy[0]
    } else {
        name
    };
    if !names.contains(name) && subs.len() > 0 {
        lemma_substring_matches_listed(name, names, 0);
        if name.len() > 0 {
            let q = choose|q: int| crate::text::occurs_at(subs[0], name, q);
        } else {
            if subs[0].len() == 0 {
                assert(subs[0] =~= name);
            }
        }
    } else if !names.contains(name) && fuzzy.len() > 0 {
        let a1 = at_distance(name, names, 1);
        let a2 = at_distance(name, names, 2);
        if a1.len() > 0 {
            lemma_at_distance_listed(name, names, 1, 0);
            assert(fuzzy[0] == a1[0]);
        } else {
            lemma_at_distance_listed(name, names, 2, 0);
            assert(fuzzy[0] == a2[0]);
        }
        if fuzzy[0].len() == 0 {
            assert(vstd::utf8::encode_utf8(fuzzy[0]) =~= Seq::<u8>::empty());
        }
    }
    if names.contains(target) {
        lemma_path_of_listed_name(es, target);
        let j = choose|j: int| 0 <= j < es.len() && (#[trigger] es[j]) == (target, path_of_name(es, target));
        lemma_entries_from_worktrees(ws, j);
        let i = choose|i: int| 0 <= i < ws.len() && !ws[i].is_bare && #[trigger] named_entry(ws[i]) == es[j];
        assert(ws[i].path == path_of_name(es, target));
        assert(named_entry(ws[i]).0 == target);
    }
}

fn entries_exec(worktrees: &Vec<Worktree>) -> (r: (Vec<Vec<char>>, Vec<Vec<char>>))
    ensures
        r.0@.len() == r.1@.len(),
        forall|k: int| 0 <= k < r.0@.len() ==> switch_entries(worktree_views(worktrees@))[k] == (
        #[trigger] r.0@[k]@, r.1@[k]@),
        switch_entries(worktree_views(worktrees@)).len() == r.0@.len(),
{
    let ghost all = worktree_views(worktrees@);
    let mut names: Vec<Vec<char>> = Vec::new();
    let mut paths: Vec<Vec<char>> = Vec::new();
    let mut i: usize = 0;
    assert(all.take(0) =~= Seq::<WorktreeView>::empty());
    while i < worktrees.len()
        invariant
            i <= worktrees.len(),
            all == worktree_views(worktrees@),
            names@.len() == paths@.len(),
            switch_entries(all.take(i as int)).len() == names@.len(),
            forall|k: int| 0 <= k < names@.len() ==> switch_entries(all.take(i as int))[k] == (
            #[trigger] names@[k]@, paths@[k]@),
        decreases worktrees.len() - i,
    {
        proof {
            assert(all.take(i + 1).drop_last() =~= all.take(i as int));
            assert(all.take(i + 1).last() == worktrees@[i as int]@);
        }
        let w = &worktrees[i];
        if !w.is_bare {
            let n = match file_name(w.path.as_str()) {
                Some(s) => chars_of(s.as_str()),
                None => Vec::new(),
            };
            names.push(n);
            paths.push(chars_of(w.path.as_str()));
        }
        i = i + 1;
    }
    assert(all.take(i as int) =~= all);
    r_pair(names, paths)
}

fn r_pair(a: Vec<Vec<char>>, b: Vec<Vec<char>>) -> (r: (Vec<Vec<char>>, Vec<Vec<char>>))
    ensures
        r.0 == a && r.1 == b,
{
    (a, b)
}

proof fn lemma_entry_names(es: Seq<(Seq<char>, Seq<char>)>, names: Seq<Vec<char>>)
    requires
        es.len() == names.len(),
        forall|k: int| 0 <= k < names.len() ==> es[k].0 == (#[trigger] names[k])@,
    ensures
        entry_names(es) == crate::text::views(names),
{
    assert(entry_names(es) =~= crate::text::views(names));
}

/// The path of the first entry named `n`.
fn path_of_name_exec(names: &Vec<Vec<char>>, paths: &Vec<Vec<char>>, n: &Vec<char>, Ghost(es): Ghost<Seq<(Seq<char>, Seq<char>)>>) -> (r: String)
    requires
        names@.len() == paths@.len(),
        es.len() == names@.len(),
        forall|k: int| 0 <= k < names@.len() ==> es[k] == (#[trigger] names@[k]@, paths@[k]@),
    ensures
        r@ == path_of_name(es, n@),
{
    let mut i: usize = 0;
    assert(es.skip(0) =~= es);
    while i < names.len()
        invariant
            i <= names@.len(),
            names@.len() == paths@.len(),
            es.len() == names@.len(),
            forall|k: int| 0 <= k < names@.len() ==> es[k] == (#[trigger] names@[k]@, paths@[k]@),
            path_of_name(es.skip(i as int), n@) == path_of_name(es, n@),
        decreases names.len() - i,
    {
        assert(es.skip(i as int)[0] == es[i as int]);
        if chars_eq(&names[i], n) {
            return string_of(&paths[i]);
        }
        assert(es.skip(i as int).drop_first() =~= es.skip(i + 1));
        i = i + 1;
    }
    assert(es.skip(i as int).len() == 0);
    String::new()
}

fn quoted(before: &str, name: &str, after: &str) -> (r: String)
    ensures
        r@ == before@ + name@ + after@,
{
    string_of(&concat(&concat(&chars_of(before), &chars_of(name)), &chars_of(after)))
}

/// Decide where switching to `name` leads among the listed worktrees.
pub fn switch_direct(name: &str, worktrees: &Vec<Worktree>) -> (r: SwitchOutcome)
    ensures
        outcome_view(r) == switch_plan(name@, worktree_views(worktrees@)),
{
    let ghost es = switch_entries(worktree_views(worktrees@));
    let (names, paths) = entries_exec(worktrees);
    proof {
        lemma_entry_names(es, names@);
    }
    let inp = chars_of(name);
    if index_of(&names, &inp).is_some() {
        return SwitchOutcome::Navigate(path_of_name_exec(&names, &paths, &inp, Ghost(es)));
    }
    let subs = substring_matches_exec(&inp, &names);
    if subs.len() == 1 {
        let c = string_of(&subs[0]);
        let p = path_of_name_exec(&names, &paths, &subs[0], Ghost(es));
        return SwitchOutcome::Confirm { input: name.to_string(), candidate: c, path: p };
    }
    let fuzzy = fuzzy_matches_exec(&inp, &names);
    if subs.len() == 0 && fuzzy.len() == 0 {
        return SwitchOutcome::Fail(quoted("No worktree found matching '", name, "'"));
    }
    let cands = if subs.len() > 0 {
        subs
    } else {
        fuzzy
    };
    if cands.len() == 1 {
        let c = string_of(&cands[0]);
        let p = path_of_name_exec(&names, &paths, &cands[0], Ghost(es));
        return SwitchOutcome::Confirm { input: name.to_string(), candidate: c, path: p };
    }
    let count = string_of(&u64_to_chars(cands.len() as u64));
    let head = quoted("Ambiguous match for '", name, "' -- ");
    let tail = string_of(&concat(&chars_of(count.as_str()), &chars_of(" candidates found")));
    let message = string_of(&concat(&chars_of(head.as_str()), &chars_of(tail.as_str())));
    proof {
        let ghost cv = crate::text::views(cands@);
        assert(cv.len() == cands@.len());
        assert(message@ =~= ambiguous_message(name@, cv.len()));
    }
    SwitchOutcome::Ambiguous {
        heading: quoted("No exact match for '", name, "'. Did you mean:"),
        candidates: strings_of(&cands),
        message,
    }
}

/// What the switch command is to do next.
pub enum SwitchAction {
    /// Return to the previous worktree (named by `LAZYWT_PREV`).
    Previous,
    /// Let the user pick a worktree.
    Interactive,
    /// Switch by name, as decided.
    Direct(SwitchOutcome),
    /// Listing the worktrees failed with this message.
    Failed(String),
}

/// The switch command: `-` goes back, no name picks interactively, a name
/// is matched against the listed worktrees.
pub fn run(ctx: &ProjectContext, name: Option<&str>, replies: &Vec<GitReply>) -> (r: GitStep<SwitchAction>)
    ensures
        name is None ==> (r matches GitStep::Done(a) && a is Interactive),
        name matches Some(n) && n@ == "-"@ ==> (r matches GitStep::Done(a) && a is Previous),
        name matches Some(n) && n@ != "-"@ && replies.len() == 0 ==> (r matches GitStep::Run(c)
            && c@ == crate::git::worktree::worktree_list_call(ctx.project_dir@)),
        name matches Some(n) && n@ != "-"@ && replies.len() > 0 ==> (r matches GitStep::Done(a)
            && match output_of(reply_views(replies@)[0]) {
            Ok(out) => a matches SwitchAction::Direct(o) && outcome_view(o) == switch_plan(
                name->Some_0@,
                porcelain_worktrees(out),
            ),
            Err(_) => a matches SwitchAction::Failed(m) && m@
                == crate::git::worktree::list_failed_message(),
        }),
{
    match name {
        None => GitStep::Done(SwitchAction::Interactive),
        Some(n) => {
            if chars_eq(&chars_of(n), &chars_of("-")) {
                return GitStep::Done(SwitchAction::Previous);
            }
            match list_worktrees(ctx.project_dir.as_str(), replies) {
                GitStep::Run(c) => GitStep::Run(c),
                GitStep::Done(Ok(ws)) => GitStep::Done(SwitchAction::Direct(switch_direct(n, &ws))),
                GitStep::Done(Err(m)) => GitStep::Done(SwitchAction::Failed(m)),
            }
        },
    }
}

/// The label of a worktree in the picker: its directory name (`unknown`
/// without one), followed by ` -> <branch>` when the branch (`(detached)`
/// without one) is named otherwise.
pub open spec fn picker_label_of(w: WorktreeView) -> Seq<char> {
    let name = match path_file_name(w.path) {
        Some(n) => n,
        None => "unknown"@,
    };
    let branch = match w.branch {
        Some(b) => b,
        None => "(detached)"@,
    };
    if name == branch {
        name
    } else {
        name + " -> "@ + branch
    }
}

pub fn picker_label(w: &Worktree) -> (r: String)
    ensures
        r@ == picker_label_of(w@),
{
    let name = match file_name(w.path.as_str()) {
        Some(n) => n,
        None => "unknown".to_string(),
    };
    let branch = match &w.branch {
        Some(b) => b.clone(),
        None => "(detached)".to_string(),
    };
    if chars_eq(&chars_of(name.as_str()), &chars_of(branch.as_str())) {
        name
    } else {
        quoted(name.as_str(), " -> ", branch.as_str())
    }
}

/// The first worktree (from `i` on) whose canonical path holds the
/// current directory.
pub open spec fn first_holding(cwd: Seq<char>, canon: Seq<Option<Seq<char>>>, i: int) -> Option<int>
    decreases canon.len() - i,
{
    if i < 0 || i >= canon.len() {
        None
    } else if canon[i] matches Some(c) && crate::paths::path_starts_with(cwd, c) {
        Some(i)
    } else {
        first_holding(cwd, canon, i + 1)
    }
}

pub open spec fn opt_views(v: Seq<Option<String>>) -> Seq<Option<Seq<char>>> {
    v.map_values(|o: Option<String>| opt_view(o))
}

/// The entry first selected in the picker: the first worktree whose
/// canonical path (where it has one) holds the canonical current directory.
pub fn picker_default(cwd: Option<&str>, canon: &Vec<Option<String>>) -> (r: Option<usize>)
    ensures
        cwd is None ==> r is None,
        cwd is Some ==> r == (match first_holding(cwd->Some_0@, opt_views(canon@), 0) {
            Some(k) => Some(k as usize),
            None => None,
        }),
{
    let c = match cwd {
        None => {
            return None;
        },
        Some(c) => c,
    };
    let ghost cv = opt_views(canon@);
    let mut i: usize = 0;
    while i < canon.len()
        invariant
            i <= canon@.len(),
            cv == opt_views(canon@),
            cwd == Some(c),
            first_holding(c@, cv, i as int) == first_holding(c@, cv, 0),
        decreases canon.len() - i,
    {
        assert(cv[i as int] == opt_view(canon@[i as int]));
        match &canon[i] {
            Some(p) => {
                if crate::paths::starts_with_path(c, p.as_str()) {
                    assert(cv[i as int] == Some(p@));
                    assert(first_holding(c@, cv, i as int) == Some(i as int));
                    return Some(i);
                }
            },
            None => {},
        }
        i = i + 1;
    }
    assert(first_holding(c@, cv, i as int) == None::<int>);
    None
}

pub open spec fn no_previous_message() -> Seq<char> {
    "No previous worktree \u{2014} LAZYWT_PREV is not set. Use 'eval \"$(lazywt init)\"' in your shell profile."@
}

/// Where `switch -` goes: the previous worktree (`LAZYWT_PREV`), which must
/// be set and still exist.
pub fn previous_target(prev: Option<&str>, exists: bool) -> (r: Result<String, String>)
    ensures
        prev is None ==> r is Err && r->Err_0@ == no_previous_message(),
        prev is Some && exists ==> r is Ok && r->Ok_0@ == prev->Some_0@,
        prev is Some && !exists ==> r is Err && r->Err_0@ == "Previous worktree path no longer exists: "@ + prev->Some_0@,
{
    match prev {
        None => Err("No previous worktree \u{2014} LAZYWT_PREV is not set. Use 'eval \"$(lazywt init)\"' in your shell profile.".to_string()),
        Some(p) => {
            if exists {
                Ok(p.to_string())
            } else {
                Err(crate::text::join_str("Previous worktree path no longer exists: ", p))
            }
        },
    }
}

/// Why a close match cannot be confirmed away from a terminal.
pub fn closest_message(input: &str, candidate: &str) -> (r: String)
    ensures
        r@ == "No exact match for '"@ + input@ + "' (closest: '"@ + candidate@ + "')"@,
{
    crate::text::join5("No exact match for '", input, "' (closest: '", candidate, "')")
}

} // verus!
