//! Character-level text model: the subset of `str` behaviour the parsers use,
//! stated over `Seq<char>` and implemented over `Vec<char>`.
use vstd::prelude::*;

verus! {

// ------------------------------------------------------------------
// Conversions
// ------------------------------------------------------------------

/// Append one character to a string (`String::push`).
#[verifier::external_body]
pub(crate) fn push_char(s: &mut String, c: char)
    ensures
        final(s)@ == old(s)@.push(c),
{
    s.push(c);
}

/// The characters of a string slice, in order.
pub fn chars_of(s: &str) -> (r: Vec<char>)
    ensures
        r@ == s@,
{
    let mut v: Vec<char> = Vec::new();
    for c in it: s.chars()
        invariant
            v@ == it.seq().take(it.index() as int),
    {
        v.push(c);
    }
    v
}

/// A string holding exactly the given characters.
pub fn string_of(v: &Vec<char>) -> (r: String)
    ensures
        r@ == v@,
{
    let mut s = String::new();
    let mut i: usize = 0;
    while i < v.len()
        invariant
            i <= v.len(),
            s@ == v@.take(i as int),
        decreases v.len() - i,
    {
        push_char(&mut s, v[i]);
        i = i + 1;
        assert(s@ =~= v@.take(i as int));
    }
    assert(v@.take(v.len() as int) =~= v@);
    s
}

/// The concatenation of two strings.
pub fn join_str(a: &str, b: &str) -> (r: String)
    ensures
        r@ == a@ + b@,
{
    let mut s = a.to_string();
    let v = chars_of(b);
    let mut i: usize = 0;
    while i < v.len()
        invariant
            i <= v.len(),
            v@ == b@,
            s@ == a@ + v@.take(i as int),
        decreases v.len() - i,
    {
        push_char(&mut s, v[i]);
        i = i + 1;
        assert(s@ =~= a@ + v@.take(i as int));
    }
    assert(v@.take(v.len() as int) =~= v@);
    s
}

/// The concatenation of three strings.
pub fn join3(a: &str, b: &str, c: &str) -> (r: String)
    ensures
        r@ == a@ + b@ + c@,
{
    let ab = join_str(a, b);
    join_str(ab.as_str(), c)
}

/// The concatenation of four strings.
pub fn join4(a: &str, b: &str, c: &str, d: &str) -> (r: String)
    ensures
        r@ == a@ + b@ + c@ + d@,
{
    let abc = join3(a, b, c);
    join_str(abc.as_str(), d)
}

/// The concatenation of five strings.
pub fn join5(a: &str, b: &str, c: &str, d: &str, e: &str) -> (r: String)
    ensures
        r@ == a@ + b@ + c@ + d@ + e@,
{
    let abcd = join4(a, b, c, d);
    join_str(abcd.as_str(), e)
}

/// A copy of `v[a..b]`.
pub fn slice_vec(v: &Vec<char>, a: usize, b: usize) -> (r: Vec<char>)
    requires
        a <= b <= v.len(),
    ensures
        r@ == v@.subrange(a as int, b as int),
{
    let mut out: Vec<char> = Vec::new();
    let mut i = a;
    while i < b
        invariant
            a <= i <= b <= v.len(),
            out@ == v@.subrange(a as int, i as int),
        decreases b - i,
    {
        out.push(v[i]);
        i = i + 1;
        assert(out@ =~= v@.subrange(a as int, i as int));
    }
    out
}

/// Copy of a vector of characters.
pub fn copy_chars(v: &Vec<char>) -> (r: Vec<char>)
    ensures
        r@ == v@,
{
    let r = slice_vec(v, 0, v.len());
    assert(v@.subrange(0, v@.len() as int) =~= v@);
    r
}

/// Equality of two character vectors.
pub fn chars_eq(a: &Vec<char>, b: &Vec<char>) -> (r: bool)
    ensures
        r == (a@ == b@),
{
    if a.len() != b.len() {
        return false;
    }
    let mut i: usize = 0;
    while i < a.len()
        invariant
            a.len() == b.len(),
            i <= a.len(),
            forall|k: int| 0 <= k < i ==> a@[k] == b@[k],
        decreases a.len() - i,
    {
        if a[i] != b[i] {
            return false;
        }
        i = i + 1;
    }
    assert(a@ =~= b@);
    true
}

/// Concatenation of two character vectors.
pub fn concat(a: &Vec<char>, b: &Vec<char>) -> (r: Vec<char>)
    ensures
        r@ == a@ + b@,
{
    let mut out = copy_chars(a);
    let mut i: usize = 0;
    while i < b.len()
        invariant
            i <= b.len(),
            out@ == a@ + b@.take(i as int),
        decreases b.len() - i,
    {
        out.push(b[i]);
        i = i + 1;
        assert(out@ =~= a@ + b@.take(i as int));
    }
    assert(b@.take(b.len() as int) =~= b@);
    out
}

// ------------------------------------------------------------------
// Whitespace and trimming
// ------------------------------------------------------------------

/// Unicode `White_Space`, the set that `char::is_whitespace` tests.
pub open spec fn is_ws(c: char) -> bool {
    let u = c as u32;
    (0x9 <= u && u <= 0xD) || u == 0x20 || u == 0x85 || u == 0xA0 || u == 0x1680 || (0x2000 <= u
        && u <= 0x200A) || u == 0x2028 || u == 0x2029 || u == 0x202F || u == 0x205F || u == 0x3000
}

pub fn is_whitespace(c: char) -> (r: bool)
    ensures
        r == is_ws(c),
{
    let u = c as u32;
    (0x9 <= u && u <= 0xD) || u == 0x20 || u == 0x85 || u == 0xA0 || u == 0x1680 || (0x2000 <= u
        && u <= 0x200A) || u == 0x2028 || u == 0x2029 || u == 0x202F || u == 0x205F || u == 0x3000
}

/// `str::trim_start`.
pub open spec fn trim_start(s: Seq<char>) -> Seq<char>
    decreases s.len(),
{
    if s.len() > 0 && is_ws(s[0]) {
        trim_start(s.drop_first())
    } else {
        s
    }
}

/// `str::trim_end`.
pub open spec fn trim_end(s: Seq<char>) -> Seq<char>
    decreases s.len(),
{
    if s.len() > 0 && is_ws(s.last()) {
        trim_end(s.drop_last())
    } else {
        s
    }
}

/// `str::trim`.
pub open spec fn trim(s: Seq<char>) -> Seq<char> {
    trim_end(trim_start(s))
}

pub proof fn lemma_trim_start_at(s: Seq<char>, a: int)
    requires
        0 <= a <= s.len(),
        forall|k: int| 0 <= k < a ==> is_ws(#[trigger] s[k]),
        a == s.len() || !is_ws(s[a]),
    ensures
        trim_start(s) == s.subrange(a, s.len() as int),
    decreases a,
{
    if a == 0 {
        assert(s.subrange(0, s.len() as int) =~= s);
    } else {
        assert(is_ws(s[0]));
        let t = s.drop_first();
        assert forall|k: int| 0 <= k < a - 1 implies is_ws(#[trigger] t[k]) by {
            assert(t[k] == s[k + 1]);
        }
        lemma_trim_start_at(t, a - 1);
        assert(t.subrange(a - 1, t.len() as int) =~= s.subrange(a, s.len() as int));
    }
}

pub proof fn lemma_trim_end_at(s: Seq<char>, b: int)
    requires
        0 <= b <= s.len(),
        forall|k: int| b <= k < s.len() ==> is_ws(#[trigger] s[k]),
        b == 0 || !is_ws(s[b - 1]),
    ensures
        trim_end(s) == s.subrange(0, b),
    decreases s.len() - b,
{
    if b == s.len() {
        assert(s.subrange(0, b) =~= s);
    } else {
        assert(is_ws(s.last()));
        let t = s.drop_last();
        assert forall|k: int| b <= k < t.len() implies is_ws(#[trigger] t[k]) by {
            assert(t[k] == s[k]);
        }
        lemma_trim_end_at(t, b);
        assert(t.subrange(0, b) =~= s.subrange(0, b));
    }
}

/// Index of the first non-whitespace character of `v[lo..hi]` (or `hi`).
fn skip_ws_forward(v: &Vec<char>, lo: usize, hi: usize) -> (a: usize)
    requires
        lo <= hi <= v.len(),
    ensures
        lo <= a <= hi,
        forall|k: int| lo <= k < a ==> is_ws(#[trigger] v@[k]),
        a == hi || !is_ws(v@[a as int]),
{
    let mut a = lo;
    while a < hi && is_whitespace(v[a])
        invariant
            lo <= a <= hi <= v.len(),
            forall|k: int| lo <= k < a ==> is_ws(#[trigger] v@[k]),
        decreases hi - a,
    {
        a = a + 1;
    }
    a
}

/// One past the last non-whitespace character of `v[lo..hi]` (or `lo`).
fn skip_ws_backward(v: &Vec<char>, lo: usize, hi: usize) -> (b: usize)
    requires
        lo <= hi <= v.len(),
    ensures
        lo <= b <= hi,
        forall|k: int| b <= k < hi ==> is_ws(#[trigger] v@[k]),
        b == lo || !is_ws(v@[b - 1]),
{
    let mut b = hi;
    while b > lo && is_whitespace(v[b - 1])
        invariant
            lo <= b <= hi <= v.len(),
            forall|k: int| b <= k < hi ==> is_ws(#[trigger] v@[k]),
        decreases b - lo,
    {
        b = b - 1;
    }
    b
}

pub fn trim_start_chars(v: &Vec<char>) -> (r: Vec<char>)
    ensures
        r@ == trim_start(v@),
{
    let a = skip_ws_forward(v, 0, v.len());
    proof {
        lemma_trim_start_at(v@, a as int);
    }
    slice_vec(v, a, v.len())
}

pub fn trim_end_chars(v: &Vec<char>) -> (r: Vec<char>)
    ensures
        r@ == trim_end(v@),
{
    let b = skip_ws_backward(v, 0, v.len());
    proof {
        lemma_trim_end_at(v@, b as int);
    }
    slice_vec(v, 0, b)
}

pub fn trim_chars(v: &Vec<char>) -> (r: Vec<char>)
    ensures
        r@ == trim(v@),
{
    let t = trim_start_chars(v);
    trim_end_chars(&t)
}


/// `str::trim_start_matches` with a single character: every leading `c` goes.
pub open spec fn trim_start_char(s: Seq<char>, c: char) -> Seq<char>
    decreases s.len(),
{
    if s.len() > 0 && s[0] == c {
        trim_start_char(s.drop_first(), c)
    } else {
        s
    }
}

pub fn trim_start_char_chars(v: &Vec<char>, c: char) -> (r: Vec<char>)
    ensures
        r@ == trim_start_char(v@, c),
{
    let mut i: usize = 0;
    assert(v@.subrange(0, v@.len() as int) =~= v@);
    while i < v.len() && v[i] == c
        invariant
            i <= v.len(),
            trim_start_char(v@.subrange(i as int, v@.len() as int), c) == trim_start_char(v@, c),
        decreases v.len() - i,
    {
        assert(v@.subrange(i as int, v@.len() as int).drop_first() =~= v@.subrange(
            i + 1,
            v@.len() as int,
        ));
        i = i + 1;
    }
    slice_vec(v, i, v.len())
}

/// The UTF-8 bytes of a character sequence, as `str::as_bytes` gives them.
pub fn utf8_bytes(v: &Vec<char>) -> (r: Vec<u8>)
    ensures
        r@ == vstd::utf8::encode_utf8(v@),
{
    let s = string_of(v);
    let b = s.as_str().as_bytes();
    let mut out: Vec<u8> = Vec::new();
    let mut i: usize = 0;
    while i < b.len()
        invariant
            i <= b.len(),
            b@ == vstd::utf8::encode_utf8(v@),
            out@ == b@.take(i as int),
        decreases b.len() - i,
    {
        out.push(b[i]);
        i = i + 1;
        assert(out@ =~= b@.take(i as int));
    }
    assert(b@.take(b.len() as int) =~= b@);
    out
}

// ------------------------------------------------------------------
// Lines (`str::lines`)
// ------------------------------------------------------------------

/// Index of the first `'\n'` at or after `i`, or `s.len()`.
pub open spec fn line_end(s: Seq<char>, i: int) -> int
    decreases s.len() - i,
{
    if i < 0 || i >= s.len() {
        s.len() as int
    } else if s[i] == '\n' {
        i
    } else {
        line_end(s, i + 1)
    }
}

pub proof fn lemma_line_end(s: Seq<char>, i: int)
    requires
        0 <= i <= s.len(),
    ensures
        i <= line_end(s, i) <= s.len(),
        line_end(s, i) < s.len() ==> s[line_end(s, i)] == '\n',
        forall|k: int| i <= k < line_end(s, i) ==> s[k] != '\n',
    decreases s.len() - i,
{
    if i < s.len() && s[i] != '\n' {
        lemma_line_end(s, i + 1);
    }
}

pub proof fn lemma_line_end_at(s: Seq<char>, i: int, e: int)
    requires
        0 <= i <= e <= s.len(),
        forall|k: int| i <= k < e ==> s[k] != '\n',
        e == s.len() || s[e] == '\n',
    ensures
        line_end(s, i) == e,
    decreases e - i,
{
    if i < e {
        lemma_line_end_at(s, i + 1, e);
    }
}

/// The text of the line that starts at `i`: up to the next `'\n'`, without a
/// `'\r'` that stands right before that `'\n'`.
pub open spec fn line_at(s: Seq<char>, i: int) -> Seq<char> {
    let e = line_end(s, i);
    if e < s.len() && e > i && s[e - 1] == '\r' {
        s.subrange(i, e - 1)
    } else {
        s.subrange(i, e)
    }
}

/// The lines of `s` from position `i` on.
pub open spec fn lines_from(s: Seq<char>, i: int) -> Seq<Seq<char>>
    decreases s.len() + 1 - i,
    via lines_from_decreases
{
    if i < 0 || i >= s.len() {
        seq![]
    } else {
        seq![line_at(s, i)] + lines_from(s, line_end(s, i) + 1)
    }
}

#[via_fn]
proof fn lines_from_decreases(s: Seq<char>, i: int) {
    if 0 <= i < s.len() {
        lemma_line_end(s, i);
    }
}

/// The views of a sequence of character vectors.
pub open spec fn views(v: Seq<Vec<char>>) -> Seq<Seq<char>> {
    v.map_values(|l: Vec<char>| l@)
}

/// `str::lines`: split at `'\n'`, drop a `'\r'` before it, and no empty line
/// after a final `'\n'`.
pub open spec fn lines(s: Seq<char>) -> Seq<Seq<char>> {
    lines_from(s, 0)
}

/// Split text into its lines, as `str::lines` does.
pub fn split_lines(v: &Vec<char>) -> (r: Vec<Vec<char>>)
    ensures
        views(r@) == lines(v@),
{
    let mut out: Vec<Vec<char>> = Vec::new();
    let mut i: usize = 0;
    while i < v.len()
        invariant
            i <= v.len(),
            views(out@) + lines_from(v@, i as int) == lines(v@),
        decreases v.len() - i,
    {
        let mut e = i;
        while e < v.len() && v[e] != '\n'
            invariant
                i <= e <= v.len(),
                forall|k: int| i <= k < e ==> v@[k] != '\n',
            decreases v.len() - e,
        {
            e = e + 1;
        }
        proof {
            lemma_line_end_at(v@, i as int, e as int);
        }
        let line = if e < v.len() && e > i && v[e - 1] == '\r' {
            slice_vec(v, i, e - 1)
        } else {
            slice_vec(v, i, e)
        };
        let ghost before = views(out@);
        out.push(line);
        proof {
            assert(views(out@) =~= before.push(line_at(v@, i as int)));
            assert(lines_from(v@, i as int) == seq![line_at(v@, i as int)] + lines_from(
                v@,
                e + 1,
            ));
            assert(views(out@) + lines_from(v@, e + 1) =~= before + lines_from(
                v@,
                i as int,
            ));
        }
        i = if e < v.len() {
            e + 1
        } else {
            e
        };
        proof {
            if e == v.len() {
                assert(lines_from(v@, e + 1) == Seq::<Seq<char>>::empty());
                assert(lines_from(v@, e as int) == Seq::<Seq<char>>::empty());
            }
        }
    }
    assert(views(out@) + lines_from(v@, i as int) =~= views(out@));
    out
}

// ------------------------------------------------------------------
// Prefixes, suffixes, searching
// ------------------------------------------------------------------

pub open spec fn starts_with(s: Seq<char>, p: Seq<char>) -> bool {
    p.len() <= s.len() && s.take(p.len() as int) == p
}

pub open spec fn ends_with(s: Seq<char>, p: Seq<char>) -> bool {
    p.len() <= s.len() && s.skip(s.len() - p.len()) == p
}

/// `p` stands in `s` at index `i`.
pub open spec fn occurs_at(s: Seq<char>, p: Seq<char>, i: int) -> bool {
    0 <= i && i + p.len() <= s.len() && s.subrange(i, i + p.len()) == p
}

/// `str::contains` with a string pattern.
pub open spec fn contains(s: Seq<char>, p: Seq<char>) -> bool {
    exists|i: int| occurs_at(s, p, i)
}

/// The first index at or after `i` where `p` occurs.
pub open spec fn find_from(s: Seq<char>, p: Seq<char>, i: int) -> Option<int>
    decreases s.len() + 1 - i,
{
    if i < 0 || i + p.len() > s.len() {
        None
    } else if occurs_at(s, p, i) {
        Some(i)
    } else {
        find_from(s, p, i + 1)
    }
}

/// `str::find` with a string pattern.
pub open spec fn find(s: Seq<char>, p: Seq<char>) -> Option<int> {
    find_from(s, p, 0)
}

pub proof fn lemma_find_from(s: Seq<char>, p: Seq<char>, i: int)
    requires
        0 <= i,
    ensures
        find_from(s, p, i) matches Some(j) ==> i <= j && occurs_at(s, p, j) && forall|k: int|
            i <= k < j ==> !occurs_at(s, p, k),
        find_from(s, p, i) is None ==> forall|k: int| i <= k ==> !occurs_at(s, p, k),
    decreases s.len() + 1 - i,
{
    if i + p.len() <= s.len() && !occurs_at(s, p, i) {
        lemma_find_from(s, p, i + 1);
    }
}

pub proof fn lemma_find(s: Seq<char>, p: Seq<char>)
    ensures
        find(s, p) is Some <==> contains(s, p),
        find(s, p) matches Some(j) ==> occurs_at(s, p, j) && forall|k: int|
            0 <= k < j ==> !occurs_at(s, p, k),
{
    lemma_find_from(s, p, 0);
    if contains(s, p) {
        let k = choose|k: int| occurs_at(s, p, k);
        assert(0 <= k);
    }
}

/// Does `p` stand in `v` at index `i`?
pub fn occurs_at_exec(v: &Vec<char>, p: &Vec<char>, i: usize) -> (r: bool)
    ensures
        r == occurs_at(v@, p@, i as int),
{
    if i > v.len() || p.len() > v.len() - i {
        return false;
    }
    let mut k: usize = 0;
    while k < p.len()
        invariant
            i + p.len() <= v.len(),
            k <= p.len(),
            forall|j: int| 0 <= j < k ==> v@[i + j] == p@[j],
        decreases p.len() - k,
    {
        if v[i + k] != p[k] {
            assert(v@.subrange(i as int, i + p.len())[k as int] != p@[k as int]);
            return false;
        }
        k = k + 1;
    }
    assert(v@.subrange(i as int, i + p.len()) =~= p@);
    true
}

/// `str::strip_prefix`.
pub open spec fn strip_prefix(s: Seq<char>, p: Seq<char>) -> Option<Seq<char>> {
    if starts_with(s, p) {
        Some(s.skip(p.len() as int))
    } else {
        None
    }
}

/// `str::strip_suffix`.
pub open spec fn strip_suffix(s: Seq<char>, p: Seq<char>) -> Option<Seq<char>> {
    if ends_with(s, p) {
        Some(s.take(s.len() - p.len()))
    } else {
        None
    }
}

/// View of an optional string.
pub open spec fn opt_view(o: Option<String>) -> Option<Seq<char>> {
    match o {
        Some(s) => Some(s@),
        None => None,
    }
}

/// View of an optional character vector.
pub open spec fn opt_chars(o: Option<Vec<char>>) -> Option<Seq<char>> {
    match o {
        Some(s) => Some(s@),
        None => None,
    }
}

pub fn strip_prefix_chars(v: &Vec<char>, p: &Vec<char>) -> (r: Option<Vec<char>>)
    ensures
        opt_chars(r) == strip_prefix(v@, p@),
{
    if has_prefix(v, p) {
        let r = slice_vec(v, p.len(), v.len());
        assert(r@ =~= v@.skip(p@.len() as int));
        Some(r)
    } else {
        None
    }
}

pub fn strip_suffix_chars(v: &Vec<char>, p: &Vec<char>) -> (r: Option<Vec<char>>)
    ensures
        opt_chars(r) == strip_suffix(v@, p@),
{
    if has_suffix(v, p) {
        let r = slice_vec(v, 0, v.len() - p.len());
        assert(r@ =~= v@.take(v@.len() - p@.len()));
        Some(r)
    } else {
        None
    }
}

/// The string that a vector of characters spells, if any.
pub fn opt_string(o: Option<Vec<char>>) -> (r: Option<String>)
    ensures
        opt_view(r) == opt_chars(o),
{
    match o {
        Some(v) => Some(string_of(&v)),
        None => None,
    }
}

pub fn has_prefix(v: &Vec<char>, p: &Vec<char>) -> (r: bool)
    ensures
        r == starts_with(v@, p@),
{
    let r = occurs_at_exec(v, p, 0);
    proof {
        if p@.len() <= v@.len() {
            assert(v@.subrange(0, p@.len() as int) =~= v@.take(p@.len() as int));
        }
    }
    r
}

pub fn has_suffix(v: &Vec<char>, p: &Vec<char>) -> (r: bool)
    ensures
        r == ends_with(v@, p@),
{
    if p.len() > v.len() {
        return false;
    }
    let r = occurs_at_exec(v, p, v.len() - p.len());
    proof {
        assert(v@.subrange(v@.len() - p@.len(), v@.len() as int) =~= v@.skip(
            v@.len() - p@.len(),
        ));
    }
    r
}

/// The first index at or after `from` where `p` occurs in `v`.
pub fn find_from_exec(v: &Vec<char>, p: &Vec<char>, from: usize) -> (r: Option<usize>)
    ensures
        r matches Some(j) ==> find_from(v@, p@, from as int) == Some(j as int),
        r is None ==> find_from(v@, p@, from as int) is None,
{
    let mut i = from;
    proof {
        lemma_find_from(v@, p@, from as int);
    }
    while i <= v.len() && p.len() <= v.len() - i
        invariant
            from <= i,
            find_from(v@, p@, from as int) == find_from(v@, p@, i as int),
        decreases v.len() + 1 - i,
    {
        if occurs_at_exec(v, p, i) {
            return Some(i);
        }
        proof {
            if p@.len() == 0 {
                assert(v@.subrange(i as int, i as int) =~= p@);
            }
        }
        i = i + 1;
    }
    None
}

pub fn contains_exec(v: &Vec<char>, p: &Vec<char>) -> (r: bool)
    ensures
        r == contains(v@, p@),
{
    let f = find_from_exec(v, p, 0);
    proof {
        lemma_find(v@, p@);
    }
    f.is_some()
}

// ------------------------------------------------------------------
// Splitting
// ------------------------------------------------------------------

/// Index of the first `c` at or after `i`, or `s.len()`.
pub open spec fn next_index(s: Seq<char>, c: char, i: int) -> int
    decreases s.len() - i,
{
    if i < 0 || i >= s.len() {
        s.len() as int
    } else if s[i] == c {
        i
    } else {
        next_index(s, c, i + 1)
    }
}

pub proof fn lemma_next_index(s: Seq<char>, c: char, i: int)
    requires
        0 <= i <= s.len(),
    ensures
        i <= next_index(s, c, i) <= s.len(),
        next_index(s, c, i) < s.len() ==> s[next_index(s, c, i)] == c,
        forall|k: int| i <= k < next_index(s, c, i) ==> s[k] != c,
    decreases s.len() - i,
{
    if i < s.len() && s[i] != c {
        lemma_next_index(s, c, i + 1);
    }
}

pub proof fn lemma_next_index_at(s: Seq<char>, c: char, i: int, e: int)
    requires
        0 <= i <= e <= s.len(),
        forall|k: int| i <= k < e ==> s[k] != c,
        e == s.len() || s[e] == c,
    ensures
        next_index(s, c, i) == e,
    decreases e - i,
{
    if i < e {
        lemma_next_index_at(s, c, i + 1, e);
    }
}

/// The pieces of `s[i..]` between occurrences of `c` (`str::split` with a char).
pub open spec fn split_from(s: Seq<char>, c: char, i: int) -> Seq<Seq<char>>
    decreases s.len() + 1 - i,
    via split_from_decreases
{
    if i < 0 || i > s.len() {
        seq![]
    } else {
        let e = next_index(s, c, i);
        if e >= s.len() {
            seq![s.subrange(i, s.len() as int)]
        } else {
            seq![s.subrange(i, e)] + split_from(s, c, e + 1)
        }
    }
}

#[via_fn]
proof fn split_from_decreases(s: Seq<char>, c: char, i: int) {
    if 0 <= i <= s.len() {
        lemma_next_index(s, c, i);
    }
}

/// `str::split(c)`.
pub open spec fn split(s: Seq<char>, c: char) -> Seq<Seq<char>> {
    split_from(s, c, 0)
}

/// Splitting always gives at least one piece.
pub proof fn lemma_split_nonempty(s: Seq<char>, c: char)
    ensures
        split(s, c).len() > 0,
{
    lemma_next_index(s, c, 0);
}

/// Splitting `s`, a separator and a text without separators gives the
/// pieces of `s` and then that text.
pub proof fn lemma_split_append(s: Seq<char>, c: char, n: Seq<char>)
    requires
        forall|k: int| 0 <= k < n.len() ==> n[k] != c,
    ensures
        split(s + seq![c] + n, c) == split(s, c).push(n),
{
    lemma_split_from_append(s, c, n, 0);
}

proof fn lemma_split_from_append(s: Seq<char>, c: char, n: Seq<char>, i: int)
    requires
        0 <= i <= s.len(),
        forall|k: int| 0 <= k < n.len() ==> n[k] != c,
    ensures
        split_from(s + seq![c] + n, c, i) == split_from(s, c, i).push(n),
    decreases s.len() - i,
{
    let x = s + seq![c] + n;
    assert(x.len() == s.len() + 1 + n.len());
    assert(x[s.len() as int] == c);
    lemma_next_index(s, c, i);
    let e = next_index(s, c, i);
    assert forall|k: int| i <= k < e implies x[k] != c by {
        assert(x[k] == s[k]);
    }
    if e < s.len() {
        assert(x[e] == s[e]);
        lemma_next_index_at(x, c, i, e);
        assert(x.subrange(i, e) =~= s.subrange(i, e));
        lemma_split_from_append(s, c, n, e + 1);
        assert(split_from(x, c, i) == seq![s.subrange(i, e)] + split_from(x, c, e + 1));
        assert(split_from(s, c, i) == seq![s.subrange(i, e)] + split_from(s, c, e + 1));
        assert((seq![s.subrange(i, e)] + split_from(s, c, e + 1)).push(n) =~= seq![s.subrange(i, e)] + split_from(s, c, e + 1).push(n));
    } else {
        lemma_next_index_at(x, c, i, s.len() as int);
        let j: int = s.len() as int + 1;
        assert forall|k: int| j <= k < x.len() implies x[k] != c by {
            assert(x[k] == n[k - j]);
        }
        lemma_next_index_at(x, c, j, x.len() as int);
        assert(x.subrange(j, x.len() as int) =~= n);
        assert(x.subrange(i, s.len() as int) =~= s.subrange(i, s.len() as int));
        assert(split_from(x, c, j) == seq![n]);
        assert(split_from(x, c, i) =~= seq![s.subrange(i, s.len() as int)] + seq![n]);
    }
}

/// At most `n` pieces of `s[i..]`; the last holds the rest (`str::splitn`).
pub open spec fn splitn_from(s: Seq<char>, c: char, i: int, n: nat) -> Seq<Seq<char>>
    decreases s.len() + 1 - i,
    via splitn_from_decreases
{
    if n == 0 || i < 0 || i > s.len() {
        seq![]
    } else if n == 1 {
        seq![s.subrange(i, s.len() as int)]
    } else {
        let e = next_index(s, c, i);
        if e >= s.len() {
            seq![s.subrange(i, s.len() as int)]
        } else {
            seq![s.subrange(i, e)] + splitn_from(s, c, e + 1, (n - 1) as nat)
        }
    }
}

#[via_fn]
proof fn splitn_from_decreases(s: Seq<char>, c: char, i: int, n: nat) {
    if 0 <= i <= s.len() {
        lemma_next_index(s, c, i);
    }
}

/// `str::splitn(n, c)`.
pub open spec fn splitn(s: Seq<char>, n: nat, c: char) -> Seq<Seq<char>> {
    splitn_from(s, c, 0, n)
}

/// Index of the first `c` in `v` at or after `i` (or `v.len()`).
pub fn next_index_exec(v: &Vec<char>, c: char, i: usize) -> (e: usize)
    requires
        i <= v.len(),
    ensures
        e == next_index(v@, c, i as int),
        i <= e <= v.len(),
{
    let mut e = i;
    while e < v.len() && v[e] != c
        invariant
            i <= e <= v.len(),
            forall|k: int| i <= k < e ==> v@[k] != c,
        decreases v.len() - e,
    {
        e = e + 1;
    }
    proof {
        lemma_next_index_at(v@, c, i as int, e as int);
    }
    e
}

/// `str::splitn(n, c)` over characters.
pub fn splitn_chars(v: &Vec<char>, n: usize, c: char) -> (r: Vec<Vec<char>>)
    ensures
        views(r@) == splitn(v@, n as nat, c),
{
    let mut out: Vec<Vec<char>> = Vec::new();
    if n == 0 {
        return out;
    }
    let mut i: usize = 0;
    let mut left: usize = n;
    while left > 1
        invariant
            i <= v.len(),
            1 <= left <= n,
            views(out@) + splitn_from(v@, c, i as int, left as nat) == splitn(v@, n as nat, c),
        decreases left,
    {
        let e = next_index_exec(v, c, i);
        if e >= v.len() {
            let piece = slice_vec(v, i, v.len());
            let ghost before = views(out@);
            out.push(piece);
            assert(views(out@) =~= before.push(piece@));
            assert(views(out@) =~= before + splitn_from(v@, c, i as int, left as nat));
            return out;
        }
        let piece = slice_vec(v, i, e);
        let ghost before = views(out@);
        out.push(piece);
        assert(views(out@) =~= before.push(piece@));
        assert(views(out@) + splitn_from(v@, c, e + 1, (left - 1) as nat) =~= before
            + splitn_from(v@, c, i as int, left as nat));
        i = e + 1;
        left = left - 1;
    }
    let piece = slice_vec(v, i, v.len());
    let ghost before = views(out@);
    out.push(piece);
    assert(views(out@) =~= before.push(piece@));
    assert(views(out@) =~= before + splitn_from(v@, c, i as int, left as nat));
    out
}

/// `str::split(c)` over characters.
pub fn split_chars(v: &Vec<char>, c: char) -> (r: Vec<Vec<char>>)
    ensures
        views(r@) == split(v@, c),
{
    let mut out: Vec<Vec<char>> = Vec::new();
    let mut i: usize = 0;
    loop
        invariant
            i <= v.len(),
            views(out@) + split_from(v@, c, i as int) == split(v@, c),
        decreases v.len() - i,
    {
        let e = next_index_exec(v, c, i);
        if e >= v.len() {
            let piece = slice_vec(v, i, v.len());
            let ghost before = views(out@);
            out.push(piece);
            assert(views(out@) =~= before.push(piece@));
            assert(views(out@) =~= before + split_from(v@, c, i as int));
            return out;
        }
        let piece = slice_vec(v, i, e);
        let ghost before = views(out@);
        out.push(piece);
        assert(views(out@) =~= before.push(piece@));
        assert(views(out@) + split_from(v@, c, e + 1) =~= before + split_from(v@, c, i as int));
        i = e + 1;
    }
}

/// `str::split_whitespace` on `s[i..]`.
pub open spec fn words_from(s: Seq<char>, i: int) -> Seq<Seq<char>>
    decreases s.len() + 1 - i,
    via words_from_decreases
{
    if i < 0 || i >= s.len() {
        seq![]
    } else if is_ws(s[i]) {
        words_from(s, i + 1)
    } else {
        let e = word_end(s, i);
        seq![s.subrange(i, e)] + words_from(s, e)
    }
}

/// Index of the first whitespace at or after `i`, or `s.len()`.
pub open spec fn word_end(s: Seq<char>, i: int) -> int
    decreases s.len() - i,
{
    if i < 0 || i >= s.len() {
        s.len() as int
    } else if is_ws(s[i]) {
        i
    } else {
        word_end(s, i + 1)
    }
}

pub proof fn lemma_word_end(s: Seq<char>, i: int)
    requires
        0 <= i <= s.len(),
    ensures
        i <= word_end(s, i) <= s.len(),
        word_end(s, i) < s.len() ==> is_ws(s[word_end(s, i)]),
        forall|k: int| i <= k < word_end(s, i) ==> !is_ws(s[k]),
    decreases s.len() - i,
{
    if i < s.len() && !is_ws(s[i]) {
        lemma_word_end(s, i + 1);
    }
}

pub proof fn lemma_word_end_at(s: Seq<char>, i: int, e: int)
    requires
        0 <= i <= e <= s.len(),
        forall|k: int| i <= k < e ==> !is_ws(s[k]),
        e == s.len() || is_ws(s[e]),
    ensures
        word_end(s, i) == e,
    decreases e - i,
{
    if i < e {
        lemma_word_end_at(s, i + 1, e);
    }
}

#[via_fn]
proof fn words_from_decreases(s: Seq<char>, i: int) {
    if 0 <= i < s.len() && !is_ws(s[i]) {
        lemma_word_end(s, i);
    }
}

/// `str::split_whitespace`.
pub open spec fn words(s: Seq<char>) -> Seq<Seq<char>> {
    words_from(s, 0)
}

pub fn split_whitespace_chars(v: &Vec<char>) -> (r: Vec<Vec<char>>)
    ensures
        views(r@) == words(v@),
{
    let mut out: Vec<Vec<char>> = Vec::new();
    let mut i: usize = 0;
    while i < v.len()
        invariant
            i <= v.len(),
            views(out@) + words_from(v@, i as int) == words(v@),
        decreases v.len() - i,
    {
        if is_whitespace(v[i]) {
            i = i + 1;
        } else {
            let mut e = i;
            while e < v.len() && !is_whitespace(v[e])
                invariant
                    i <= e <= v.len(),
                    forall|k: int| i <= k < e ==> !is_ws(v@[k]),
                decreases v.len() - e,
            {
                e = e + 1;
            }
            proof {
                lemma_word_end_at(v@, i as int, e as int);
            }
            let piece = slice_vec(v, i, e);
            let ghost before = views(out@);
            out.push(piece);
            assert(views(out@) =~= before.push(piece@));
            assert(views(out@) + words_from(v@, e as int) =~= before + words_from(v@, i as int));
            i = e;
        }
    }
    assert(views(out@) + words_from(v@, i as int) =~= views(out@));
    out
}

// ------------------------------------------------------------------
// Decimal numbers
// ------------------------------------------------------------------

pub open spec fn is_digit(c: char) -> bool {
    '0' <= c && c <= '9'
}

pub open spec fn digit_val(c: char) -> nat {
    (c as u32 - '0' as u32) as nat
}

pub open spec fn all_digits(s: Seq<char>) -> bool {
    forall|i: int| 0 <= i < s.len() ==> is_digit(#[trigger] s[i])
}

/// The value of a string of decimal digits.
pub open spec fn digits_value(s: Seq<char>) -> nat
    decreases s.len(),
{
    if s.len() == 0 {
        0
    } else {
        digits_value(s.drop_last()) * 10 + digit_val(s.last())
    }
}

/// `FromStr` of an unsigned integer type whose largest value is `max`:
/// an optional `'+'`, then one or more digits, and a value that fits.
pub open spec fn parse_unsigned(s: Seq<char>, max: nat) -> Option<nat> {
    let body = if s.len() > 0 && s[0] == '+' {
        s.drop_first()
    } else {
        s
    };
    if body.len() > 0 && all_digits(body) && digits_value(body) <= max {
        Some(digits_value(body))
    } else {
        None
    }
}

/// `FromStr` for `i64`: an optional sign, then one or more digits, and a
/// value in range.
pub open spec fn parse_i64_spec(s: Seq<char>) -> Option<int> {
    if s.len() > 0 && s[0] == '-' {
        let body = s.drop_first();
        if body.len() > 0 && all_digits(body) && digits_value(body) <= 0x8000_0000_0000_0000 {
            Some(-(digits_value(body) as int))
        } else {
            None
        }
    } else {
        match parse_unsigned(s, 0x7fff_ffff_ffff_ffff) {
            Some(v) => Some(v as int),
            None => None,
        }
    }
}

/// Value of the digits `v[lo..hi]`, or `None` when a character is not a
/// digit, the range is empty, or the value exceeds `max`.
fn digits_in(v: &Vec<char>, lo: usize, hi: usize, max: u64) -> (r: Option<u64>)
    requires
        lo <= hi <= v.len(),
    ensures
        r matches Some(x) ==> {
            let b = v@.subrange(lo as int, hi as int);
            &&& b.len() > 0
            &&& all_digits(b)
            &&& digits_value(b) == x
            &&& x <= max
        },
        r is None ==> {
            let b = v@.subrange(lo as int, hi as int);
            !(b.len() > 0 && all_digits(b) && digits_value(b) <= max)
        },
{
    if lo == hi {
        return None;
    }
    let mut acc: u64 = 0;
    let mut i = lo;
    while i < hi
        invariant
            lo <= i <= hi <= v.len(),
            all_digits(v@.subrange(lo as int, i as int)),
            digits_value(v@.subrange(lo as int, i as int)) == acc,
            acc <= max,
        decreases hi - i,
    {
        let c = v[i];
        let ghost pre = v@.subrange(lo as int, i as int);
        let ghost next = v@.subrange(lo as int, i + 1);
        assert(next.drop_last() =~= pre);
        if !('0' <= c && c <= '9') {
            proof {
                let b = v@.subrange(lo as int, hi as int);
                assert(b[i - lo] == c);
            }
            return None;
        }
        let d = (c as u32 - '0' as u32) as u64;
        if d > max || acc > (max - d) / 10 {
            proof {
                let b = v@.subrange(lo as int, hi as int);
                assert(acc * 10 + d > max) by (nonlinear_arith)
                    requires
                        d > max || acc > (max - d) / 10,
                        d <= max ==> (max - d) / 10 * 10 <= max - d,
                        d <= max ==> max - d < (max - d) / 10 * 10 + 10,
                ;
                lemma_digits_value_prefix_le(b, i + 1 - lo);
                assert(b.subrange(0, i + 1 - lo) =~= next);
            }
            return None;
        }
        assert(acc * 10 + d <= max) by (nonlinear_arith)
            requires
                acc <= (max - d) / 10,
                d <= max,
        ;
        acc = acc * 10 + d;
        i = i + 1;
        assert(all_digits(v@.subrange(lo as int, i as int)));
    }
    Some(acc)
}

/// Extending a digit string never lowers its value.
pub proof fn lemma_digits_value_prefix_le(b: Seq<char>, k: int)
    requires
        0 <= k <= b.len(),
    ensures
        all_digits(b) ==> digits_value(b.subrange(0, k)) <= digits_value(b),
    decreases b.len() - k,
{
    if k < b.len() && all_digits(b) {
        let t = b.drop_last();
        assert(all_digits(t));
        if k <= t.len() {
            lemma_digits_value_prefix_le(t, k);
            assert(t.subrange(0, k) =~= b.subrange(0, k));
        }
        assert(digits_value(t) <= digits_value(b));
        if k == b.len() {
        } else {
            assert(digits_value(b.subrange(0, k)) <= digits_value(t));
        }
    } else if k == b.len() {
        assert(b.subrange(0, k) =~= b);
    }
}

pub fn parse_u64(v: &Vec<char>) -> (r: Option<u64>)
    ensures
        r matches Some(x) ==> parse_unsigned(v@, u64::MAX as nat) == Some(x as nat),
        r is None ==> parse_unsigned(v@, u64::MAX as nat) is None,
{
    let start: usize = if v.len() > 0 && v[0] == '+' {
        1
    } else {
        0
    };
    proof {
        if v@.len() > 0 && v@[0] == '+' {
            assert(v@.subrange(1, v@.len() as int) =~= v@.drop_first());
        } else {
            assert(v@.subrange(0, v@.len() as int) =~= v@);
        }
    }
    digits_in(v, start, v.len(), u64::MAX)
}

pub fn parse_u32(v: &Vec<char>) -> (r: Option<u32>)
    ensures
        r matches Some(x) ==> parse_unsigned(v@, u32::MAX as nat) == Some(x as nat),
        r is None ==> parse_unsigned(v@, u32::MAX as nat) is None,
{
    let start: usize = if v.len() > 0 && v[0] == '+' {
        1
    } else {
        0
    };
    proof {
        if v@.len() > 0 && v@[0] == '+' {
            assert(v@.subrange(1, v@.len() as int) =~= v@.drop_first());
        } else {
            assert(v@.subrange(0, v@.len() as int) =~= v@);
        }
    }
    match digits_in(v, start, v.len(), u32::MAX as u64) {
        Some(x) => Some(x as u32),
        None => None,
    }
}

pub fn parse_i64(v: &Vec<char>) -> (r: Option<i64>)
    ensures
        r matches Some(x) ==> parse_i64_spec(v@) == Some(x as int),
        r is None ==> parse_i64_spec(v@) is None,
{
    if v.len() > 0 && v[0] == '-' {
        proof {
            assert(v@.subrange(1, v@.len() as int) =~= v@.drop_first());
        }
        match digits_in(v, 1, v.len(), 0x8000_0000_0000_0000u64) {
            Some(x) => {
                if x == 0x8000_0000_0000_0000u64 {
                    Some(i64::MIN)
                } else {
                    Some(-(x as i64))
                }
            },
            None => None,
        }
    } else {
        let start: usize = if v.len() > 0 && v[0] == '+' {
            1
        } else {
            0
        };
        proof {
            if v@.len() > 0 && v@[0] == '+' {
                assert(v@.subrange(1, v@.len() as int) =~= v@.drop_first());
            } else {
                assert(v@.subrange(0, v@.len() as int) =~= v@);
            }
        }
        match digits_in(v, start, v.len(), 0x7fff_ffff_ffff_ffffu64) {
            Some(x) => Some(x as i64),
            None => None,
        }
    }
}

pub open spec fn digit_char(d: nat) -> char
    recommends
        d < 10,
{
    (('0' as u32) + d) as char
}

/// The decimal representation of `n` (as `Display` writes it).
pub open spec fn decimal(n: nat) -> Seq<char>
    decreases n,
{
    if n < 10 {
        seq![digit_char(n)]
    } else {
        decimal(n / 10).push(digit_char(n % 10))
    }
}

/// The decimal representation of a signed integer.
pub open spec fn decimal_int(n: int) -> Seq<char> {
    if n < 0 {
        seq!['-'] + decimal((-n) as nat)
    } else {
        decimal(n as nat)
    }
}

fn digit_to_char(d: u64) -> (c: char)
    requires
        d < 10,
    ensures
        c == digit_char(d as nat),
{
    match d {
        0 => '0',
        1 => '1',
        2 => '2',
        3 => '3',
        4 => '4',
        5 => '5',
        6 => '6',
        7 => '7',
        8 => '8',
        _ => '9',
    }
}

pub fn u64_to_chars(n: u64) -> (r: Vec<char>)
    ensures
        r@ == decimal(n as nat),
    decreases n,
{
    let c = digit_to_char(n % 10);
    if n < 10 {
        let mut v: Vec<char> = Vec::new();
        v.push(c);
        assert(v@ =~= seq![digit_char(n as nat)]);
        v
    } else {
        let mut v = u64_to_chars(n / 10);
        v.push(c);
        v
    }
}

pub fn i64_to_chars(n: i64) -> (r: Vec<char>)
    ensures
        r@ == decimal_int(n as int),
{
    if n < 0 {
        let m: u64 = if n == i64::MIN {
            0x8000_0000_0000_0000u64
        } else {
            (-n) as u64
        };
        let digits = u64_to_chars(m);
        let mut v: Vec<char> = Vec::new();
        v.push('-');
        let r = concat(&v, &digits);
        assert(v@ =~= seq!['-']);
        r
    } else {
        u64_to_chars(n as u64)
    }
}

} // verus!
