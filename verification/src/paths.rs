//! Unix paths as text. A path is read as its components, the way
//! `std::path` reads it: an optional root, then the parts between `/`
//! separators, where empty parts and `.` parts other than a leading one do
//! not count. Two texts with the same components name the same path (`a//b`
//! and `a/b`); the functions here give paths in that normal form.
use vstd::prelude::*;

use crate::text::{chars_eq, chars_of, concat, split, split_chars, string_of};

verus! {

pub open spec fn has_root(p: Seq<char>) -> bool {
    p.len() > 0 && p[0] == '/'
}

/// The parts of the given pieces that count as components.
pub open spec fn kept_parts(parts: Seq<Seq<char>>) -> Seq<Seq<char>>
    decreases parts.len(),
{
    if parts.len() == 0 {
        seq![]
    } else {
        let rest = kept_parts(parts.drop_last());
        let l = parts.last();
        if l.len() == 0 || l == "."@ {
            rest
        } else {
            rest.push(l)
        }
    }
}

/// A relative path that starts with a `.` component keeps it (`./a`).
pub open spec fn leading_cur_dir(p: Seq<char>) -> bool {
    !has_root(p) && split(p, '/')[0] == "."@
}

/// The components after the root: a leading `.` when there is one, then the
/// normal parts (and `..`).
pub open spec fn components(p: Seq<char>) -> Seq<Seq<char>> {
    if leading_cur_dir(p) {
        seq!["."@] + kept_parts(split(p, '/'))
    } else {
        kept_parts(split(p, '/'))
    }
}

/// Parts joined with `/`.
pub open spec fn join_parts(parts: Seq<Seq<char>>) -> Seq<char>
    decreases parts.len(),
{
    if parts.len() == 0 {
        seq![]
    } else if parts.len() == 1 {
        parts[0]
    } else {
        join_parts(parts.drop_last()) + seq!['/'] + parts.last()
    }
}

/// The path with the given root flag and components.
pub open spec fn build_path(root: bool, comps: Seq<Seq<char>>) -> Seq<char> {
    if root {
        seq!['/'] + join_parts(comps)
    } else {
        join_parts(comps)
    }
}

/// `Path::parent`: the path without its last component; `None` for the
/// root and for the empty path.
pub open spec fn path_parent(p: Seq<char>) -> Option<Seq<char>> {
    let c = components(p);
    if c.len() == 0 {
        None
    } else {
        Some(build_path(has_root(p), c.drop_last()))
    }
}

/// `Path::file_name`: the last component when it is a normal one.
pub open spec fn path_file_name(p: Seq<char>) -> Option<Seq<char>> {
    let c = components(p);
    if c.len() == 0 || (c.len() == 1 && leading_cur_dir(p)) || c.last() == ".."@ {
        None
    } else {
        Some(c.last())
    }
}

/// `Path::join` (and `PathBuf::push`) with a relative or absolute path: an
/// absolute one replaces the base; otherwise a `/` goes between them unless
/// the base is empty or already ends with one.
pub open spec fn path_join(base: Seq<char>, rel: Seq<char>) -> Seq<char> {
    if has_root(rel) {
        rel
    } else if base.len() == 0 || base.last() == '/' {
        base + rel
    } else {
        base + seq!['/'] + rel
    }
}

fn kept_parts_exec(parts: &Vec<Vec<char>>) -> (r: Vec<Vec<char>>)
    ensures
        crate::text::views(r@) == kept_parts(crate::text::views(parts@)),
{
    let ghost all = crate::text::views(parts@);
    let dot = chars_of(".");
    let mut out: Vec<Vec<char>> = Vec::new();
    let mut i: usize = 0;
    while i < parts.len()
        invariant
            i <= parts.len(),
            all == crate::text::views(parts@),
            dot@ == "."@,
            crate::text::views(out@) == kept_parts(all.take(i as int)),
        decreases parts.len() - i,
    {
        proof {
            assert(all.take(i + 1).drop_last() =~= all.take(i as int));
            assert(all.take(i + 1).last() == parts@[i as int]@);
        }
        if parts[i].len() > 0 && !chars_eq(&parts[i], &dot) {
            let ghost before = crate::text::views(out@);
            out.push(crate::text::copy_chars(&parts[i]));
            assert(crate::text::views(out@) =~= before.push(parts@[i as int]@));
        }
        i = i + 1;
    }
    assert(all.take(i as int) =~= all);
    out
}

/// The components of a path.
pub fn components_exec(p: &Vec<char>) -> (r: Vec<Vec<char>>)
    ensures
        crate::text::views(r@) == components(p@),
{
    let parts = split_chars(p, '/');
    let kept = kept_parts_exec(&parts);
    let root = p.len() > 0 && p[0] == '/';
    assert(split(p@, '/').len() > 0) by {
        crate::text::lemma_split_nonempty(p@, '/');
    }
    if !root && chars_eq(&parts[0], &chars_of(".")) {
        let mut out: Vec<Vec<char>> = Vec::new();
        out.push(chars_of("."));
        let mut j: usize = 0;
        while j < kept.len()
            invariant
                j <= kept.len(),
                crate::text::views(out@) == seq!["."@] + crate::text::views(kept@).take(j as int),
            decreases kept.len() - j,
        {
            let ghost before = crate::text::views(out@);
            let item = crate::text::copy_chars(&kept[j]);
            out.push(item);
            assert(crate::text::views(out@) =~= before.push(kept@[j as int]@));
            assert(crate::text::views(kept@).take(j + 1) =~= crate::text::views(kept@).take(
                j as int,
            ).push(kept@[j as int]@));
            assert(crate::text::views(out@) =~= seq!["."@] + crate::text::views(kept@).take(
                j + 1,
            ));
            j = j + 1;
        }
        assert(crate::text::views(kept@).take(kept.len() as int) =~= crate::text::views(kept@));
        out
    } else {
        kept
    }
}

fn join_parts_exec(parts: &Vec<Vec<char>>, n: usize) -> (r: Vec<char>)
    requires
        n <= parts.len(),
    ensures
        r@ == join_parts(crate::text::views(parts@).take(n as int)),
{
    let ghost all = crate::text::views(parts@);
    let mut out: Vec<char> = Vec::new();
    let mut i: usize = 0;
    assert(all.take(0) =~= Seq::<Seq<char>>::empty());
    while i < n
        invariant
            i <= n <= parts.len(),
            all == crate::text::views(parts@),
            out@ == join_parts(all.take(i as int)),
        decreases n - i,
    {
        proof {
            assert(all.take(i + 1).drop_last() =~= all.take(i as int));
            assert(all.take(i + 1).last() == parts@[i as int]@);
        }
        if i == 0 {
            out = crate::text::copy_chars(&parts[0]);
            assert(all.take(1) =~= seq![parts@[0]@]);
        } else {
            let mut sep: Vec<char> = Vec::new();
            sep.push('/');
            let t = concat(&out, &sep);
            out = concat(&t, &parts[i]);
            assert(sep@ =~= seq!['/']);
        }
        i = i + 1;
    }
    out
}

fn build_path_exec(root: bool, comps: &Vec<Vec<char>>, n: usize) -> (r: Vec<char>)
    requires
        n <= comps.len(),
    ensures
        r@ == build_path(root, crate::text::views(comps@).take(n as int)),
{
    let j = join_parts_exec(comps, n);
    if root {
        let mut s: Vec<char> = Vec::new();
        s.push('/');
        assert(s@ =~= seq!['/']);
        concat(&s, &j)
    } else {
        j
    }
}

/// `Path::parent` of a path.
pub fn parent(p: &str) -> (r: Option<String>)
    ensures
        crate::text::opt_view(r) == path_parent(p@),
{
    let v = chars_of(p);
    let c = components_exec(&v);
    if c.len() == 0 {
        None
    } else {
        let root = v.len() > 0 && v[0] == '/';
        let b = build_path_exec(root, &c, c.len() - 1);
        assert(crate::text::views(c@).take(c.len() - 1) =~= crate::text::views(c@).drop_last());
        Some(string_of(&b))
    }
}

/// `Path::file_name` of a path.
pub fn file_name(p: &str) -> (r: Option<String>)
    ensures
        crate::text::opt_view(r) == path_file_name(p@),
{
    let v = chars_of(p);
    let c = components_exec(&v);
    let parts = split_chars(&v, '/');
    assert(split(v@, '/').len() > 0) by {
        crate::text::lemma_split_nonempty(v@, '/');
    }
    let root = v.len() > 0 && v[0] == '/';
    let lead = !root && chars_eq(&parts[0], &chars_of("."));
    if c.len() == 0 || (c.len() == 1 && lead) {
        return None;
    }
    let last = &c[c.len() - 1];
    assert(crate::text::views(c@).last() == last@);
    if chars_eq(last, &chars_of("..")) {
        None
    } else {
        Some(string_of(last))
    }
}

/// `Path::join` of two paths.
pub fn join(base: &str, rel: &str) -> (r: String)
    ensures
        r@ == path_join(base@, rel@),
{
    let b = chars_of(base);
    let r = chars_of(rel);
    if r.len() > 0 && r[0] == '/' {
        return rel.to_string();
    }
    if b.len() == 0 || b[b.len() - 1] == '/' {
        string_of(&concat(&b, &r))
    } else {
        let mut sep: Vec<char> = Vec::new();
        sep.push('/');
        assert(sep@ =~= seq!['/']);
        string_of(&concat(&concat(&b, &sep), &r))
    }
}

/// `Path::starts_with`: the base's root and components begin the path's.
pub open spec fn path_starts_with(p: Seq<char>, base: Seq<char>) -> bool {
    &&& has_root(p) == has_root(base)
    &&& components(base).len() <= components(p).len()
    &&& components(p).take(components(base).len() as int) == components(base)
}

/// Whether `p` starts with `base`, component by component.
pub fn starts_with_path(p: &str, base: &str) -> (r: bool)
    ensures
        r == path_starts_with(p@, base@),
{
    let pv = chars_of(p);
    let bv = chars_of(base);
    let cp = components_exec(&pv);
    let cb = components_exec(&bv);
    let ghost vp = crate::text::views(cp@);
    let ghost vb = crate::text::views(cb@);
    let root_p = pv.len() > 0 && pv[0] == '/';
    let root_b = bv.len() > 0 && bv[0] == '/';
    assert(vp.len() == cp@.len() && vb.len() == cb@.len());
    if root_p != root_b || cb.len() > cp.len() {
        return false;
    }
    let mut i: usize = 0;
    while i < cb.len()
        invariant
            i <= cb.len() <= cp.len(),
            vp == crate::text::views(cp@),
            vb == crate::text::views(cb@),
            vp == components(p@),
            vb == components(base@),
            forall|k: int| 0 <= k < i ==> vp[k] == vb[k],
        decreases cb.len() - i,
    {
        if !chars_eq(&cp[i], &cb[i]) {
            assert(vp.take(cb.len() as int)[i as int] != vb[i as int]);
            return false;
        }
        i = i + 1;
    }
    assert(vp.take(cb.len() as int) =~= vb);
    true
}

/// `Path::strip_prefix`: when the path starts with the base, its remaining
/// components joined with `/`.
pub open spec fn path_strip_prefix(p: Seq<char>, base: Seq<char>) -> Option<Seq<char>> {
    if path_starts_with(p, base) {
        Some(join_parts(components(p).skip(components(base).len() as int)))
    } else {
        None
    }
}

/// The path relative to a base it starts with.
pub fn strip_path_prefix(p: &str, base: &str) -> (r: Option<String>)
    ensures
        crate::text::opt_view(r) == path_strip_prefix(p@, base@),
{
    if !starts_with_path(p, base) {
        return None;
    }
    let cp = components_exec(&chars_of(p));
    let cb = components_exec(&chars_of(base));
    let ghost vp = crate::text::views(cp@);
    let ghost vb = crate::text::views(cb@);
    assert(vp.len() == cp@.len() && vb.len() == cb@.len());
    let n = cb.len();
    let mut rest: Vec<Vec<char>> = Vec::new();
    let mut i: usize = n;
    while i < cp.len()
        invariant
            n <= i <= cp.len(),
            n <= cp.len(),
            vp == crate::text::views(cp@),
            crate::text::views(rest@) == vp.subrange(n as int, i as int),
        decreases cp.len() - i,
    {
        let ghost before = crate::text::views(rest@);
        rest.push(crate::text::copy_chars(&cp[i]));
        assert(crate::text::views(rest@) =~= before.push(cp@[i as int]@));
        assert(vp.subrange(n as int, i + 1) =~= vp.subrange(n as int, i as int).push(vp[i as int]));
        i = i + 1;
    }
    assert(vp.subrange(n as int, cp.len() as int) =~= vp.skip(n as int));
    let j = join_parts_exec(&rest, rest.len());
    assert(crate::text::views(rest@).take(rest.len() as int) =~= crate::text::views(rest@));
    Some(string_of(&j))
}

/// A plain name (not empty, without `/`, neither `.` nor `..`) joined to
/// any directory is the last component of the result: its file name.
pub proof fn lemma_file_name_of_join(dir: Seq<char>, name: Seq<char>)
    requires
        name.len() > 0,
        forall|k: int| 0 <= k < name.len() ==> name[k] != '/',
        name != "."@,
        name != ".."@,
    ensures
        path_file_name(path_join(dir, name)) == Some(name),
{
    let p = path_join(dir, name);
    assert(!has_root(name));
    let ps = split(p, '/');
    if dir.len() == 0 {
        assert(p == name);
        crate::text::lemma_split_append(Seq::<char>::empty(), '/', name);
        assert(split(name, '/') =~= seq![name]) by {
            crate::text::lemma_next_index(name, '/', 0);
            crate::text::lemma_next_index_at(name, '/', 0, name.len() as int);
            assert(name.subrange(0, name.len() as int) =~= name);
        }
        assert(kept_parts(seq![name]) =~= kept_parts(Seq::<Seq<char>>::empty()).push(name)) by {
            assert(seq![name].drop_last() =~= Seq::<Seq<char>>::empty());
        }
        assert(!leading_cur_dir(p));
        assert(components(p) =~= seq![name]);
    } else {
        let t = if dir.last() == '/' {
            dir.drop_last()
        } else {
            dir
        };
        assert(p =~= t + seq!['/'] + name);
        crate::text::lemma_split_append(t, '/', name);
        assert(ps == split(t, '/').push(name));
        let kp = kept_parts(ps);
        assert(ps.drop_last() =~= split(t, '/'));
        assert(kp == kept_parts(split(t, '/')).push(name));
        let c = components(p);
        assert(c.len() > 0 && c.last() == name);
        if leading_cur_dir(p) {
            assert(c.len() >= 2);
        }
    }
}

} // verus!
