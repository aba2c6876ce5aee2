//! The files a worktree shares with the default worktree by copying: copying
//! them into a new worktree, and finding those that were changed since.
//! The files are the regular files that the configured glob patterns match
//! under the worktree, taken relative to it.
use vstd::prelude::*;

use crate::commands::add::{normalize_glob_path, slashed};
use crate::commands::effects::{
    done_of, done_result_of, effect_view, fs, fs_answer_of, lines_of, lines_result_of, next_effect, say, strings_view,
    then_do, Effect, EffectView, Level, OutcomeView, Prog, Runner,
};
use crate::commands::steps::say_exec;
use crate::config::schema::string_views;
use crate::git::operations::{FsQuery, FsQueryView, FsReply, FsReplyView};
use crate::paths::{join, parent, path_join, path_parent, path_strip_prefix, strip_path_prefix};
use crate::text::{chars_eq, chars_of, concat, decimal, join3, join4, join_str, string_of, u64_to_chars};

verus! {

/// The glob pattern for a pattern under a directory (its `\` made `/`).
pub open spec fn glob_pattern(base: Seq<char>, pattern: Seq<char>) -> Seq<char> {
    slashed(base) + "/"@ + pattern
}

pub open spec fn copied_summary(count: nat) -> Seq<char> {
    "  "@ + decimal(count) + " file(s) copied from default worktree"@
}

/// Copy the files matched from entry `j` on, each relative path once
/// (`seen` holds those met so far); `k` goes on with the paths met and the
/// number copied.
pub open spec fn copy_entries(
    from: Seq<char>,
    to: Seq<char>,
    es: Seq<Seq<char>>,
    j: int,
    seen: Seq<Seq<char>>,
    count: nat,
    k: spec_fn(Seq<Seq<char>>, nat) -> Prog,
) -> Prog
    decreases es.len() - j,
{
    if j < 0 || j >= es.len() {
        k(seen, count)
    } else {
        let e = es[j];
        let next = copy_entries(from, to, es, j + 1, seen, count, k);
        fs(
            FsQueryView::IsFile(e),
            |f: FsReplyView| if !(f is Yes) {
                next
            } else {
                match path_strip_prefix(e, from) {
                    None => next,
                    Some(rel) => if seen.contains(rel) {
                        next
                    } else {
                        let dest = path_join(to, rel);
                        let copy = Prog::Do(
                            EffectView::CopyFile { from: e, to: dest },
                            |o: OutcomeView| match done_of(o) {
                                Ok(_) => say(
                                    Level::Info,
                                    "  Copied: "@ + rel,
                                    copy_entries(from, to, es, j + 1, seen.push(rel), count + 1, k),
                                ),
                                Err(m) => say(
                                    Level::Warning,
                                    "  Warning: failed to copy "@ + rel + ": "@ + m,
                                    copy_entries(from, to, es, j + 1, seen.push(rel), count, k),
                                ),
                            },
                        );
                        match path_parent(dest) {
                            Some(p) => then_do(EffectView::CreateDirAll(p), copy),
                            None => copy,
                        }
                    },
                }
            },
        )
    }
}

/// Copy the matches of the patterns from `i` on, then report how many
/// files were copied (when any were).
pub open spec fn copy_patterns(
    from: Seq<char>,
    to: Seq<char>,
    ps: Seq<Seq<char>>,
    i: int,
    seen: Seq<Seq<char>>,
    count: nat,
    then: Prog,
) -> Prog
    decreases ps.len() - i, 1int,
{
    if i < 0 || i >= ps.len() {
        if count > 0 {
            say(Level::Info, copied_summary(count), then)
        } else {
            then
        }
    } else {
        Prog::Do(
            EffectView::Glob(glob_pattern(from, ps[i])),
            |o: OutcomeView| copy_entries(from, to, lines_of(o), 0, seen, count, next_pattern(from, to, ps, i, then)),
        )
    }
}

/// After the matches of pattern `i`: the next pattern.
pub open spec fn next_pattern(from: Seq<char>, to: Seq<char>, ps: Seq<Seq<char>>, i: int, then: Prog) -> spec_fn(
    Seq<Seq<char>>,
    nat,
) -> Prog
    decreases ps.len() - i, 0int,
{
    |s: Seq<Seq<char>>, c: nat| if i < ps.len() {
        copy_patterns(from, to, ps, i + 1, s, c, then)
    } else {
        then
    }
}

/// Copy the files that the patterns match under `from` into `to`, keeping
/// their relative paths and creating directories as needed; each copy (or
/// failure to copy) is reported. Nothing happens without patterns.
pub open spec fn copy_files_prog(from: Seq<char>, to: Seq<char>, ps: Seq<Seq<char>>, then: Prog) -> Prog {
    if ps.len() == 0 {
        then
    } else {
        copy_patterns(from, to, ps, 0, seq![], 0, then)
    }
}

fn seen_before(seen: &Vec<String>, s: &String) -> (r: bool)
    ensures
        r == string_views(seen@).contains(s@),
{
    let mut i: usize = 0;
    while i < seen.len()
        invariant
            i <= seen@.len(),
            forall|k: int| 0 <= k < i ==> seen@[k]@ != s@,
        decreases seen.len() - i,
    {
        if chars_eq(&chars_of(seen[i].as_str()), &chars_of(s.as_str())) {
            assert(string_views(seen@)[i as int] == s@);
            return true;
        }
        i = i + 1;
    }
    proof {
        let sv = string_views(seen@);
        if sv.contains(s@) {
            let k = choose|k: int| 0 <= k < sv.len() && sv[k] == s@;
            assert(seen@[k]@ == s@);
        }
    }
    false
}

/// Follow `copy_entries` over the listed matches.
fn copy_entries_exec(
    rn: &mut Runner,
    from: &str,
    to: &str,
    es: &Vec<String>,
    seen: &mut Vec<String>,
    count: &mut usize,
    Ghost(k): Ghost<spec_fn(Seq<Seq<char>>, nat) -> Prog>,
) -> (r: Result<(), Effect>)
    requires
        old(rn).consistent(),
        *old(count) <= old(rn).pos,
        old(rn).prog@ == copy_entries(from@, to@, strings_view(es@), 0, string_views(old(seen)@), *old(count) as nat, k),
    ensures
        final(rn).consistent(),
        final(rn).outcomes == old(rn).outcomes,
        final(rn).whole == old(rn).whole,
        r is Ok ==> *final(count) <= final(rn).pos,
        match r {
            Ok(()) => final(rn).prog@ == k(string_views(final(seen)@), *final(count) as nat),
            Err(e) => effect_view(e) == next_effect(old(rn).whole@, old(rn).views()),
        },
{
    let ghost ev = strings_view(es@);
    let mut j: usize = 0;
    while j < es.len()
        invariant
            j <= es@.len(),
            ev == strings_view(es@),
            rn.consistent(),
            rn.outcomes == old(rn).outcomes,
            rn.whole == old(rn).whole,
            *count <= rn.pos,
            rn.prog@ == copy_entries(from@, to@, ev, j as int, string_views(seen@), *count as nat, k),
        decreases es.len() - j,
    {
        let e = &es[j];
        assert(ev[j as int] == e@);
        let o = match rn.perform(Effect::Fs(FsQuery::IsFile(e.clone()))) {
            Err(x) => {
                return Err(x);
            },
            Ok(o) => o,
        };
        let is_file = match fs_answer_of(&rn.outcomes[o]) {
            FsReply::Yes => true,
            _ => false,
        };
        if !is_file {
            j = j + 1;
            continue;
        }
        let rel = match strip_path_prefix(e.as_str(), from) {
            None => {
                j = j + 1;
                continue;
            },
            Some(r) => r,
        };
        if seen_before(seen, &rel) {
            j = j + 1;
            continue;
        }
        let dest = join(to, rel.as_str());
        match parent(dest.as_str()) {
            Some(p) => {
                match rn.perform(Effect::CreateDirAll(p)) {
                    Err(x) => {
                        return Err(x);
                    },
                    Ok(_) => {},
                }
            },
            None => {},
        }
        let o = match rn.perform(Effect::CopyFile { from: e.clone(), to: dest }) {
            Err(x) => {
                return Err(x);
            },
            Ok(o) => o,
        };
        let ghost before = string_views(seen@);
        seen.push(rel.clone());
        assert(string_views(seen@) =~= before.push(rel@));
        match done_result_of(&rn.outcomes[o]) {
            Ok(()) => {
                match rn.perform(say_exec(Level::Info, join_str("  Copied: ", rel.as_str()))) {
                    Err(x) => {
                        return Err(x);
                    },
                    Ok(_) => {},
                }
                *count = *count + 1;
            },
            Err(m) => {
                match rn.perform(say_exec(Level::Warning, join4("  Warning: failed to copy ", rel.as_str(), ": ", m.as_str()))) {
                    Err(x) => {
                        return Err(x);
                    },
                    Ok(_) => {},
                }
            },
        }
        j = j + 1;
    }
    Ok(())
}

/// Follow `copy_files_prog`.
pub fn copy_files_exec(rn: &mut Runner, from: &str, to: &str, patterns: &Vec<String>, Ghost(then): Ghost<Prog>) -> (r: Result<(), Effect>)
    requires
        old(rn).consistent(),
        old(rn).prog@ == copy_files_prog(from@, to@, string_views(patterns@), then),
    ensures
        final(rn).consistent(),
        final(rn).outcomes == old(rn).outcomes,
        final(rn).whole == old(rn).whole,
        match r {
            Ok(()) => final(rn).prog@ == then,
            Err(e) => effect_view(e) == next_effect(old(rn).whole@, old(rn).views()),
        },
{
    if patterns.len() == 0 {
        return Ok(());
    }
    let ghost pv = string_views(patterns@);
    let base = normalize_glob_path(from);
    let mut seen: Vec<String> = Vec::new();
    let mut count: usize = 0;
    assert(string_views(seen@) =~= Seq::<Seq<char>>::empty());
    let mut i: usize = 0;
    while i < patterns.len()
        invariant
            i <= patterns@.len(),
            pv == string_views(patterns@),
            base@ == slashed(from@),
            rn.consistent(),
            rn.outcomes == old(rn).outcomes,
            rn.whole == old(rn).whole,
            count <= rn.pos,
            rn.prog@ == copy_patterns(from@, to@, pv, i as int, string_views(seen@), count as nat, then),
        decreases patterns.len() - i,
    {
        let pattern = join3(base.as_str(), "/", patterns[i].as_str());
        let o = match rn.perform(Effect::Glob(pattern)) {
            Err(x) => {
                return Err(x);
            },
            Ok(o) => o,
        };
        let es = lines_result_of(&rn.outcomes[o]);
        match copy_entries_exec(rn, from, to, &es, &mut seen, &mut count, Ghost(next_pattern(from@, to@, pv, i as int, then))) {
            Err(x) => {
                return Err(x);
            },
            Ok(()) => {},
        }
        i = i + 1;
    }
    if count > 0 {
        let n = string_of(&u64_to_chars(count as u64));
        match rn.perform(say_exec(Level::Info, join3("  ", n.as_str(), " file(s) copied from default worktree"))) {
            Err(x) => {
                return Err(x);
            },
            Ok(_) => {},
        }
    }
    Ok(())
}

// ------------------------------------------------------------------
// Changed copies
// ------------------------------------------------------------------

/// Collect, from entry `j` on, the matched files whose counterpart under
/// `source` exists and holds other bytes; `k` goes on with the relative
/// paths collected.
pub open spec fn diff_entries(
    target: Seq<char>,
    source: Seq<char>,
    es: Seq<Seq<char>>,
    j: int,
    acc: Seq<Seq<char>>,
    k: spec_fn(Seq<Seq<char>>) -> Prog,
) -> Prog
    decreases es.len() - j,
{
    if j < 0 || j >= es.len() {
        k(acc)
    } else {
        let e = es[j];
        let next = diff_entries(target, source, es, j + 1, acc, k);
        fs(
            FsQueryView::IsFile(e),
            |f: FsReplyView| if !(f is Yes) {
                next
            } else {
                match path_strip_prefix(e, target) {
                    None => next,
                    Some(rel) => {
                        let sf = path_join(source, rel);
                        fs(
                            FsQueryView::Exists(sf),
                            |a: FsReplyView| if !(a is Yes) {
                                next
                            } else {
                                fs(
                                    FsQueryView::Exists(e),
                                    |b: FsReplyView| if !(b is Yes) {
                                        next
                                    } else {
                                        fs(
                                            FsQueryView::SameBytes(e, sf),
                                            |c: FsReplyView| if c is Yes {
                                                next
                                            } else {
                                                diff_entries(target, source, es, j + 1, acc.push(rel), k)
                                            },
                                        )
                                    },
                                )
                            },
                        )
                    },
                }
            },
        )
    }
}

/// Collect over the patterns from `i` on.
pub open spec fn diff_patterns(
    target: Seq<char>,
    source: Seq<char>,
    ps: Seq<Seq<char>>,
    i: int,
    acc: Seq<Seq<char>>,
    k: spec_fn(Seq<Seq<char>>) -> Prog,
) -> Prog
    decreases ps.len() - i, 1int,
{
    if i < 0 || i >= ps.len() {
        k(acc)
    } else {
        Prog::Do(
            EffectView::Glob(glob_pattern(target, ps[i])),
            |o: OutcomeView| diff_entries(target, source, lines_of(o), 0, acc, next_diff(target, source, ps, i, k)),
        )
    }
}

/// After the matches of pattern `i`: the next pattern.
pub open spec fn next_diff(
    target: Seq<char>,
    source: Seq<char>,
    ps: Seq<Seq<char>>,
    i: int,
    k: spec_fn(Seq<Seq<char>>) -> Prog,
) -> spec_fn(Seq<Seq<char>>) -> Prog
    decreases ps.len() - i, 0int,
{
    |acc: Seq<Seq<char>>| if i < ps.len() {
        diff_patterns(target, source, ps, i + 1, acc, k)
    } else {
        k(acc)
    }
}

/// The files that the patterns match under `target` and that differ from
/// the file at the same place under `source` (which must exist), relative
/// to `target`, in the order found; `k` goes on with them.
pub open spec fn differing_files_prog(
    target: Seq<char>,
    source: Seq<char>,
    ps: Seq<Seq<char>>,
    k: spec_fn(Seq<Seq<char>>) -> Prog,
) -> Prog {
    diff_patterns(target, source, ps, 0, seq![], k)
}

fn diff_entries_exec(
    rn: &mut Runner,
    target: &str,
    source: &str,
    es: &Vec<String>,
    acc: &mut Vec<String>,
    Ghost(k): Ghost<spec_fn(Seq<Seq<char>>) -> Prog>,
) -> (r: Result<(), Effect>)
    requires
        old(rn).consistent(),
        old(rn).prog@ == diff_entries(target@, source@, strings_view(es@), 0, string_views(old(acc)@), k),
    ensures
        final(rn).consistent(),
        final(rn).outcomes == old(rn).outcomes,
        final(rn).whole == old(rn).whole,
        match r {
            Ok(()) => final(rn).prog@ == k(string_views(final(acc)@)),
            Err(e) => effect_view(e) == next_effect(old(rn).whole@, old(rn).views()),
        },
{
    let ghost ev = strings_view(es@);
    let mut j: usize = 0;
    while j < es.len()
        invariant
            j <= es@.len(),
            ev == strings_view(es@),
            rn.consistent(),
            rn.outcomes == old(rn).outcomes,
            rn.whole == old(rn).whole,
            rn.prog@ == diff_entries(target@, source@, ev, j as int, string_views(acc@), k),
        decreases es.len() - j,
    {
        let e = &es[j];
        assert(ev[j as int] == e@);
        let o = match rn.perform(Effect::Fs(FsQuery::IsFile(e.clone()))) {
            Err(x) => {
                return Err(x);
            },
            Ok(o) => o,
        };
        let is_file = match fs_answer_of(&rn.outcomes[o]) {
            FsReply::Yes => true,
            _ => false,
        };
        if !is_file {
            j = j + 1;
            continue;
        }
        let rel = match strip_path_prefix(e.as_str(), target) {
            None => {
                j = j + 1;
                continue;
            },
            Some(r) => r,
        };
        let sf = join(source, rel.as_str());
        let o = match rn.perform(Effect::Fs(FsQuery::Exists(sf.clone()))) {
            Err(x) => {
                return Err(x);
            },
            Ok(o) => o,
        };
        let source_there = match fs_answer_of(&rn.outcomes[o]) {
            FsReply::Yes => true,
            _ => false,
        };
        if !source_there {
            j = j + 1;
            continue;
        }
        let o = match rn.perform(Effect::Fs(FsQuery::Exists(e.clone()))) {
            Err(x) => {
                return Err(x);
            },
            Ok(o) => o,
        };
        let target_there = match fs_answer_of(&rn.outcomes[o]) {
            FsReply::Yes => true,
            _ => false,
        };
        if !target_there {
            j = j + 1;
            continue;
        }
        let o = match rn.perform(Effect::Fs(FsQuery::SameBytes(e.clone(), sf))) {
            Err(x) => {
                return Err(x);
            },
            Ok(o) => o,
        };
        let same = match fs_answer_of(&rn.outcomes[o]) {
            FsReply::Yes => true,
            _ => false,
        };
        if !same {
            let ghost before = string_views(acc@);
            acc.push(rel);
            assert(string_views(acc@) =~= before.push(rel@));
        }
        j = j + 1;
    }
    Ok(())
}

/// Follow `differing_files_prog`: the files found.
pub fn differing_files_exec(
    rn: &mut Runner,
    target: &str,
    source: &str,
    patterns: &Vec<String>,
    Ghost(k): Ghost<spec_fn(Seq<Seq<char>>) -> Prog>,
) -> (r: Result<Vec<String>, Effect>)
    requires
        old(rn).consistent(),
        old(rn).prog@ == differing_files_prog(target@, source@, string_views(patterns@), k),
    ensures
        final(rn).consistent(),
        final(rn).outcomes == old(rn).outcomes,
        final(rn).whole == old(rn).whole,
        match r {
            Ok(ds) => final(rn).prog@ == k(string_views(ds@)),
            Err(e) => effect_view(e) == next_effect(old(rn).whole@, old(rn).views()),
        },
{
    let ghost pv = string_views(patterns@);
    let base = normalize_glob_path(target);
    let mut acc: Vec<String> = Vec::new();
    assert(string_views(acc@) =~= Seq::<Seq<char>>::empty());
    let mut i: usize = 0;
    while i < patterns.len()
        invariant
            i <= patterns@.len(),
            pv == string_views(patterns@),
            base@ == slashed(target@),
            rn.consistent(),
            rn.outcomes == old(rn).outcomes,
            rn.whole == old(rn).whole,
            rn.prog@ == diff_patterns(target@, source@, pv, i as int, string_views(acc@), k),
        decreases patterns.len() - i,
    {
        let pattern = join3(base.as_str(), "/", patterns[i].as_str());
        let o = match rn.perform(Effect::Glob(pattern)) {
            Err(x) => {
                return Err(x);
            },
            Ok(o) => o,
        };
        let es = lines_result_of(&rn.outcomes[o]);
        match diff_entries_exec(rn, target, source, &es, &mut acc, Ghost(next_diff(target@, source@, pv, i as int, k))) {
            Err(x) => {
                return Err(x);
            },
            Ok(()) => {},
        }
        i = i + 1;
    }
    Ok(acc)
}

/// Copy the files that the patterns match from the default worktree `from`
/// into the new worktree `to`: the next effect, given the outcomes so far.
pub fn copy_config_files(from: &str, to: &str, patterns: &Vec<String>, outcomes: &Vec<crate::commands::effects::Outcome>) -> (e: Effect)
    ensures
        effect_view(e) == next_effect(
            copy_files_prog(from@, to@, string_views(patterns@), Prog::Finish(Ok(()))),
            crate::commands::effects::outcome_views(outcomes@),
        ),
{
    let mut rn = Runner::new(outcomes, Ghost(copy_files_prog(from@, to@, string_views(patterns@), Prog::Finish(Ok(())))));
    match copy_files_exec(&mut rn, from, to, patterns, Ghost(Prog::Finish(Ok(())))) {
        Err(e) => e,
        Ok(()) => rn.finish(Ok(())),
    }
}

} // verus!
