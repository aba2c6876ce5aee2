//! Per-branch metadata from `git for-each-ref`, and the current branch.
use vstd::prelude::*;

use crate::git::{make_call, output_of, reply_views, GitCallView, GitMode, GitReply, GitReplyView, GitStep};
use crate::text::{chars_eq, chars_of, lines, opt_view, parse_i64, parse_i64_spec, split_lines, splitn, splitn_chars, string_of, trim, trim_chars, views};

verus! {

/// Metadata of one branch.
#[derive(Debug, Clone)]
pub struct BranchInfo {
    /// Tracking upstream, such as `origin/main`; `None` without one.
    pub upstream: Option<String>,
    /// Seconds since the most recent commit (now minus its committer date);
    /// negative under clock skew.
    pub commit_age_secs: i64,
    /// Subject line of the most recent commit.
    pub commit_message: String,
}

pub struct BranchInfoView {
    pub upstream: Option<Seq<char>>,
    pub commit_age_secs: i64,
    pub commit_message: Seq<char>,
}

impl View for BranchInfo {
    type V = BranchInfoView;

    open spec fn view(&self) -> BranchInfoView {
        BranchInfoView {
            upstream: opt_view(self.upstream),
            commit_age_secs: self.commit_age_secs,
            commit_message: self.commit_message@,
        }
    }
}

/// The map that a list of entries gives when inserted in order.
pub open spec fn entries_map(e: Seq<(String, BranchInfo)>) -> Map<Seq<char>, BranchInfoView>
    decreases e.len(),
{
    if e.len() == 0 {
        Map::empty()
    } else {
        entries_map(e.drop_last()).insert(e.last().0@, e.last().1@)
    }
}

pub open spec fn keys_unique(e: Seq<(String, BranchInfo)>) -> bool {
    forall|i: int, j: int| 0 <= i < j < e.len() ==> (#[trigger] e[i]).0@ != (#[trigger] e[j]).0@
}

proof fn lemma_entries_map(e: Seq<(String, BranchInfo)>)
    requires
        keys_unique(e),
    ensures
        entries_map(e).dom().finite(),
        entries_map(e).dom().len() == e.len(),
        forall|k: Seq<char>| #[trigger]
            entries_map(e).contains_key(k) <==> exists|i: int| 0 <= i < e.len() && (#[trigger] e[i]).0@ == k,
        forall|i: int| 0 <= i < e.len() ==> #[trigger] entries_map(e)[e[i].0@] == e[i].1@,
    decreases e.len(),
{
    if e.len() > 0 {
        let p = e.drop_last();
        assert(keys_unique(p));
        lemma_entries_map(p);
        let k = e.last().0@;
        assert(!entries_map(p).contains_key(k)) by {
            if entries_map(p).contains_key(k) {
                let i = choose|i: int| 0 <= i < p.len() && (#[trigger] p[i]).0@ == k;
                assert(e[i] == p[i]);
                assert(e[e.len() - 1] == e.last());
            }
        }
        assert forall|kk: Seq<char>| #[trigger]
            entries_map(e).contains_key(kk) implies exists|i: int|
                0 <= i < e.len() && (#[trigger] e[i]).0@ == kk by {
            if kk != k {
                let i = choose|i: int| 0 <= i < p.len() && (#[trigger] p[i]).0@ == kk;
                assert(e[i] == p[i]);
            } else {
                assert(e[e.len() - 1].0@ == kk);
            }
        }
        assert forall|kk: Seq<char>|
            (exists|i: int| 0 <= i < e.len() && (#[trigger] e[i]).0@ == kk) implies #[trigger]
            entries_map(e).contains_key(kk) by {
            let i = choose|i: int| 0 <= i < e.len() && (#[trigger] e[i]).0@ == kk;
            if i < e.len() - 1 {
                assert(p[i] == e[i]);
            }
        }
        assert forall|i: int| 0 <= i < e.len() implies #[trigger] entries_map(e)[e[i].0@]
            == e[i].1@ by {
            if i < e.len() - 1 {
                assert(p[i] == e[i]);
                assert(e[i].0@ != e[e.len() - 1].0@);
            }
        }
    }
}

/// Branch name to metadata; each name occurs once. The entries are kept in
/// a `Vec`, with the uniqueness of names as a type invariant, rather than in
/// a `HashMap` keyed by `String`: vstd's specification of `HashMap` speaks
/// of its contents only for key types that obey its key model
/// (`obeys_key_model`, given for `bool` and the integer types), which
/// `String` could only be granted by an assumption.
pub struct BranchMap {
    entries: Vec<(String, BranchInfo)>,
}

impl View for BranchMap {
    type V = Map<Seq<char>, BranchInfoView>;

    closed spec fn view(&self) -> Map<Seq<char>, BranchInfoView> {
        entries_map(self.entries@)
    }
}

impl BranchMap {
    #[verifier::type_invariant]
    closed spec fn names_unique(self) -> bool {
        keys_unique(self.entries@)
    }

    pub fn new() -> (r: Self)
        ensures
            r@ == Map::<Seq<char>, BranchInfoView>::empty(),
    {
        BranchMap { entries: Vec::new() }
    }

    /// Index of the entry for `name`.
    fn position(&self, name: &Vec<char>) -> (r: Option<usize>)
        ensures
            r matches Some(i) ==> i < self.entries@.len() && self.entries@[i as int].0@ == name@,
            r is None ==> forall|i: int|
                0 <= i < self.entries@.len() ==> (#[trigger] self.entries@[i]).0@ != name@,
    {
        let mut i: usize = 0;
        while i < self.entries.len()
            invariant
                i <= self.entries@.len(),
                forall|j: int| 0 <= j < i ==> (#[trigger] self.entries@[j]).0@ != name@,
            decreases self.entries.len() - i,
        {
            let k = chars_of(self.entries[i].0.as_str());
            if chars_eq(&k, name) {
                return Some(i);
            }
            i = i + 1;
        }
        None
    }

    /// Set the metadata of `name`, replacing what it had.
    pub fn insert(&mut self, name: String, info: BranchInfo)
        ensures
            final(self)@ == old(self)@.insert(name@, info@),
    {
        proof {
            use_type_invariant(&*self);
            lemma_entries_map(self.entries@);
        }
        let key = chars_of(name.as_str());
        let pos = self.position(&key);
        let ghost old_e = self.entries@;
        let ghost new_e: Seq<(String, BranchInfo)>;
        match pos {
            Some(i) => {
                let mut e: Vec<(String, BranchInfo)> = Vec::new();
                std::mem::swap(&mut e, &mut self.entries);
                e.set(i, (name, info));
                proof {
                    new_e = e@;
                    assert(keys_unique(new_e)) by {
                        assert forall|a: int, b: int| 0 <= a < b < new_e.len() implies (
                        #[trigger] new_e[a]).0@ != (#[trigger] new_e[b]).0@ by {
                            if a != i && b != i {
                                assert(new_e[a] == old_e[a] && new_e[b] == old_e[b]);
                            } else if a == i {
                                assert(new_e[b] == old_e[b]);
                                assert(old_e[a].0@ == key@);
                            } else {
                                assert(new_e[a] == old_e[a]);
                                assert(old_e[b].0@ == key@);
                            }
                        }
                    }
                }
                self.entries = e;
            },
            None => {
                let mut e: Vec<(String, BranchInfo)> = Vec::new();
                std::mem::swap(&mut e, &mut self.entries);
                e.push((name, info));
                proof {
                    new_e = e@;
                    assert(keys_unique(new_e)) by {
                        assert forall|a: int, b: int| 0 <= a < b < new_e.len() implies (
                        #[trigger] new_e[a]).0@ != (#[trigger] new_e[b]).0@ by {
                            if b < old_e.len() {
                                assert(new_e[a] == old_e[a] && new_e[b] == old_e[b]);
                            } else {
                                assert(new_e[a] == old_e[a]);
                            }
                        }
                    }
                }
                self.entries = e;
            },
        }
        proof {
            lemma_entries_map(new_e);
            let m_old = entries_map(old_e);
            let m_new = entries_map(new_e);
            assert forall|k: Seq<char>| #[trigger]
                m_new.contains_key(k) <==> m_old.insert(name@, info@).contains_key(k) by {
                if m_new.contains_key(k) {
                    let j = choose|j: int| 0 <= j < new_e.len() && (#[trigger] new_e[j]).0@ == k;
                    if k != name@ {
                        assert(new_e[j] == old_e[j]);
                    }
                }
                if m_old.contains_key(k) && k != name@ {
                    let j = choose|j: int| 0 <= j < old_e.len() && (#[trigger] old_e[j]).0@ == k;
                    assert(new_e[j] == old_e[j]);
                }
                if k == name@ {
                    match pos {
                        Some(i) => {
                            assert(new_e[i as int].0@ == k);
                        },
                        None => {
                            assert(new_e[old_e.len() as int].0@ == k);
                        },
                    }
                }
            }
            assert forall|k: Seq<char>| #[trigger] m_new.contains_key(k) implies m_new[k]
                == m_old.insert(name@, info@)[k] by {
                let j = choose|j: int| 0 <= j < new_e.len() && (#[trigger] new_e[j]).0@ == k;
                if k != name@ {
                    assert(new_e[j] == old_e[j]);
                }
            }
            assert(m_new =~= m_old.insert(name@, info@));
        }
    }

    /// The metadata of `name`, if it has an entry.
    pub fn get(&self, name: &str) -> (r: Option<&BranchInfo>)
        ensures
            r matches Some(v) ==> self@.contains_key(name@) && self@[name@] == v@,
            r is None ==> !self@.contains_key(name@),
    {
        proof {
            use_type_invariant(self);
            lemma_entries_map(self.entries@);
        }
        let key = chars_of(name);
        match self.position(&key) {
            Some(i) => Some(&self.entries[i].1),
            None => None,
        }
    }

    pub fn contains_key(&self, name: &str) -> (r: bool)
        ensures
            r == self@.contains_key(name@),
    {
        proof {
            use_type_invariant(self);
            lemma_entries_map(self.entries@);
        }
        let key = chars_of(name);
        self.position(&key).is_some()
    }

    /// Number of branches.
    pub fn len(&self) -> (r: usize)
        ensures
            r == self@.len(),
    {
        proof {
            use_type_invariant(self);
            lemma_entries_map(self.entries@);
        }
        self.entries.len()
    }

    pub fn is_empty(&self) -> (r: bool)
        ensures
            r == (self@.len() == 0),
    {
        self.len() == 0
    }
}

// ------------------------------------------------------------------
// Parser
// ------------------------------------------------------------------

/// The entry one `for-each-ref` line gives, `name|upstream|unix-time|subject`
/// with fields trimmed, as read at time `now`; `None` for a blank or
/// malformed line or an empty name. The age is `now - time` in `i64`
/// arithmetic that wraps; an unparsable time gives age 0.
pub open spec fn ref_entry(line: Seq<char>, now: i64) -> Option<(Seq<char>, BranchInfoView)> {
    let l = trim(line);
    let parts = splitn(l, 4, '|');
    if l.len() == 0 || parts.len() != 4 || trim(parts[0]).len() == 0 {
        None
    } else {
        let up = trim(parts[1]);
        Some(
            (
                trim(parts[0]),
                BranchInfoView {
                    upstream: if up.len() == 0 {
                        None
                    } else {
                        Some(up)
                    },
                    commit_age_secs: match parse_i64_spec(trim(parts[2])) {
                        Some(ts) => now.wrapping_sub(ts as i64),
                        None => 0,
                    },
                    commit_message: trim(parts[3]),
                },
            ),
        )
    }
}

/// The map that the given lines give, later lines overriding earlier ones.
pub open spec fn refs_map(ls: Seq<Seq<char>>, now: i64) -> Map<Seq<char>, BranchInfoView>
    decreases ls.len(),
{
    if ls.len() == 0 {
        Map::empty()
    } else {
        match ref_entry(ls.last(), now) {
            Some((k, v)) => refs_map(ls.drop_last(), now).insert(k, v),
            None => refs_map(ls.drop_last(), now),
        }
    }
}

/// Branch metadata listed in `for-each-ref` output, read at time `now`.
pub open spec fn for_each_ref_map(s: Seq<char>, now: i64) -> Map<Seq<char>, BranchInfoView> {
    refs_map(lines(s), now)
}

fn ref_entry_exec(line: &Vec<char>, now: i64) -> (r: Option<(String, BranchInfo)>)
    ensures
        r matches Some((k, v)) ==> ref_entry(line@, now) == Some((k@, v@)),
        r is None ==> ref_entry(line@, now) is None,
{
    let l = trim_chars(line);
    if l.len() == 0 {
        return None;
    }
    let parts = splitn_chars(&l, 4, '|');
    if parts.len() != 4 {
        return None;
    }
    let name = trim_chars(&parts[0]);
    let up = trim_chars(&parts[1]);
    let ts = trim_chars(&parts[2]);
    let subject = trim_chars(&parts[3]);
    if name.len() == 0 {
        return None;
    }
    let upstream = if up.len() == 0 {
        None
    } else {
        Some(string_of(&up))
    };
    let age: i64 = match parse_i64(&ts) {
        Some(t) => now.wrapping_sub(t),
        None => 0,
    };
    Some((string_of(&name), BranchInfo { upstream, commit_age_secs: age, commit_message: string_of(&subject) }))
}

/// Parse `for-each-ref` output with the format
/// `%(refname:short)|%(upstream:short)|%(committerdate:unix)|%(subject)`,
/// ages taken at time `now`. The subject keeps any `|` it holds.
pub fn parse_for_each_ref_at(output: &str, now: i64) -> (r: BranchMap)
    ensures
        r@ == for_each_ref_map(output@, now),
{
    let text = chars_of(output);
    let ls = split_lines(&text);
    let ghost all = views(ls@);
    let mut map = BranchMap::new();
    let mut i: usize = 0;
    assert(all.take(0) =~= Seq::<Seq<char>>::empty());
    while i < ls.len()
        invariant
            i <= ls.len(),
            all == views(ls@),
            all == lines(output@),
            map@ == refs_map(all.take(i as int), now),
        decreases ls.len() - i,
    {
        proof {
            assert(all.take(i + 1).drop_last() =~= all.take(i as int));
            assert(all.take(i + 1).last() == ls@[i as int]@);
        }
        match ref_entry_exec(&ls[i], now) {
            Some((k, v)) => {
                map.insert(k, v);
            },
            None => {},
        }
        i = i + 1;
    }
    assert(all.take(i as int) =~= all);
    map
}

#[verifier::external_type_specification]
#[verifier::external_body]
pub struct ExSystemTime(std::time::SystemTime);

#[verifier::external_type_specification]
#[verifier::external_body]
pub struct ExSystemTimeError(std::time::SystemTimeError);

/// `SystemTime::now`: the clock's reading. Nothing is stated of it.
#[verifier::external_body]
fn clock_now() -> std::time::SystemTime {
    std::time::SystemTime::now()
}

/// `SystemTime::duration_since(UNIX_EPOCH)`: how long after the epoch a
/// reading is, or an error for one before it. Nothing is stated of it.
#[verifier::external_body]
fn since_epoch(t: &std::time::SystemTime) -> Result<std::time::Duration, std::time::SystemTimeError> {
    t.duration_since(std::time::UNIX_EPOCH)
}

/// `Duration::as_secs`: the whole seconds of a span. Nothing is stated of
/// it (the span is opaque here).
#[verifier::external_body]
fn whole_seconds(d: &std::time::Duration) -> u64 {
    d.as_secs()
}

/// The current time in whole seconds since the Unix epoch (cast to `i64`);
/// 0 when the clock reads before the epoch.
pub(crate) fn unix_now() -> i64 {
    match since_epoch(&clock_now()) {
        Ok(d) => whole_seconds(&d) as i64,
        Err(_) => 0,
    }
}

/// Parse `for-each-ref` output (see `parse_for_each_ref_at`), with ages
/// taken at the current time.
pub fn parse_for_each_ref(output: &str) -> (r: BranchMap)
    ensures
        exists|now: i64| r@ == #[trigger] for_each_ref_map(output@, now),
{
    let now = unix_now();
    parse_for_each_ref_at(output, now)
}

// ------------------------------------------------------------------
// Queries
// ------------------------------------------------------------------

pub open spec fn for_each_ref_call(dir: Seq<char>) -> GitCallView {
    GitCallView {
        dir,
        args: seq![
            "for-each-ref"@,
            "--format=%(refname:short)|%(upstream:short)|%(committerdate:unix)|%(subject)"@,
            "refs/heads"@,
        ],
        mode: GitMode::Output,
    }
}

/// What the branch query gives for its reply: the branches that the output
/// lists, with ages taken at some moment, or git's message.
pub open spec fn branch_info_from(r: GitReplyView, res: Result<BranchMap, String>) -> bool {
    match output_of(r) {
        Ok(out) => res is Ok && exists|now: i64| res->Ok_0@ == #[trigger] for_each_ref_map(out, now),
        Err(msg) => res is Err && res->Err_0@ == msg,
    }
}

/// Metadata of every local branch in `dir`; git's failure is the error.
pub fn batch_branch_info(dir: &str, replies: &Vec<GitReply>) -> (r: GitStep<Result<BranchMap, String>>)
    ensures
        replies.len() == 0 ==> (r matches GitStep::Run(c) && c@ == for_each_ref_call(dir@)),
        replies.len() > 0 ==> (r matches GitStep::Done(res) && branch_info_from(
            reply_views(replies@)[0],
            res,
        )),
{
    if replies.len() == 0 {
        let mut args: Vec<String> = Vec::new();
        args.push("for-each-ref".to_string());
        args.push("--format=%(refname:short)|%(upstream:short)|%(committerdate:unix)|%(subject)".to_string());
        args.push("refs/heads".to_string());
        assert(args@.map_values(|s: String| s@) =~= seq![
            "for-each-ref"@,
            "--format=%(refname:short)|%(upstream:short)|%(committerdate:unix)|%(subject)"@,
            "refs/heads"@,
        ]);
        return GitStep::Run(make_call(dir, args, GitMode::Output));
    }
    match &replies[0] {
        GitReply::Success(out) => {
            let m = parse_for_each_ref(out.as_str());
            let res: Result<BranchMap, String> = Ok(m);
            assert(branch_info_from(reply_views(replies@)[0], res)) by {
                let o = output_of(reply_views(replies@)[0])->Ok_0;
                assert(o == out@);
                assert(exists|n: i64| res->Ok_0@ == #[trigger] for_each_ref_map(o, n));
            }
            GitStep::Done(res)
        },
        GitReply::Failure(m) => GitStep::Done(Err(m.clone())),
        GitReply::NotRun(m) => GitStep::Done(Err(m.clone())),
    }
}

pub open spec fn head_name_call(dir: Seq<char>) -> GitCallView {
    GitCallView { dir, args: seq!["rev-parse"@, "--abbrev-ref"@, "HEAD"@], mode: GitMode::Output }
}

/// The current branch that a `rev-parse --abbrev-ref HEAD` reply names;
/// `main` when git failed or HEAD is detached or unborn.
pub open spec fn current_branch_from(r: GitReplyView) -> Seq<char> {
    match output_of(r) {
        Ok(out) => if trim(out).len() == 0 || trim(out) == "HEAD"@ {
            "main"@
        } else {
            trim(out)
        },
        Err(_) => "main"@,
    }
}

/// The name of the branch checked out in `dir`, falling back to `main`.
pub fn detect_default_branch(dir: &str, replies: &Vec<GitReply>) -> (r: GitStep<String>)
    ensures
        replies.len() == 0 ==> (r matches GitStep::Run(c) && c@ == head_name_call(dir@)),
        replies.len() > 0 ==> (r matches GitStep::Done(b) && b@ == current_branch_from(
            reply_views(replies@)[0],
        )),
{
    if replies.len() == 0 {
        let mut args: Vec<String> = Vec::new();
        args.push("rev-parse".to_string());
        args.push("--abbrev-ref".to_string());
        args.push("HEAD".to_string());
        assert(args@.map_values(|s: String| s@) =~= seq!["rev-parse"@, "--abbrev-ref"@, "HEAD"@]);
        return GitStep::Run(make_call(dir, args, GitMode::Output));
    }
    let name = match &replies[0] {
        GitReply::Success(out) => {
            let t = trim_chars(&chars_of(out.as_str()));
            if t.len() == 0 || chars_eq(&t, &chars_of("HEAD")) {
                "main".to_string()
            } else {
                string_of(&t)
            }
        },
        _ => "main".to_string(),
    };
    GitStep::Done(name)
}

} // verus!
