//! Checking for a newer release: the version comparison, the reply bodies,
//! the once-a-day cache and the decisions around them.
use vstd::prelude::*;

use crate::config::Config;
use crate::paths::{join, path_join};
use crate::text::{all_digits, chars_of, concat, decimal, digit_char, occurs_at, digits_value, find, find_from_exec, is_digit, is_ws, lemma_line_end_at, lines, lines_from, next_index, next_index_exec, parse_u64, parse_unsigned, slice_vec, split_lines, string_of, trim, trim_chars, trim_start, trim_start_chars, u64_to_chars};

verus! {

/// The version of this program.
pub const PACKAGE_VERSION: &'static str = "0.1.0";

/// Seconds between two checks.
pub const THROTTLE_SECS: u64 = 86400;

// ------------------------------------------------------------------
// Versions
// ------------------------------------------------------------------

#[verifier::external_type_specification]
#[verifier::external_body]
pub struct ExSemverVersion(semver::Version);

/// Whether `semver::Version::parse` accepts the text.
pub uninterp spec fn semver_accepts(text: Seq<char>) -> bool;

/// Whether the version parsed from `a` orders after the one parsed from `b`
/// (`semver::Version`'s `>`: precedence, then build metadata).
pub uninterp spec fn semver_greater(a: Seq<char>, b: Seq<char>) -> bool;

/// A version with the text it was parsed from.
pub struct ParsedVersion {
    text: String,
    version: semver::Version,
}

/// `semver::Version::parse`: `Some` exactly when the text is a valid
/// semantic version, keeping the text.
#[verifier::external_body]
fn parse_version(text: &str) -> (r: Option<ParsedVersion>)
    ensures
        r is Some <==> semver_accepts(text@),
        r matches Some(v) ==> v.text@ == text@,
{
    match semver::Version::parse(text) {
        Ok(version) => Some(ParsedVersion { text: text.to_string(), version }),
        Err(_) => None,
    }
}

/// `>` on `semver::Version`: a total order, so no version orders after one
/// parsed from the same text.
#[verifier::external_body]
fn version_gt(a: &ParsedVersion, b: &ParsedVersion) -> (r: bool)
    ensures
        r == semver_greater(a.text@, b.text@),
        a.text@ == b.text@ ==> !r,
{
    a.version > b.version
}

/// Whether `remote` is a newer version than `current`; `false` when either
/// is not a valid semantic version.
pub open spec fn update_available(current: Seq<char>, remote: Seq<char>) -> bool {
    semver_accepts(current) && semver_accepts(remote) && semver_greater(remote, current)
}

pub fn is_update_available(current: &str, remote: &str) -> (r: bool)
    ensures
        r == update_available(current@, remote@),
        current@ == remote@ ==> !r,
{
    let c = match parse_version(current) {
        Some(v) => v,
        None => {
            return false;
        },
    };
    let r = match parse_version(remote) {
        Some(v) => v,
        None => {
            return false;
        },
    };
    version_gt(&r, &c)
}

pub open spec fn notify_message(remote: Seq<char>) -> Seq<char> {
    "New version "@ + remote + " available. Run `cargo install lazywt` to update."@
}

/// The notice to show for a remote version: one when it is newer than this
/// program's version.
pub fn maybe_notify(remote_version: &str) -> (r: Option<String>)
    ensures
        r is Some <==> update_available(PACKAGE_VERSION@, remote_version@),
        r matches Some(m) ==> m@ == notify_message(remote_version@),
        remote_version@ == PACKAGE_VERSION@ ==> r is None,
{
    if is_update_available(PACKAGE_VERSION, remote_version) {
        Some(string_of(
            &concat(
                &concat(&chars_of("New version "), &chars_of(remote_version)),
                &chars_of(" available. Run `cargo install lazywt` to update."),
            ),
        ))
    } else {
        None
    }
}

// ------------------------------------------------------------------
// Reply bodies
// ------------------------------------------------------------------

/// The string value of `"key"` in a JSON text, found naively: the first
/// occurrence of the quoted key, then optional whitespace, `:`, optional
/// whitespace and a quoted string without escapes.
pub open spec fn json_string_value(body: Seq<char>, key: Seq<char>) -> Option<Seq<char>> {
    let pat = seq!['"'] + key + seq!['"'];
    match find(body, pat) {
        None => None,
        Some(k) => {
            let a = trim_start(body.subrange(k + pat.len(), body.len() as int));
            if !(a.len() > 0 && a[0] == ':') {
                None
            } else {
                let b = trim_start(a.drop_first());
                if !(b.len() > 0 && b[0] == '"') {
                    None
                } else {
                    let c = b.drop_first();
                    let e = next_index(c, '"', 0);
                    if e >= c.len() {
                        None
                    } else {
                        Some(c.subrange(0, e))
                    }
                }
            }
        },
    }
}

pub fn extract_json_string(body: &str, key: &str) -> (r: Option<String>)
    ensures
        crate::text::opt_view(r) == json_string_value(body@, key@),
{
    let b = chars_of(body);
    let mut q: Vec<char> = Vec::new();
    q.push('"');
    let pat = concat(&concat(&q, &chars_of(key)), &q);
    assert(pat@ =~= seq!['"'] + key@ + seq!['"']);
    let k = match find_from_exec(&b, &pat, 0) {
        Some(k) => k,
        None => {
            return None;
        },
    };
    proof {
        crate::text::lemma_find_from(b@, pat@, 0);
        assert(find(b@, pat@) == Some(k as int));
        assert(occurs_at(b@, pat@, k as int));
    }
    let blen = b.len();
    let plen = pat.len();
    assert(k + plen <= blen);
    let start: usize = k + plen;
    let a = trim_start_chars(&slice_vec(&b, start, b.len()));
    if !(a.len() > 0 && a[0] == ':') {
        return None;
    }
    let b2 = trim_start_chars(&slice_vec(&a, 1, a.len()));
    assert(a@.subrange(1, a@.len() as int) =~= a@.drop_first());
    if !(b2.len() > 0 && b2[0] == '"') {
        return None;
    }
    let c = slice_vec(&b2, 1, b2.len());
    assert(b2@.subrange(1, b2@.len() as int) =~= b2@.drop_first());
    let e = next_index_exec(&c, '"', 0);
    if e >= c.len() {
        return None;
    }
    Some(string_of(&slice_vec(&c, 0, e)))
}

pub const CRATES_URL: &'static str = "https://crates.io/api/v1/crates/lazywt";

pub const RELEASES_URL: &'static str = "https://api.github.com/repos/pedrofcj/lazywt/releases/latest";

/// The next request of the release lookup, or its answer.
pub enum FetchStep {
    /// Fetch this URL; the reply is its body, or `None` on any failure.
    Get(String),
    Done(Option<String>),
}

/// A release tag without one leading `v`.
pub open spec fn tag_version(tag: Seq<char>) -> Seq<char> {
    if tag.len() > 0 && tag[0] == 'v' {
        tag.drop_first()
    } else {
        tag
    }
}

/// The latest released version: the crates registry's `max_stable_version`,
/// else the tag of the latest release on GitHub without its `v`; `None`
/// when neither answers with one.
pub fn fetch_latest_version(replies: &Vec<Option<String>>) -> (r: FetchStep)
    ensures
        replies.len() == 0 ==> (r matches FetchStep::Get(u) && u@ == CRATES_URL@),
        replies.len() >= 1 ==> {
            let first = match replies@[0] {
                Some(b) => json_string_value(b@, "max_stable_version"@),
                None => None,
            };
            if first is Some {
                r matches FetchStep::Done(v) && crate::text::opt_view(v) == first
            } else if replies.len() == 1 {
                r matches FetchStep::Get(u) && u@ == RELEASES_URL@
            } else {
                r matches FetchStep::Done(v) && crate::text::opt_view(v) == match replies@[1] {
                    Some(b) => match json_string_value(b@, "tag_name"@) {
                        Some(t) => Some(tag_version(t)),
                        None => None,
                    },
                    None => None,
                }
            }
        },
{
    if replies.len() == 0 {
        return FetchStep::Get(CRATES_URL.to_string());
    }
    let first = match &replies[0] {
        Some(b) => extract_json_string(b.as_str(), "max_stable_version"),
        None => None,
    };
    if first.is_some() {
        return FetchStep::Done(first);
    }
    if replies.len() == 1 {
        return FetchStep::Get(RELEASES_URL.to_string());
    }
    let tag = match &replies[1] {
        Some(b) => extract_json_string(b.as_str(), "tag_name"),
        None => None,
    };
    match tag {
        Some(t) => {
            let tv = chars_of(t.as_str());
            if tv.len() > 0 && tv[0] == 'v' {
                assert(tv@.subrange(1, tv@.len() as int) =~= tv@.drop_first());
                FetchStep::Done(Some(string_of(&slice_vec(&tv, 1, tv.len()))))
            } else {
                FetchStep::Done(Some(t))
            }
        },
        None => FetchStep::Done(None),
    }
}

// ------------------------------------------------------------------
// The cache
// ------------------------------------------------------------------

/// The cache text: the check time, then the version found, if any.
pub open spec fn cache_text(now: u64, version: Option<Seq<char>>) -> Seq<char> {
    match version {
        Some(v) => decimal(now as nat) + seq!['\n'] + v + seq!['\n'],
        None => decimal(now as nat) + seq!['\n'],
    }
}

pub fn format_cache(now: u64, version: Option<&str>) -> (r: String)
    ensures
        r@ == cache_text(now, match version {
            Some(v) => Some(v@),
            None => None,
        }),
{
    let mut nl: Vec<char> = Vec::new();
    nl.push('\n');
    let head = concat(&u64_to_chars(now), &nl);
    match version {
        Some(v) => {
            let r = concat(&concat(&head, &chars_of(v)), &nl);
            assert(r@ =~= decimal(now as nat) + seq!['\n'] + v@ + seq!['\n']);
            string_of(&r)
        },
        None => {
            assert(head@ =~= decimal(now as nat) + seq!['\n']);
            string_of(&head)
        },
    }
}

/// What cache text records: the check time from the first line and the
/// version from the second, when it is not blank; `None` when the first line
/// is missing or not a `u64`.
pub open spec fn cache_record(content: Seq<char>) -> Option<(u64, Option<Seq<char>>)> {
    let ls = lines(content);
    if ls.len() == 0 {
        None
    } else {
        match parse_unsigned(trim(ls[0]), u64::MAX as nat) {
            None => None,
            Some(t) => Some(
                (
                    t as u64,
                    if ls.len() >= 2 && trim(ls[1]).len() > 0 {
                        Some(trim(ls[1]))
                    } else {
                        None
                    },
                ),
            ),
        }
    }
}

pub fn parse_cache(content: &str) -> (r: Option<(u64, Option<String>)>)
    ensures
        match (r, cache_record(content@)) {
            (Some((t, v)), Some((t2, v2))) => t == t2 && crate::text::opt_view(v) == v2,
            (None, None) => true,
            _ => false,
        },
{
    let ls = split_lines(&chars_of(content));
    if ls.len() == 0 {
        return None;
    }
    let t = match parse_u64(&trim_chars(&ls[0])) {
        Some(t) => t,
        None => {
            return None;
        },
    };
    let v = if ls.len() >= 2 {
        let s = trim_chars(&ls[1]);
        if s.len() > 0 {
            Some(string_of(&s))
        } else {
            None
        }
    } else {
        None
    };
    Some((t, v))
}

proof fn lemma_digit_char(d: nat)
    requires
        d < 10,
    ensures
        is_digit(digit_char(d)),
        crate::text::digit_val(digit_char(d)) == d,
        digit_char(d) != '+',
{
    assert(('0' as u32) == 48);
    assert((48 + d) as char as u32 == 48 + d);
}

/// The decimal digits of a number are digits, and read back as it.
pub proof fn lemma_decimal_digits(n: nat)
    ensures
        decimal(n).len() > 0,
        all_digits(decimal(n)),
        digits_value(decimal(n)) == n,
    decreases n,
{
    lemma_digit_char(n % 10);
    if n < 10 {
        assert(decimal(n).drop_last() =~= Seq::<char>::empty());
        assert(decimal(n).last() == digit_char(n));
        assert(digits_value(Seq::<char>::empty()) == 0);
        assert(digits_value(decimal(n)) == digits_value(decimal(n).drop_last()) * 10
            + crate::text::digit_val(decimal(n).last()));
    } else {
        lemma_decimal_digits(n / 10);
        let d = decimal(n / 10);
        assert(decimal(n).drop_last() =~= d);
        assert(decimal(n).last() == digit_char(n % 10));
        assert(digits_value(decimal(n)) == digits_value(d) * 10 + crate::text::digit_val(
            digit_char(n % 10),
        ));
        assert((n / 10) * 10 + n % 10 == n);
        assert forall|i: int| 0 <= i < decimal(n).len() implies is_digit(#[trigger] decimal(n)[i]) by {
            if i < d.len() {
                assert(decimal(n)[i] == d[i]);
            }
        }
    }
}

proof fn lemma_digits_no_ws(s: Seq<char>)
    requires
        all_digits(s),
    ensures
        trim(s) == s,
        forall|i: int| 0 <= i < s.len() ==> s[i] != '\n' && s[i] != '\r' && s[i] != '+',
{
    assert forall|i: int| 0 <= i < s.len() implies !is_ws(#[trigger] s[i]) by {
        assert(is_digit(s[i]));
    }
    crate::text::lemma_trim_start_at(s, 0);
    crate::text::lemma_trim_end_at(s, s.len() as int);
    assert forall|i: int| 0 <= i < s.len() implies s[i] != '\n' && s[i] != '\r' && s[i] != '+' by {
        assert(is_digit(s[i]));
    }
}

/// A version fit to store: no line break, no surrounding whitespace.
pub open spec fn storable_version(v: Seq<char>) -> bool {
    v.len() > 0 && !is_ws(v[0]) && !is_ws(v.last()) && forall|i: int|
        0 <= i < v.len() ==> v[i] != '\n'
}

/// The version that the cache keeps: an empty one is kept as none.
pub open spec fn kept_version(version: Option<Seq<char>>) -> Option<Seq<char>> {
    match version {
        Some(v) => if v.len() == 0 {
            None
        } else {
            Some(v)
        },
        None => None,
    }
}

/// What is read back from the cache is what was written: the time, and the
/// version when one was stored (an empty version reads back as none).
pub proof fn lemma_cache_round_trip(now: u64, version: Option<Seq<char>>)
    requires
        version matches Some(v) ==> v.len() == 0 || storable_version(v),
    ensures
        cache_record(cache_text(now, version)) == Some((now, kept_version(version))),
{
    lemma_decimal_digits(now as nat);
    let d = decimal(now as nat);
    lemma_digits_no_ws(d);
    let s = cache_text(now, version);
    let e1 = d.len() as int;
    assert(s[e1] == '\n');
    assert forall|k: int| 0 <= k < e1 implies s[k] != '\n' by {
        assert(s[k] == d[k]);
    }
    lemma_line_end_at(s, 0, e1);
    assert(s.subrange(0, e1) =~= d);
    assert(parse_unsigned(d, u64::MAX as nat) == Some(now as nat)) by {
        assert(d[0] != '+');
    }
    match version {
        Some(v) => if v.len() == 0 {
            assert(s[e1 + 1] == '\n');
            lemma_line_end_at(s, e1 + 1, e1 + 1);
            assert(crate::text::line_at(s, e1 + 1) =~= Seq::<char>::empty());
            assert(lines_from(s, e1 + 2) == Seq::<Seq<char>>::empty());
            assert(lines_from(s, e1 + 1) == seq![crate::text::line_at(s, e1 + 1)] + lines_from(s, e1 + 2));
            assert(lines(s) =~= seq![d, Seq::<char>::empty()]);
            assert(trim(Seq::<char>::empty()).len() == 0) by {
                crate::text::lemma_trim_start_at(Seq::<char>::empty(), 0);
                crate::text::lemma_trim_end_at(Seq::<char>::empty(), 0);
            }
        } else {
            let e2 = e1 + 1 + v.len();
            assert(s[e2] == '\n');
            assert forall|k: int| e1 + 1 <= k < e2 implies s[k] != '\n' by {
                assert(s[k] == v[k - e1 - 1]);
            }
            lemma_line_end_at(s, e1 + 1, e2);
            assert(s.subrange(e1 + 1, e2) =~= v);
            crate::text::lemma_trim_start_at(v, 0);
            assert(v.subrange(0, v.len() as int) =~= v);
            crate::text::lemma_trim_end_at(v, v.len() as int);
            assert(trim(v) == v);
            assert(v.last() != '\r');
            assert(s[e2 - 1] == v.last());
            assert(lines_from(s, e2 + 1) == Seq::<Seq<char>>::empty());
            assert(lines_from(s, e1 + 1) == seq![v] + lines_from(s, e2 + 1));
            assert(lines(s) =~= seq![d, v]);
        },
        None => {
            assert(lines_from(s, e1 + 1) == Seq::<Seq<char>>::empty());
            assert(lines(s) =~= seq![d]);
        },
    }
}

/// Whether a check at time `checked` still covers time `now` (less than a
/// day since, counting a check in the future as just done).
pub open spec fn within_throttle(checked: u64, now: u64) -> bool {
    (if now >= checked { now - checked } else { 0 }) < THROTTLE_SECS
}

/// Whether the cache (its text, if it could be read) records a check less
/// than a day before `now`.
pub fn is_within_throttle_at(cache: Option<&str>, now: u64) -> (r: bool)
    ensures
        r == match cache {
            Some(c) => match cache_record(c@) {
                Some((t, _)) => within_throttle(t, now),
                None => false,
            },
            None => false,
        },
{
    match cache {
        Some(c) => match parse_cache(c) {
            Some((t, _)) => now.saturating_sub(t) < THROTTLE_SECS,
            None => false,
        },
        None => false,
    }
}

/// The cache file under a configuration directory:
/// `<dir>/lazywt/update_check`.
pub fn cache_path_in(config_dir: &str) -> (r: String)
    ensures
        r@ == path_join(path_join(config_dir@, "lazywt"@), "update_check"@),
{
    join(join(config_dir, "lazywt").as_str(), "update_check")
}

/// The cache file, `lazywt/update_check` under the platform's configuration
/// directory; `None` when the platform has none.
pub fn cache_path() -> (r: Option<String>)
    ensures
        r matches Some(p) ==> exists|d: Seq<char>| p@ == #[trigger] path_join(path_join(d, "lazywt"@), "update_check"@),
{
    match crate::config::platform_config_dir() {
        Some(d) => Some(cache_path_in(d.as_str())),
        None => None,
    }
}

/// What the automatic update check is to do.
pub enum UpdateStep {
    /// Nothing.
    Nothing,
    /// Show this notice (from the cached version).
    Notify(String),
    /// Look up the latest release, record it, and notify if it is newer.
    Fetch,
}

pub enum UpdateStepView {
    Nothing,
    Notify(Seq<char>),
    Fetch,
}

pub open spec fn update_step_view(r: UpdateStep) -> UpdateStepView {
    match r {
        UpdateStep::Nothing => UpdateStepView::Nothing,
        UpdateStep::Notify(m) => UpdateStepView::Notify(m@),
        UpdateStep::Fetch => UpdateStepView::Fetch,
    }
}

/// What the check does: nothing when updates are off; within a day of the
/// recorded check, notify when the cached version is newer; otherwise look
/// the release up.
pub open spec fn update_plan(auto_update: bool, cache: Option<Seq<char>>, now: u64) -> UpdateStepView {
    let record = match cache {
        Some(c) => cache_record(c),
        None => None,
    };
    if !auto_update {
        UpdateStepView::Nothing
    } else {
        match record {
            Some((t, v)) => if within_throttle(t, now) {
                match v {
                    Some(ver) => if update_available(PACKAGE_VERSION@, ver) {
                        UpdateStepView::Notify(notify_message(ver))
                    } else {
                        UpdateStepView::Nothing
                    },
                    None => UpdateStepView::Nothing,
                }
            } else {
                UpdateStepView::Fetch
            },
            None => UpdateStepView::Fetch,
        }
    }
}

/// The automatic update check, given the cache text (if readable) and the
/// time.
pub fn check_for_update(config: &Config, cache: Option<&str>, now: u64) -> (r: UpdateStep)
    ensures
        update_step_view(r) == update_plan(
            config.auto_update,
            match cache {
                Some(c) => Some(c@),
                None => None,
            },
            now,
        ),
{
    if !config.auto_update {
        return UpdateStep::Nothing;
    }
    if is_within_throttle_at(cache, now) {
        match cache {
            Some(c) => match parse_cache(c) {
                Some((_, Some(v))) => match maybe_notify(v.as_str()) {
                    Some(m) => UpdateStep::Notify(m),
                    None => UpdateStep::Nothing,
                },
                _ => UpdateStep::Nothing,
            },
            None => UpdateStep::Nothing,
        }
    } else {
        UpdateStep::Fetch
    }
}

} // verus!
