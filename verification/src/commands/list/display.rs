//! The listing as lines of styled text: the columns of each worktree,
//! commit ages and shortened messages. Colours are only named here; the
//! caller shows them (or not).
use vstd::prelude::*;

use crate::commands::list::collect::{info_views, WorktreeInfo, WorktreeInfoView};
use crate::git::main_relationship::MainRelationship;
use crate::git::operations::ActiveOperation;
use crate::git::status::{status_clean, status_symbols, WorktreeStatus};
use crate::output::{
    ARROW, LOCKED, MAIN_AHEAD, MAIN_BEHIND, MAIN_CONFLICT, MAIN_DIVERGE, MAIN_INTEGRATED, MAIN_IS_DEFAULT,
    MAIN_ORPHAN, MAIN_SAME_COMMIT, OP_MERGE, OP_REBASE, PRUNABLE, STAR, UPSTREAM_AHEAD, UPSTREAM_BEHIND,
    UPSTREAM_DIVERGE, UPSTREAM_NONE, UPSTREAM_SYNC,
};
use crate::text::{chars_of, concat, decimal, decimal_int, i64_to_chars, join_str, slice_vec, string_of, u64_to_chars, utf8_bytes};

verus! {

/// A commit age in words: `now` under a minute (or in the future), then
/// whole minutes, hours, days, weeks or 30-day months.
pub open spec fn age_text(age: i64) -> Seq<char> {
    if age < 0 || age / 60 < 1 {
        "now"@
    } else if age / 3600 < 1 {
        decimal_int(age / 60) + "m ago"@
    } else if age / 86400 < 1 {
        decimal_int(age / 3600) + "h ago"@
    } else if age / 604800 < 1 {
        decimal_int(age / 86400) + "d ago"@
    } else if age / 2592000 < 1 {
        decimal_int(age / 604800) + "w ago"@
    } else {
        decimal_int(age / 2592000) + "mo ago"@
    }
}

fn count_with(n: i64, unit: &str) -> (r: String)
    ensures
        r@ == decimal_int(n as int) + unit@,
{
    string_of(&concat(&i64_to_chars(n), &chars_of(unit)))
}

pub fn format_age(age_secs: i64) -> (r: String)
    ensures
        r@ == age_text(age_secs),
{
    if age_secs < 0 {
        return "now".to_string();
    }
    let minutes = age_secs / 60;
    let hours = age_secs / 3600;
    let days = age_secs / 86400;
    let weeks = age_secs / 604800;
    let months = age_secs / 2592000;
    if minutes < 1 {
        "now".to_string()
    } else if hours < 1 {
        count_with(minutes, "m ago")
    } else if days < 1 {
        count_with(hours, "h ago")
    } else if weeks < 1 {
        count_with(days, "d ago")
    } else if months < 1 {
        count_with(weeks, "w ago")
    } else {
        count_with(months, "mo ago")
    }
}

/// A text cut to at most `max_len` characters: kept whole when it fits,
/// else its first `max_len - 3` characters (none when `max_len < 3`) and
/// `...`.
pub open spec fn truncated(s: Seq<char>, max_len: nat) -> Seq<char> {
    if s.len() <= max_len {
        s
    } else {
        s.take(if max_len >= 3 { max_len - 3 } else { 0 }) + "..."@
    }
}

pub fn truncate(s: &str, max_len: usize) -> (r: String)
    ensures
        r@ == truncated(s@, max_len as nat),
{
    let v = chars_of(s);
    if v.len() <= max_len {
        return s.to_string();
    }
    let keep = max_len.saturating_sub(3);
    let head = slice_vec(&v, 0, keep);
    assert(head@ =~= v@.take(keep as int));
    string_of(&concat(&head, &chars_of("...")))
}

// ------------------------------------------------------------------
// Styled text
// ------------------------------------------------------------------

/// How a piece of text is shown.
#[derive(Clone, Copy, Debug, PartialEq, Eq, Structural)]
pub enum Style {
    Plain,
    Cyan,
    Green,
    Yellow,
    Red,
    Blue,
    Dimmed,
}

/// A piece of text and its style.
pub struct Styled {
    pub text: String,
    pub style: Style,
}

pub struct StyledView {
    pub text: Seq<char>,
    pub style: Style,
}

impl View for Styled {
    type V = StyledView;

    open spec fn view(&self) -> StyledView {
        StyledView { text: self.text@, style: self.style }
    }
}

pub open spec fn seg(text: Seq<char>, style: Style) -> StyledView {
    StyledView { text, style }
}

pub open spec fn segs_view(v: Seq<Styled>) -> Seq<StyledView> {
    v.map_values(|s: Styled| s@)
}

pub open spec fn lines_view(v: Seq<Vec<Styled>>) -> Seq<Seq<StyledView>> {
    v.map_values(|l: Vec<Styled>| segs_view(l@))
}

/// The text of a line, styles left out.
pub open spec fn line_text(l: Seq<StyledView>) -> Seq<char>
    decreases l.len(),
{
    if l.len() == 0 {
        seq![]
    } else {
        line_text(l.drop_last()) + l.last().text
    }
}

fn styled(text: &str, style: Style) -> (r: Styled)
    ensures
        r@ == seg(text@, style),
{
    Styled { text: text.to_string(), style }
}

/// The text of a line without its styles.
pub fn plain_text(line: &Vec<Styled>) -> (r: String)
    ensures
        r@ == line_text(segs_view(line@)),
{
    let ghost lv = segs_view(line@);
    let mut out = String::new();
    let mut i: usize = 0;
    assert(lv.take(0) =~= Seq::<StyledView>::empty());
    while i < line.len()
        invariant
            i <= line@.len(),
            lv == segs_view(line@),
            out@ == line_text(lv.take(i as int)),
        decreases line.len() - i,
    {
        proof {
            assert(lv.take(i + 1).drop_last() =~= lv.take(i as int));
            assert(lv.take(i + 1).last() == line@[i as int]@);
        }
        out = join_str(out.as_str(), line[i].text.as_str());
        i = i + 1;
    }
    assert(lv.take(line@.len() as int) =~= lv);
    out
}

fn push_seg(line: &mut Vec<Styled>, text: &str, style: Style)
    ensures
        segs_view(final(line)@) == segs_view(old(line)@).push(seg(text@, style)),
{
    let ghost before = segs_view(line@);
    line.push(styled(text, style));
    assert(segs_view(line@) =~= before.push(seg(text@, style)));
}

fn append_segs(line: &mut Vec<Styled>, more: Vec<Styled>)
    ensures
        segs_view(final(line)@) == segs_view(old(line)@) + segs_view(more@),
{
    let ghost start = segs_view(line@);
    let ghost mv = segs_view(more@);
    let mut i: usize = 0;
    while i < more.len()
        invariant
            i <= more@.len(),
            mv == segs_view(more@),
            segs_view(line@) == start + mv.take(i as int),
        decreases more.len() - i,
    {
        let ghost before = segs_view(line@);
        push_seg(line, more[i].text.as_str(), more[i].style);
        assert(mv.take(i + 1) =~= mv.take(i as int).push(mv[i as int]));
        assert(segs_view(line@) =~= start + mv.take(i + 1));
        i = i + 1;
    }
    assert(mv.take(more@.len() as int) =~= mv);
}

fn number(n: u32) -> (r: String)
    ensures
        r@ == decimal(n as nat),
{
    string_of(&u64_to_chars(n as u64))
}

// ------------------------------------------------------------------
// Columns
// ------------------------------------------------------------------

/// Text right-aligned to `width` characters with spaces.
pub open spec fn right_aligned(s: Seq<char>, width: nat) -> Seq<char> {
    if s.len() >= width {
        s
    } else {
        Seq::new((width - s.len()) as nat, |i: int| ' ') + s
    }
}

/// The dirty column: `clean`, or the status symbols right-aligned to five.
pub open spec fn dirty_column(st: WorktreeStatus) -> StyledView {
    if status_clean(st) {
        seg("clean"@, Style::Dimmed)
    } else {
        seg(right_aligned(status_symbols(st), 5), Style::Yellow)
    }
}

pub fn format_dirty(status: &WorktreeStatus) -> (r: Styled)
    ensures
        r@ == dirty_column(*status),
{
    if status.is_clean() {
        return styled("clean", Style::Dimmed);
    }
    let sym = chars_of(status.symbols().as_str());
    let mut pad: Vec<char> = Vec::new();
    while pad.len() + sym.len() < 5
        invariant
            sym@ == status_symbols(*status),
            sym@.len() <= 3,
            pad@.len() + sym@.len() <= 5,
            forall|k: int| 0 <= k < pad@.len() ==> pad@[k] == ' ',
        decreases 5 - pad@.len(),
    {
        pad.push(' ');
    }
    let text = concat(&pad, &sym);
    assert(text@ =~= right_aligned(status_symbols(*status), 5));
    Styled { text: string_of(&text), style: Style::Yellow }
}

/// The upstream column: none, in sync, ahead, behind, or diverged.
pub open spec fn upstream_column(st: WorktreeStatus) -> StyledView {
    if !st.has_upstream {
        seg(UPSTREAM_NONE@, Style::Dimmed)
    } else if st.ahead == 0 && st.behind == 0 {
        seg(UPSTREAM_SYNC@, Style::Dimmed)
    } else if st.behind == 0 {
        seg(UPSTREAM_AHEAD@ + decimal(st.ahead as nat), Style::Yellow)
    } else if st.ahead == 0 {
        seg(UPSTREAM_BEHIND@ + decimal(st.behind as nat), Style::Red)
    } else {
        seg(UPSTREAM_DIVERGE@, Style::Red)
    }
}

pub fn format_upstream(status: &WorktreeStatus) -> (r: Styled)
    ensures
        r@ == upstream_column(*status),
{
    if !status.has_upstream {
        styled(UPSTREAM_NONE, Style::Dimmed)
    } else if status.ahead == 0 && status.behind == 0 {
        styled(UPSTREAM_SYNC, Style::Dimmed)
    } else if status.behind == 0 {
        Styled { text: join_str(UPSTREAM_AHEAD, number(status.ahead).as_str()), style: Style::Yellow }
    } else if status.ahead == 0 {
        Styled { text: join_str(UPSTREAM_BEHIND, number(status.behind).as_str()), style: Style::Red }
    } else {
        styled(UPSTREAM_DIVERGE, Style::Red)
    }
}

/// The column of the relationship to the default branch.
pub open spec fn main_column(rel: MainRelationship) -> StyledView {
    match rel {
        MainRelationship::IsDefault => seg(MAIN_IS_DEFAULT@, Style::Cyan),
        MainRelationship::Orphan => seg(MAIN_ORPHAN@, Style::Dimmed),
        MainRelationship::SameCommit => seg(MAIN_SAME_COMMIT@, Style::Dimmed),
        MainRelationship::Integrated => seg(MAIN_INTEGRATED@, Style::Green),
        MainRelationship::WouldConflict => seg(MAIN_CONFLICT@, Style::Red),
        MainRelationship::Diverged { .. } => seg(MAIN_DIVERGE@, Style::Yellow),
        MainRelationship::Ahead(n) => seg(MAIN_AHEAD@ + decimal(n as nat), Style::Yellow),
        MainRelationship::Behind(n) => seg(MAIN_BEHIND@ + decimal(n as nat), Style::Dimmed),
    }
}

pub fn format_main_rel(rel: &MainRelationship) -> (r: Styled)
    ensures
        r@ == main_column(*rel),
{
    match rel {
        MainRelationship::IsDefault => styled(MAIN_IS_DEFAULT, Style::Cyan),
        MainRelationship::Orphan => styled(MAIN_ORPHAN, Style::Dimmed),
        MainRelationship::SameCommit => styled(MAIN_SAME_COMMIT, Style::Dimmed),
        MainRelationship::Integrated => styled(MAIN_INTEGRATED, Style::Green),
        MainRelationship::WouldConflict => styled(MAIN_CONFLICT, Style::Red),
        MainRelationship::Diverged { .. } => styled(MAIN_DIVERGE, Style::Yellow),
        MainRelationship::Ahead(n) => Styled { text: join_str(MAIN_AHEAD, number(*n).as_str()), style: Style::Yellow },
        MainRelationship::Behind(n) => Styled { text: join_str(MAIN_BEHIND, number(*n).as_str()), style: Style::Dimmed },
    }
}

/// The marks for an operation in progress, a lock and a prunable
/// worktree, after a space; nothing without any.
pub open spec fn special_marks(info: WorktreeInfoView) -> Seq<StyledView> {
    let op = match info.operation {
        ActiveOperation::Rebase => seq![seg(OP_REBASE@, Style::Yellow)],
        ActiveOperation::Merge => seq![seg(OP_MERGE@, Style::Yellow)],
        ActiveOperation::Idle => seq![],
    };
    let locked = if info.worktree.is_locked {
        seq![seg(LOCKED@, Style::Yellow)]
    } else {
        seq![]
    };
    let prunable = if info.worktree.is_prunable {
        seq![seg(PRUNABLE@, Style::Red)]
    } else {
        seq![]
    };
    let parts = op + locked + prunable;
    if parts.len() == 0 {
        seq![]
    } else {
        seq![seg(" "@, Style::Plain)] + parts
    }
}

pub fn format_special_indicators(info: &WorktreeInfo) -> (r: Vec<Styled>)
    ensures
        segs_view(r@) == special_marks(info@),
{
    let mut parts: Vec<Styled> = Vec::new();
    match info.operation {
        ActiveOperation::Rebase => push_seg(&mut parts, OP_REBASE, Style::Yellow),
        ActiveOperation::Merge => push_seg(&mut parts, OP_MERGE, Style::Yellow),
        ActiveOperation::Idle => {},
    }
    if info.worktree.is_locked {
        push_seg(&mut parts, LOCKED, Style::Yellow);
    }
    if info.worktree.is_prunable {
        push_seg(&mut parts, PRUNABLE, Style::Red);
    }
    if parts.len() == 0 {
        assert(segs_view(parts@) =~= special_marks(info@));
        return parts;
    }
    let mut out: Vec<Styled> = Vec::new();
    push_seg(&mut out, " ", Style::Plain);
    append_segs(&mut out, parts);
    assert(segs_view(out@) =~= special_marks(info@));
    out
}

/// `(orphan)` and `(merged)`, after a space and with a space between.
pub open spec fn orphan_merged_marks(info: WorktreeInfoView) -> Seq<StyledView> {
    if info.is_orphan && info.is_merged {
        seq![seg(" "@, Style::Plain), seg("(orphan)"@, Style::Red), seg(" "@, Style::Plain), seg("(merged)"@, Style::Dimmed)]
    } else if info.is_orphan {
        seq![seg(" "@, Style::Plain), seg("(orphan)"@, Style::Red)]
    } else if info.is_merged {
        seq![seg(" "@, Style::Plain), seg("(merged)"@, Style::Dimmed)]
    } else {
        seq![]
    }
}

pub fn format_orphan_merged(info: &WorktreeInfo) -> (r: Vec<Styled>)
    ensures
        segs_view(r@) == orphan_merged_marks(info@),
{
    let mut out: Vec<Styled> = Vec::new();
    if info.is_orphan || info.is_merged {
        push_seg(&mut out, " ", Style::Plain);
    }
    if info.is_orphan {
        push_seg(&mut out, "(orphan)", Style::Red);
        if info.is_merged {
            push_seg(&mut out, " ", Style::Plain);
        }
    }
    if info.is_merged {
        push_seg(&mut out, "(merged)", Style::Dimmed);
    }
    assert(segs_view(out@) =~= orphan_merged_marks(info@));
    out
}

/// The branch shown: its name, or `(detached)`.
pub open spec fn shown_branch(info: WorktreeInfoView) -> Seq<char> {
    match info.worktree.branch {
        Some(b) => b,
        None => "(detached)"@,
    }
}

/// The gutter and the name (with `-> branch` when they differ); the
/// current worktree is starred and tagged.
pub open spec fn name_part(info: WorktreeInfoView) -> Seq<StyledView> {
    let b = shown_branch(info);
    let same = info.display_name == b;
    if info.is_current {
        let head = seq![
            seg(STAR@, Style::Cyan),
            seg(" "@, Style::Plain),
            seg("[current]"@, Style::Cyan),
            seg(" "@, Style::Plain),
            seg(ARROW@, Style::Cyan),
            seg(" "@, Style::Plain),
            seg(info.display_name, Style::Cyan),
        ];
        if same {
            head
        } else {
            head + seq![seg(" -> "@, Style::Plain), seg(b, Style::Green)]
        }
    } else {
        let head = seq![seg("  "@, Style::Plain), seg(ARROW@, Style::Cyan), seg(" "@, Style::Plain), seg(info.display_name, Style::Plain)];
        if same {
            head
        } else {
            head + seq![seg(" -> "@, Style::Plain), seg(b, Style::Green)]
        }
    }
}

fn name_part_exec(info: &WorktreeInfo) -> (r: Vec<Styled>)
    ensures
        segs_view(r@) == name_part(info@),
{
    let b: String = match &info.worktree.branch {
        Some(x) => x.clone(),
        None => "(detached)".to_string(),
    };
    let same = crate::text::chars_eq(&chars_of(info.display_name.as_str()), &chars_of(b.as_str()));
    let mut out: Vec<Styled> = Vec::new();
    if info.is_current {
        push_seg(&mut out, STAR, Style::Cyan);
        push_seg(&mut out, " ", Style::Plain);
        push_seg(&mut out, "[current]", Style::Cyan);
        push_seg(&mut out, " ", Style::Plain);
        push_seg(&mut out, ARROW, Style::Cyan);
        push_seg(&mut out, " ", Style::Plain);
        push_seg(&mut out, info.display_name.as_str(), Style::Cyan);
    } else {
        push_seg(&mut out, "  ", Style::Plain);
        push_seg(&mut out, ARROW, Style::Cyan);
        push_seg(&mut out, " ", Style::Plain);
        push_seg(&mut out, info.display_name.as_str(), Style::Plain);
    }
    if !same {
        push_seg(&mut out, " -> ", Style::Plain);
        push_seg(&mut out, b.as_str(), Style::Green);
    }
    assert(segs_view(out@) =~= name_part(info@));
    out
}

/// A short line: the name part, the symbols when dirty, and the orphan and
/// merged marks.
pub open spec fn short_line(info: WorktreeInfoView) -> Seq<StyledView> {
    let dirty = if status_clean(info.status) {
        seq![]
    } else {
        seq![seg(" "@, Style::Plain), seg(status_symbols(info.status), Style::Yellow)]
    };
    name_part(info) + dirty + orphan_merged_marks(info)
}

pub fn print_short_line(info: &WorktreeInfo, pad_width: usize) -> (r: Vec<Styled>)
    ensures
        segs_view(r@) == short_line(info@),
{
    let mut out = name_part_exec(info);
    if !info.status.is_clean() {
        push_seg(&mut out, " ", Style::Plain);
        let sym = info.status.symbols();
        push_seg(&mut out, sym.as_str(), Style::Yellow);
    }
    append_segs(&mut out, format_orphan_merged(info));
    assert(segs_view(out@) =~= short_line(info@));
    out
}

/// The width that a worktree's name part takes: the name's bytes, plus
/// ` -> ` and the branch's bytes when they differ (at most the largest
/// machine word, which no text in memory reaches).
pub open spec fn name_width(info: WorktreeInfoView) -> nat {
    let b = shown_branch(info);
    let w = if info.display_name == b {
        vstd::utf8::encode_utf8(info.display_name).len()
    } else {
        vstd::utf8::encode_utf8(info.display_name).len() + 4 + vstd::utf8::encode_utf8(b).len()
    };
    if w > usize::MAX {
        usize::MAX as nat
    } else {
        w
    }
}

fn byte_len(s: &str) -> (r: usize)
    ensures
        r == vstd::utf8::encode_utf8(s@).len(),
{
    utf8_bytes(&chars_of(s)).len()
}

fn name_width_exec(info: &WorktreeInfo) -> (r: usize)
    ensures
        r == name_width(info@),
{
    let b: String = match &info.worktree.branch {
        Some(x) => x.clone(),
        None => "(detached)".to_string(),
    };
    let n = byte_len(info.display_name.as_str());
    if crate::text::chars_eq(&chars_of(info.display_name.as_str()), &chars_of(b.as_str())) {
        n
    } else {
        let m = byte_len(b.as_str());
        if n > usize::MAX - 4 || m > usize::MAX - 4 - n {
            usize::MAX
        } else {
            n + 4 + m
        }
    }
}

/// The age column: the last commit's age, empty without branch facts.
pub open spec fn age_column(info: WorktreeInfoView) -> Seq<char> {
    match info.branch_info {
        Some(bi) => age_text(bi.commit_age_secs),
        None => seq![],
    }
}

/// The message column: the last commit's subject, cut to 40 characters.
pub open spec fn message_column(info: WorktreeInfoView) -> Seq<char> {
    match info.branch_info {
        Some(bi) => truncated(bi.commit_message, 40),
        None => seq![],
    }
}

/// A rich line: the name part padded to `pad` bytes, the special and
/// orphan/merged marks, then the dirty, upstream, main, age and message
/// columns two spaces apart.
pub open spec fn rich_line(info: WorktreeInfoView, pad: nat) -> Seq<StyledView> {
    let w = name_width(info);
    let padding = Seq::new(if pad > w { (pad - w) as nat } else { 0 }, |i: int| ' ');
    name_part(info) + seq![seg(padding, Style::Plain)] + special_marks(info) + orphan_merged_marks(info) + columns(info)
}

/// The columns after the name part.
pub open spec fn columns(info: WorktreeInfoView) -> Seq<StyledView> {
    seq![
        seg("  "@, Style::Plain),
        dirty_column(info.status),
        seg("  "@, Style::Plain),
        upstream_column(info.status),
        seg("  "@, Style::Plain),
        main_column(info.main_rel),
        seg("  "@, Style::Plain),
        seg(age_column(info), Style::Dimmed),
        seg("  "@, Style::Plain),
        seg(message_column(info), Style::Dimmed),
    ]
}

pub fn print_rich_line(info: &WorktreeInfo, pad_width: usize) -> (r: Vec<Styled>)
    ensures
        segs_view(r@) == rich_line(info@, pad_width as nat),
{
    let w = name_width_exec(info);
    let mut padding: Vec<char> = Vec::new();
    let target: usize = if pad_width > w {
        pad_width - w
    } else {
        0
    };
    while padding.len() < target
        invariant
            padding@.len() <= target,
            forall|k: int| 0 <= k < padding@.len() ==> padding@[k] == ' ',
        decreases target - padding@.len(),
    {
        padding.push(' ');
    }
    assert(padding@ =~= Seq::new(target as nat, |i: int| ' '));
    let mut out = name_part_exec(info);
    push_seg(&mut out, string_of(&padding).as_str(), Style::Plain);
    append_segs(&mut out, format_special_indicators(info));
    append_segs(&mut out, format_orphan_merged(info));
    append_segs(&mut out, columns_exec(info));
    out
}

fn columns_exec(info: &WorktreeInfo) -> (r: Vec<Styled>)
    ensures
        segs_view(r@) == columns(info@),
{
    let age = match &info.branch_info {
        Some(bi) => format_age(bi.commit_age_secs),
        None => String::new(),
    };
    let message = match &info.branch_info {
        Some(bi) => truncate(bi.commit_message.as_str(), 40),
        None => String::new(),
    };
    let mut out: Vec<Styled> = Vec::new();
    push_seg(&mut out, "  ", Style::Plain);
    let d = format_dirty(&info.status);
    push_seg(&mut out, d.text.as_str(), d.style);
    push_seg(&mut out, "  ", Style::Plain);
    let u = format_upstream(&info.status);
    push_seg(&mut out, u.text.as_str(), u.style);
    push_seg(&mut out, "  ", Style::Plain);
    let m = format_main_rel(&info.main_rel);
    push_seg(&mut out, m.text.as_str(), m.style);
    push_seg(&mut out, "  ", Style::Plain);
    push_seg(&mut out, age.as_str(), Style::Dimmed);
    push_seg(&mut out, "  ", Style::Plain);
    push_seg(&mut out, message.as_str(), Style::Dimmed);
    assert(segs_view(out@) =~= columns(info@));
    out
}

// ------------------------------------------------------------------
// The listing
// ------------------------------------------------------------------

/// The widest name part among the worktrees that are not bare (10 when
/// there are none).
pub open spec fn widest(infos: Seq<WorktreeInfoView>) -> nat
    decreases infos.len(),
{
    if infos.len() == 0 {
        10
    } else {
        let rest = widest(infos.drop_last());
        let w = infos.last();
        if w.worktree.is_bare {
            rest
        } else if !any_listed(infos.drop_last()) || name_width(w) > rest {
            name_width(w)
        } else {
            rest
        }
    }
}

/// Some worktree is not bare.
pub open spec fn any_listed(infos: Seq<WorktreeInfoView>) -> bool {
    exists|i: int| 0 <= i < infos.len() && !(#[trigger] infos[i]).worktree.is_bare
}

/// The first bare entry.
pub open spec fn first_bare(infos: Seq<WorktreeInfoView>) -> Option<WorktreeInfoView>
    decreases infos.len(),
{
    if infos.len() == 0 {
        None
    } else if infos[0].worktree.is_bare {
        Some(infos[0])
    } else {
        first_bare(infos.drop_first())
    }
}

/// The lines of the worktrees from `i` on: each one's line (short or
/// rich), then its path unless paths are left out.
pub open spec fn entry_lines(infos: Seq<WorktreeInfoView>, i: int, short: bool, no_path: bool, pad: nat) -> Seq<Seq<StyledView>>
    decreases infos.len() - i,
{
    if i < 0 || i >= infos.len() {
        seq![]
    } else if infos[i].worktree.is_bare {
        entry_lines(infos, i + 1, short, no_path, pad)
    } else {
        let line = if short {
            short_line(infos[i])
        } else {
            rich_line(infos[i], pad)
        };
        let path = if no_path {
            seq![]
        } else {
            seq![seq![seg("       "@ + infos[i].worktree.path, Style::Plain)]]
        };
        seq![line] + path + entry_lines(infos, i + 1, short, no_path, pad)
    }
}

/// The whole listing: a header, the bare repository (if listed), and the
/// worktrees.
pub open spec fn listing(infos: Seq<WorktreeInfoView>, project_name: Seq<char>, short: bool, no_path: bool) -> Seq<Seq<StyledView>> {
    let head = seq![seq![seg("=== Git Worktrees for "@ + project_name + " ==="@, Style::Blue)], seq![]];
    let bare = match first_bare(infos) {
        Some(b) => seq![seq![seg("[bare repository] -> "@, Style::Plain), seg(b.worktree.path, Style::Cyan)], seq![]],
        None => seq![],
    };
    head + bare + seq![seq![seg("Worktrees:"@, Style::Cyan)]] + entry_lines(infos, 0, short, no_path, widest(infos))
}

fn widest_exec(infos: &Vec<WorktreeInfo>) -> (r: usize)
    ensures
        r == widest(info_views(infos@)),
{
    let ghost iv = info_views(infos@);
    let mut best: usize = 10;
    let mut seen = false;
    let mut i: usize = 0;
    assert(iv.take(0) =~= Seq::<WorktreeInfoView>::empty());
    while i < infos.len()
        invariant
            i <= infos@.len(),
            iv == info_views(infos@),
            best == widest(iv.take(i as int)),
            seen == any_listed(iv.take(i as int)),
        decreases infos.len() - i,
    {
        proof {
            assert(iv.take(i + 1).drop_last() =~= iv.take(i as int));
            assert(iv.take(i + 1).last() == infos@[i as int]@);
        }
        let info = &infos[i];
        if !info.worktree.is_bare {
            let w = name_width_exec(info);
            if !seen || w > best {
                best = w;
            }
            seen = true;
            assert(iv.take(i + 1)[i as int] == iv[i as int]);
        } else {
            assert forall|k: int| 0 <= k < i + 1 && !(#[trigger] iv.take(i + 1)[k]).worktree.is_bare implies 0 <= k
                < i && !iv.take(i as int)[k].worktree.is_bare by {
                assert(iv.take(i + 1)[k] == iv[k]);
            }
        }
        i = i + 1;
    }
    assert(iv.take(infos@.len() as int) =~= iv);
    best
}

fn first_bare_exec(infos: &Vec<WorktreeInfo>) -> (r: Option<usize>)
    ensures
        match (r, first_bare(info_views(infos@))) {
            (Some(i), Some(b)) => i < infos@.len() && infos@[i as int]@ == b,
            (None, None) => true,
            _ => false,
        },
{
    let ghost iv = info_views(infos@);
    let mut i: usize = 0;
    assert(iv.skip(0) =~= iv);
    while i < infos.len()
        invariant
            i <= infos@.len(),
            iv == info_views(infos@),
            first_bare(iv.skip(i as int)) == first_bare(iv),
        decreases infos.len() - i,
    {
        assert(iv.skip(i as int)[0] == infos@[i as int]@);
        if infos[i].worktree.is_bare {
            return Some(i);
        }
        assert(iv.skip(i as int).drop_first() =~= iv.skip(i + 1));
        i = i + 1;
    }
    None
}

fn no_segs() -> (r: Vec<Styled>)
    ensures
        segs_view(r@) == Seq::<StyledView>::empty(),
{
    let v: Vec<Styled> = Vec::new();
    assert(segs_view(v@) =~= Seq::<StyledView>::empty());
    v
}

fn single(text: &str, style: Style) -> (r: Vec<Styled>)
    ensures
        segs_view(r@) == seq![seg(text@, style)],
{
    let mut v = no_segs();
    push_seg(&mut v, text, style);
    assert(segs_view(v@) =~= seq![seg(text@, style)]);
    v
}

fn push_line(lines: &mut Vec<Vec<Styled>>, line: Vec<Styled>)
    ensures
        lines_view(final(lines)@) == lines_view(old(lines)@).push(segs_view(line@)),
{
    let ghost before = lines_view(lines@);
    let ghost lv = segs_view(line@);
    lines.push(line);
    assert(lines_view(lines@) =~= before.push(lv));
}

/// The listing's lines.
pub fn print_rich(infos: &Vec<WorktreeInfo>, project_name: &str, short: bool, no_path: bool) -> (r: Vec<Vec<Styled>>)
    ensures
        lines_view(r@) == listing(info_views(infos@), project_name@, short, no_path),
{
    let mut out: Vec<Vec<Styled>> = Vec::new();
    assert(lines_view(out@) =~= Seq::<Seq<StyledView>>::empty());
    push_line(&mut out, single(crate::text::join3("=== Git Worktrees for ", project_name, " ===").as_str(), Style::Blue));
    push_line(&mut out, no_segs());
    match first_bare_exec(infos) {
        Some(b) => {
            let mut l = single("[bare repository] -> ", Style::Plain);
            push_seg(&mut l, infos[b].worktree.path.as_str(), Style::Cyan);
            assert(segs_view(l@) =~= seq![seg("[bare repository] -> "@, Style::Plain), seg(infos@[b as int]@.worktree.path, Style::Cyan)]);
            push_line(&mut out, l);
            push_line(&mut out, no_segs());
        },
        None => {},
    }
    push_line(&mut out, single("Worktrees:", Style::Cyan));
    let ghost head = lines_view(out@);
    proof {
        let h = seq![seq![seg("=== Git Worktrees for "@ + project_name@ + " ==="@, Style::Blue)], seq![]];
        let bare = match first_bare(info_views(infos@)) {
            Some(b) => seq![seq![seg("[bare repository] -> "@, Style::Plain), seg(b.worktree.path, Style::Cyan)], seq![]],
            None => seq![],
        };
        assert(head =~= h + bare + seq![seq![seg("Worktrees:"@, Style::Cyan)]]);
    }
    let pad = widest_exec(infos);
    let mut i: usize = 0;
    assert(entry_lines(info_views(infos@), 0, short, no_path, pad as nat) =~= entry_lines(info_views(infos@), 0, short, no_path, pad as nat));
    while i < infos.len()
        invariant
            i <= infos@.len(),
            pad == widest(info_views(infos@)),
            lines_view(out@) + entry_lines(info_views(infos@), i as int, short, no_path, pad as nat) == head + entry_lines(
                info_views(infos@),
                0,
                short,
                no_path,
                pad as nat,
            ),
        decreases infos.len() - i,
    {
        let info = &infos[i];
        assert(info_views(infos@)[i as int] == infos@[i as int]@);
        if !info.worktree.is_bare {
            let line = if short {
                print_short_line(info, pad)
            } else {
                print_rich_line(info, pad)
            };
            let ghost before = lines_view(out@);
            let ghost lv = segs_view(line@);
            push_line(&mut out, line);
            let ghost pv: Seq<Seq<StyledView>> = if no_path {
                seq![]
            } else {
                seq![seq![seg("       "@ + infos@[i as int]@.worktree.path, Style::Plain)]]
            };
            if !no_path {
                push_line(&mut out, single(crate::text::join_str("       ", info.worktree.path.as_str()).as_str(), Style::Plain));
            }
            proof {
                let rest = entry_lines(info_views(infos@), i + 1, short, no_path, pad as nat);
                assert(entry_lines(info_views(infos@), i as int, short, no_path, pad as nat) == seq![lv] + pv + rest);
                assert(lines_view(out@) =~= before + seq![lv] + pv);
                assert(lines_view(out@) + rest =~= before + (seq![lv] + pv + rest));
            }
        }
        i = i + 1;
    }
    assert(lines_view(out@) =~= head + entry_lines(info_views(infos@), 0, short, no_path, pad as nat));
    out
}

} // verus!
