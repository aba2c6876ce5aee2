//! Listing worktrees: what is collected for each, and how it is shown.
use vstd::prelude::*;

pub mod collect;
pub mod display;
pub mod json;

use crate::commands::effects::{effect_view, fs, fs_answer_of, next_effect, outcome_views, then_do, Effect, EffectView, Outcome, Prog, Runner};
use crate::commands::list::collect::{collect_all, collect_prog, numstat_ok, WorktreeInfoView};
use crate::commands::list::display::{listing, print_rich};
use crate::git::operations::{FsQuery, FsQueryView, FsReply, FsReplyView};
use crate::layout::{ProjectContext, ProjectContextView};

verus! {

/// Show the records: as JSON, or as the listing's lines.
pub open spec fn show(name: Seq<char>, short: bool, json: bool, no_path: bool, no_color: bool) -> spec_fn(
    Seq<WorktreeInfoView>,
    Seq<char>,
) -> Prog {
    |infos: Seq<WorktreeInfoView>, default_branch: Seq<char>| if json {
        then_do(EffectView::ShowJson(infos), Prog::Finish(Ok(())))
    } else {
        then_do(
            EffectView::ShowLines { lines: listing(infos, name, short, no_path), no_color },
            Prog::Finish(Ok(())),
        )
    }
}

/// With the canonical current directory (if it can be had), gather and
/// show.
pub open spec fn after_cwd(ctx: ProjectContextView, short: bool, json: bool, no_path: bool, no_color: bool, now: i64) -> spec_fn(
    FsReplyView,
) -> Prog {
    |c: FsReplyView| {
        let k = show(ctx.project_name, short, json, no_path, no_color);
        match c {
            FsReplyView::Text(x) => fs(
                FsQueryView::Canonical(x),
                |cc: FsReplyView| match cc {
                    FsReplyView::Text(y) => collect_prog(ctx.project_dir, Some(y), short, now, k),
                    _ => collect_prog(ctx.project_dir, None, short, now, k),
                },
            ),
            _ => collect_prog(ctx.project_dir, None, short, now, k),
        }
    }
}

/// The list command, with branch ages taken at `now`.
pub open spec fn list_prog(ctx: ProjectContextView, short: bool, json: bool, no_path: bool, no_color: bool, now: i64) -> Prog {
    fs(FsQueryView::CurrentDir, after_cwd(ctx, short, json, no_path, no_color, now))
}

/// The list command's next effect, given the outcomes of those it asked
/// for so far, with branch ages taken at `now`.
pub fn run_at(
    ctx: &ProjectContext,
    short: bool,
    json: bool,
    no_path: bool,
    no_color: bool,
    now: i64,
    outcomes: &Vec<Outcome>,
) -> (e: Effect)
    requires
        numstat_ok(outcome_views(outcomes@)),
    ensures
        effect_view(e) == next_effect(list_prog(ctx@, short, json, no_path, no_color, now), outcome_views(outcomes@)),
{
    let mut rn = Runner::new(outcomes, Ghost(list_prog(ctx@, short, json, no_path, no_color, now)));
    let o = match rn.perform(Effect::Fs(FsQuery::CurrentDir)) {
        Err(e) => {
            return e;
        },
        Ok(o) => o,
    };
    let cwd: Option<String> = match fs_answer_of(&rn.outcomes[o]) {
        FsReply::Text(x) => {
            let o2 = match rn.perform(Effect::Fs(FsQuery::Canonical(x))) {
                Err(e) => {
                    return e;
                },
                Ok(o2) => o2,
            };
            match fs_answer_of(&rn.outcomes[o2]) {
                FsReply::Text(y) => Some(y),
                _ => None,
            }
        },
        _ => None,
    };
    let ghost k = show(ctx@.project_name, short, json, no_path, no_color);
    let infos = match collect_all(&mut rn, ctx.project_dir.as_str(), &cwd, short, now, Ghost(k)) {
        Err(e) => {
            return e;
        },
        Ok((v, _default_branch)) => v,
    };
    let shown = if json {
        Effect::ShowJson(infos)
    } else {
        Effect::ShowLines { lines: print_rich(&infos, ctx.project_name.as_str(), short, no_path), no_color }
    };
    match rn.perform(shown) {
        Err(e) => {
            return e;
        },
        Ok(_) => {},
    }
    rn.finish(Ok(()))
}

/// The list command's next effect, with branch ages taken at the current
/// time.
pub fn run(ctx: &ProjectContext, short: bool, json: bool, no_path: bool, no_color: bool, outcomes: &Vec<Outcome>) -> (e: Effect)
    requires
        numstat_ok(outcome_views(outcomes@)),
    ensures
        exists|now: i64|
            effect_view(e) == #[trigger] next_effect(list_prog(ctx@, short, json, no_path, no_color, now), outcome_views(outcomes@)),
{
    let now = crate::git::branch_info::unix_now();
    run_at(ctx, short, json, no_path, no_color, now, outcomes)
}

} // verus!
