//! Checking and repairing the fetch refspec, so that every remote branch is
//! fetched.
use vstd::prelude::*;

use crate::commands::clone::full_refspec;
use crate::commands::effects::{effect_view, git, next_effect, outcome_views, reply_of, say, then_do, Effect, EffectView, Level, Outcome, Prog, Runner};
use crate::commands::steps::say_exec;
use crate::git::config::{get_config_call, set_config_call};
use crate::git::{args2, args3, make_call, output_of, reply_message, trimmed_output, GitCallView, GitMode, GitReply, GitReplyView};
use crate::layout::ProjectContext;
use crate::output::Status;
use crate::text::{chars_eq, chars_of, join_str, string_of, trim};

verus! {

pub open spec fn fetch_origin_call(dir: Seq<char>) -> GitCallView {
    GitCallView { dir, args: seq!["fetch"@, "origin"@], mode: GitMode::Output }
}

/// The value a `config --get` reply gives: its trimmed output, or none when
/// git failed (the key is not set).
pub open spec fn config_value_of(r: GitReplyView) -> Option<Seq<char>> {
    match output_of(r) {
        Ok(out) => Some(trim(out)),
        Err(_) => None,
    }
}

pub open spec fn fixed_summary() -> Prog {
    say(
        Level::Success,
        "Fetch refspec fixed successfully!"@,
        say(
            Level::Info,
            "   Remote branches are now available as 'remotes/origin/<branch-name>'"@,
            say(Level::Info, "   You can now create worktrees from remote branches"@, Prog::Finish(Ok(()))),
        ),
    )
}

/// Set the full refspec (its failure ends the command), then fetch from
/// origin (a failure there is only reported).
pub open spec fn repair_prog(dir: Seq<char>) -> Prog {
    git(
        set_config_call(dir, "remote.origin.fetch"@, full_refspec()),
        |r: GitReplyView| match output_of(r) {
            Err(m) => Prog::Finish(Err(m)),
            Ok(_) => then_do(
                EffectView::Progress("Fetching all branches from origin"@),
                git(
                    fetch_origin_call(dir),
                    |f: GitReplyView| match output_of(f) {
                        Ok(_) => then_do(
                            EffectView::ProgressDone(Status::Success, "Fetched all branches"@),
                            fixed_summary(),
                        ),
                        Err(e) => then_do(
                            EffectView::ProgressDone(Status::Warning, "Failed to fetch"@),
                            say(
                                Level::Warning,
                                "Could not fetch from origin: "@ + e,
                                say(
                                    Level::Warning,
                                    "The refspec has been fixed, but you may need to fetch manually."@,
                                    fixed_summary(),
                                ),
                            ),
                        ),
                    },
                ),
            ),
        },
    )
}

/// What is done about the refspec found: nothing when it is the full one,
/// else a warning and the repair.
pub open spec fn after_read(dir: Seq<char>, current: Option<Seq<char>>) -> Prog {
    match current {
        Some(v) => if v == full_refspec() {
            say(
                Level::Info,
                "Current fetch refspec: "@ + v,
                say(Level::Success, "Fetch refspec is already correctly configured"@, Prog::Finish(Ok(()))),
            )
        } else {
            say(
                Level::Info,
                "Current fetch refspec: "@ + v,
                say(
                    Level::Warning,
                    "Fetch refspec is configured but not optimal\n   Current:  "@ + v + "\n   Expected: "@
                        + full_refspec(),
                    repair_prog(dir),
                ),
            )
        },
        None => say(Level::Warning, "Fetch refspec is not configured"@, repair_prog(dir)),
    }
}

/// The fix-fetch command.
pub open spec fn fix_fetch_prog(dir: Seq<char>) -> Prog {
    say(
        Level::Header,
        "Checking fetch refspec configuration"@,
        say(
            Level::Blank,
            Seq::empty(),
            git(get_config_call(dir, "remote.origin.fetch"@), |r: GitReplyView| after_read(dir, config_value_of(r))),
        ),
    )
}

fn repair_exec(rn: &mut Runner, dir: &str) -> (e: Effect)
    requires
        old(rn).consistent(),
        old(rn).prog@ == repair_prog(dir@),
    ensures
        effect_view(e) == next_effect(old(rn).whole@, old(rn).views()),
{
    let refspec = "+refs/heads/*:refs/remotes/origin/*";
    proof {
        reveal_strlit("+refs/heads/*:refs/remotes/origin/*");
    }
    let o = match rn.perform(Effect::Git(make_call(dir, args3("config", "remote.origin.fetch", refspec), GitMode::Output))) {
        Err(e) => {
            return e;
        },
        Ok(o) => o,
    };
    let reply = reply_of(&rn.outcomes[o]);
    match &reply {
        GitReply::Success(_) => {},
        _ => {
            return rn.finish(Err(reply_message(&reply)));
        },
    }
    match rn.perform(Effect::Progress("Fetching all branches from origin".to_string())) {
        Err(e) => {
            return e;
        },
        Ok(_) => {},
    }
    let o = match rn.perform(Effect::Git(make_call(dir, args2("fetch", "origin"), GitMode::Output))) {
        Err(e) => {
            return e;
        },
        Ok(o) => o,
    };
    let reply = reply_of(&rn.outcomes[o]);
    match &reply {
        GitReply::Success(_) => {
            match rn.perform(Effect::ProgressDone(Status::Success, "Fetched all branches".to_string())) {
                Err(e) => {
                    return e;
                },
                Ok(_) => {},
            }
        },
        _ => {
            match rn.perform(Effect::ProgressDone(Status::Warning, "Failed to fetch".to_string())) {
                Err(e) => {
                    return e;
                },
                Ok(_) => {},
            }
            let m = reply_message(&reply);
            match rn.perform(say_exec(Level::Warning, join_str("Could not fetch from origin: ", m.as_str()))) {
                Err(e) => {
                    return e;
                },
                Ok(_) => {},
            }
            match rn.perform(say_exec(Level::Warning, "The refspec has been fixed, but you may need to fetch manually.".to_string())) {
                Err(e) => {
                    return e;
                },
                Ok(_) => {},
            }
        },
    }
    match rn.perform(say_exec(Level::Success, "Fetch refspec fixed successfully!".to_string())) {
        Err(e) => {
            return e;
        },
        Ok(_) => {},
    }
    match rn.perform(say_exec(Level::Info, "   Remote branches are now available as 'remotes/origin/<branch-name>'".to_string())) {
        Err(e) => {
            return e;
        },
        Ok(_) => {},
    }
    match rn.perform(say_exec(Level::Info, "   You can now create worktrees from remote branches".to_string())) {
        Err(e) => {
            return e;
        },
        Ok(_) => {},
    }
    rn.finish(Ok(()))
}

/// The fix-fetch command's next effect, given the outcomes of those it
/// asked for so far.
pub fn run(ctx: &ProjectContext, outcomes: &Vec<Outcome>) -> (e: Effect)
    ensures
        effect_view(e) == next_effect(fix_fetch_prog(ctx.project_dir@), outcome_views(outcomes@)),
{
    let dir = ctx.project_dir.as_str();
    let mut rn = Runner::new(outcomes, Ghost(fix_fetch_prog(dir@)));
    match rn.perform(say_exec(Level::Header, "Checking fetch refspec configuration".to_string())) {
        Err(e) => {
            return e;
        },
        Ok(_) => {},
    }
    match rn.perform(say_exec(Level::Blank, String::new())) {
        Err(e) => {
            return e;
        },
        Ok(_) => {},
    }
    let o = match rn.perform(Effect::Git(make_call(dir, args3("config", "--get", "remote.origin.fetch"), GitMode::Output))) {
        Err(e) => {
            return e;
        },
        Ok(o) => o,
    };
    let expected = chars_of("+refs/heads/*:refs/remotes/origin/*");
    proof {
        reveal_strlit("+refs/heads/*:refs/remotes/origin/*");
    }
    match trimmed_output(&reply_of(&rn.outcomes[o])) {
        Some(v) => {
            let value = string_of(&v);
            match rn.perform(say_exec(Level::Info, join_str("Current fetch refspec: ", value.as_str()))) {
                Err(e) => {
                    return e;
                },
                Ok(_) => {},
            }
            if chars_eq(&v, &expected) {
                match rn.perform(say_exec(Level::Success, "Fetch refspec is already correctly configured".to_string())) {
                    Err(e) => {
                        return e;
                    },
                    Ok(_) => {},
                }
                return rn.finish(Ok(()));
            }
            let text = crate::text::join4(
                "Fetch refspec is configured but not optimal\n   Current:  ",
                value.as_str(),
                "\n   Expected: ",
                "+refs/heads/*:refs/remotes/origin/*",
            );
            match rn.perform(say_exec(Level::Warning, text)) {
                Err(e) => {
                    return e;
                },
                Ok(_) => {},
            }
        },
        None => {
            match rn.perform(say_exec(Level::Warning, "Fetch refspec is not configured".to_string())) {
                Err(e) => {
                    return e;
                },
                Ok(_) => {},
            }
        },
    }
    repair_exec(&mut rn, dir)
}

} // verus!
