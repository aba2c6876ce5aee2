//! Moving a legacy `key = value` configuration (`~/.wtconfig`) and the old
//! update-check cache to their places under the configuration directory.
//! The JSON file is written before the old file is removed, so a failed
//! write keeps the old configuration.
use vstd::prelude::*;

use crate::commands::effects::{
    done_of, done_result_of, effect_view, fs, fs_answer_of, next_effect, outcome_views, say, then_do, Effect,
    EffectView, Level, Outcome, OutcomeView, Prog, Runner,
};
use crate::commands::steps::{name_view, say_exec};
use crate::config::schema::{GlobalConfig, GlobalConfigView};
use crate::config::{global_config_path_in, parsed_legacy, Config};
use crate::git::operations::{FsQuery, FsQueryView, FsReply, FsReplyView};
use crate::paths::{join, parent, path_join, path_parent};
use crate::text::join_str;

verus! {

/// The global configuration that legacy text gives: its command name,
/// worktree folder and the two switches; the rest are the defaults.
pub open spec fn legacy_global(content: Seq<char>) -> GlobalConfigView {
    let p = parsed_legacy(content);
    GlobalConfigView {
        command_name: p.command_name,
        worktree_folder: p.worktree_folder,
        bare_dir: None,
        auto_update: p.auto_update,
        auto_navigate: p.auto_navigate,
        branch_prefix: Seq::empty(),
        copy_files: Seq::empty(),
        worktree_location: "inside"@,
    }
}

/// The global configuration of legacy `key = value` text.
pub fn legacy_to_global(content: &str) -> (r: GlobalConfig)
    ensures
        r@ == legacy_global(content@),
{
    let c = Config::parse(content);
    let g = GlobalConfig {
        command_name: c.command_name,
        worktree_folder: c.worktree_folder,
        bare_dir: None,
        auto_update: c.auto_update,
        auto_navigate: c.auto_navigate,
        branch_prefix: String::new(),
        copy_files: Vec::new(),
        worktree_location: "inside".to_string(),
    };
    assert(g@.copy_files =~= Seq::<Seq<char>>::empty());
    g
}

/// Migrate the configuration: only when the legacy file exists, the JSON
/// file does not, and the legacy file can be read; the legacy file is
/// removed (and the move announced) only once the JSON file is written.
/// Nothing here fails the program: each stop goes on with `then`.
pub open spec fn config_migration(ini: Seq<char>, json: Seq<char>, then: Prog) -> Prog {
    fs(
        FsQueryView::Exists(ini),
        |a: FsReplyView| if !(a is Yes) {
            then
        } else {
            fs(
                FsQueryView::Exists(json),
                |b: FsReplyView| if b is Yes {
                    then
                } else {
                    fs(
                        FsQueryView::ReadText(ini),
                        |t: FsReplyView| match t {
                            FsReplyView::Text(c) => Prog::Do(
                                EffectView::WriteGlobalConfig { path: json, config: legacy_global(c) },
                                |o: OutcomeView| match done_of(o) {
                                    Err(_) => then,
                                    Ok(_) => then_do(
                                        EffectView::RemoveFile(ini),
                                        say(Level::Info, "Migrated config to "@ + json, then),
                                    ),
                                },
                            ),
                            _ => then,
                        },
                    )
                },
            )
        },
    )
}

/// The JSON file is written before the legacy file is removed. Once the
/// legacy file was found, the JSON file found missing and the legacy text
/// read, the migration writes that text's configuration to the JSON file;
/// a failed write goes on with `then` and leaves the legacy file alone,
/// and only a successful write is followed by removing the legacy file.
/// Without a legacy file, or with a JSON file already there, the
/// migration goes straight on with `then`.
pub proof fn lemma_write_before_remove(
    ini: Seq<char>,
    json: Seq<char>,
    then: Prog,
    text: Seq<char>,
    err: Seq<char>,
    rest: Seq<OutcomeView>,
)
    ensures
        next_effect(
            config_migration(ini, json, then),
            seq![OutcomeView::Fs(FsReplyView::Yes), OutcomeView::Fs(FsReplyView::No), OutcomeView::Fs(FsReplyView::Text(text))],
        ) == (EffectView::WriteGlobalConfig { path: json, config: legacy_global(text) }),
        next_effect(
            config_migration(ini, json, then),
            seq![
                OutcomeView::Fs(FsReplyView::Yes),
                OutcomeView::Fs(FsReplyView::No),
                OutcomeView::Fs(FsReplyView::Text(text)),
                OutcomeView::Done(Err(err)),
            ] + rest,
        ) == next_effect(then, rest),
        next_effect(
            config_migration(ini, json, then),
            seq![
                OutcomeView::Fs(FsReplyView::Yes),
                OutcomeView::Fs(FsReplyView::No),
                OutcomeView::Fs(FsReplyView::Text(text)),
                OutcomeView::Done(Ok(())),
            ],
        ) == EffectView::RemoveFile(ini),
        next_effect(config_migration(ini, json, then), seq![OutcomeView::Fs(FsReplyView::No)] + rest) == next_effect(
            then,
            rest,
        ),
        next_effect(
            config_migration(ini, json, then),
            seq![OutcomeView::Fs(FsReplyView::Yes), OutcomeView::Fs(FsReplyView::Yes)] + rest,
        ) == next_effect(then, rest),
{
    let p = config_migration(ini, json, then);
    let yes = OutcomeView::Fs(FsReplyView::Yes);
    let no = OutcomeView::Fs(FsReplyView::No);
    let txt = OutcomeView::Fs(FsReplyView::Text(text));
    let failed = OutcomeView::Done(Err(err));
    let done = OutcomeView::Done(Ok(()));
    let p1 = (p->Do_1)(yes);
    let p2 = (p1->Do_1)(no);
    let p3 = (p2->Do_1)(txt);
    let a = seq![yes, no, txt];
    assert(a.drop_first() =~= seq![no, txt]);
    assert(seq![no, txt].drop_first() =~= seq![txt]);
    assert(seq![txt].drop_first() =~= Seq::<OutcomeView>::empty());
    assert(next_effect(p2, seq![txt]) == next_effect(p3, Seq::<OutcomeView>::empty()));
    assert(next_effect(p1, seq![no, txt]) == next_effect(p2, seq![txt]));
    assert(next_effect(p, a) == next_effect(p1, seq![no, txt]));
    let fail = seq![yes, no, txt, failed] + rest;
    let f1 = seq![no, txt, failed] + rest;
    let f2 = seq![txt, failed] + rest;
    let f3 = seq![failed] + rest;
    assert(fail.drop_first() =~= f1);
    assert(f1.drop_first() =~= f2);
    assert(f2.drop_first() =~= f3);
    assert(f3.drop_first() =~= rest);
    assert(next_effect(p3, f3) == next_effect((p3->Do_1)(failed), rest));
    assert(next_effect(p2, f2) == next_effect(p3, f3));
    assert(next_effect(p1, f1) == next_effect(p2, f2));
    assert(next_effect(p, fail) == next_effect(p1, f1));
    let ok = seq![yes, no, txt, done];
    let o1 = seq![no, txt, done];
    let o2 = seq![txt, done];
    let o3 = seq![done];
    assert(ok.drop_first() =~= o1);
    assert(o1.drop_first() =~= o2);
    assert(o2.drop_first() =~= o3);
    assert(o3.drop_first() =~= Seq::<OutcomeView>::empty());
    assert(next_effect(p3, o3) == next_effect((p3->Do_1)(done), Seq::<OutcomeView>::empty()));
    assert(next_effect(p2, o2) == next_effect(p3, o3));
    assert(next_effect(p1, o1) == next_effect(p2, o2));
    assert(next_effect(p, ok) == next_effect(p1, o1));
    assert((seq![no] + rest).drop_first() =~= rest);
    assert((seq![yes, yes] + rest).drop_first() =~= seq![yes] + rest);
    assert((seq![yes] + rest).drop_first() =~= rest);
    assert(next_effect(p1, seq![yes] + rest) == next_effect((p1->Do_1)(yes), rest));
    assert(next_effect(p, seq![yes, yes] + rest) == next_effect(p1, seq![yes] + rest));
}

/// Move the old cache file: only when it exists and the new one does not;
/// copy it (after creating the new directory), then remove the old one.
pub open spec fn cache_migration(old: Seq<char>, new: Seq<char>, then: Prog) -> Prog {
    let copy = Prog::Do(
        EffectView::CopyFile { from: old, to: new },
        |o: OutcomeView| match done_of(o) {
            Ok(_) => then_do(EffectView::RemoveFile(old), then),
            Err(_) => then,
        },
    );
    fs(
        FsQueryView::Exists(old),
        |a: FsReplyView| if !(a is Yes) {
            then
        } else {
            fs(
                FsQueryView::Exists(new),
                |b: FsReplyView| if b is Yes {
                    then
                } else {
                    match path_parent(new) {
                        Some(p) => Prog::Do(
                            EffectView::CreateDirAll(p),
                            |o: OutcomeView| match done_of(o) {
                                Err(_) => then,
                                Ok(_) => copy,
                            },
                        ),
                        None => copy,
                    }
                },
            )
        },
    )
}

/// The one-time migration, given the home and configuration directories:
/// `<home>/.wtconfig` to `<config>/lazywt/config.json`, then
/// `<home>/.wt_update_check` to `<config>/lazywt/update_check`; nothing
/// without both directories.
pub open spec fn migration_prog(home: Option<Seq<char>>, config_dir: Option<Seq<char>>) -> Prog {
    match (home, config_dir) {
        (Some(h), Some(c)) => config_migration(
            path_join(h, ".wtconfig"@),
            path_join(path_join(c, "lazywt"@), "config.json"@),
            cache_migration(
                path_join(h, ".wt_update_check"@),
                path_join(path_join(c, "lazywt"@), "update_check"@),
                Prog::Finish(Ok(())),
            ),
        ),
        _ => Prog::Finish(Ok(())),
    }
}

fn yes(rn: &Runner, o: usize) -> (b: bool)
    requires
        o < rn.outcomes@.len(),
    ensures
        b == (crate::commands::effects::fs_reply_of(
            crate::commands::effects::outcome_view(rn.outcomes@[o as int]),
        ) is Yes),
{
    match fs_answer_of(&rn.outcomes[o]) {
        FsReply::Yes => true,
        _ => false,
    }
}

fn config_exec(rn: &mut Runner, ini: &str, json: &str, Ghost(then): Ghost<Prog>) -> (r: Result<(), Effect>)
    requires
        old(rn).consistent(),
        old(rn).prog@ == config_migration(ini@, json@, then),
    ensures
        final(rn).consistent(),
        final(rn).outcomes == old(rn).outcomes,
        final(rn).whole == old(rn).whole,
        match r {
            Ok(()) => final(rn).prog@ == then,
            Err(e) => effect_view(e) == next_effect(old(rn).whole@, old(rn).views()),
        },
{
    let o = match rn.perform(Effect::Fs(FsQuery::Exists(ini.to_string()))) {
        Err(e) => {
            return Err(e);
        },
        Ok(o) => o,
    };
    if !yes(rn, o) {
        return Ok(());
    }
    let o = match rn.perform(Effect::Fs(FsQuery::Exists(json.to_string()))) {
        Err(e) => {
            return Err(e);
        },
        Ok(o) => o,
    };
    if yes(rn, o) {
        return Ok(());
    }
    let o = match rn.perform(Effect::Fs(FsQuery::ReadText(ini.to_string()))) {
        Err(e) => {
            return Err(e);
        },
        Ok(o) => o,
    };
    let content = match fs_answer_of(&rn.outcomes[o]) {
        FsReply::Text(c) => c,
        _ => {
            return Ok(());
        },
    };
    let global = legacy_to_global(content.as_str());
    let o = match rn.perform(Effect::WriteGlobalConfig { path: json.to_string(), config: global }) {
        Err(e) => {
            return Err(e);
        },
        Ok(o) => o,
    };
    match done_result_of(&rn.outcomes[o]) {
        Err(_) => {
            return Ok(());
        },
        Ok(()) => {},
    }
    match rn.perform(Effect::RemoveFile(ini.to_string())) {
        Err(e) => {
            return Err(e);
        },
        Ok(_) => {},
    }
    match rn.perform(say_exec(Level::Info, join_str("Migrated config to ", json))) {
        Err(e) => Err(e),
        Ok(_) => Ok(()),
    }
}

fn cache_exec(rn: &mut Runner, old_cache: &str, new_cache: &str, Ghost(then): Ghost<Prog>) -> (r: Result<(), Effect>)
    requires
        old(rn).consistent(),
        old(rn).prog@ == cache_migration(old_cache@, new_cache@, then),
    ensures
        final(rn).consistent(),
        final(rn).outcomes == old(rn).outcomes,
        final(rn).whole == old(rn).whole,
        match r {
            Ok(()) => final(rn).prog@ == then,
            Err(e) => effect_view(e) == next_effect(old(rn).whole@, old(rn).views()),
        },
{
    let o = match rn.perform(Effect::Fs(FsQuery::Exists(old_cache.to_string()))) {
        Err(e) => {
            return Err(e);
        },
        Ok(o) => o,
    };
    if !yes(rn, o) {
        return Ok(());
    }
    let o = match rn.perform(Effect::Fs(FsQuery::Exists(new_cache.to_string()))) {
        Err(e) => {
            return Err(e);
        },
        Ok(o) => o,
    };
    if yes(rn, o) {
        return Ok(());
    }
    match parent(new_cache) {
        Some(p) => {
            let o = match rn.perform(Effect::CreateDirAll(p)) {
                Err(e) => {
                    return Err(e);
                },
                Ok(o) => o,
            };
            match done_result_of(&rn.outcomes[o]) {
                Err(_) => {
                    return Ok(());
                },
                Ok(()) => {},
            }
        },
        None => {},
    }
    let o = match rn.perform(Effect::CopyFile { from: old_cache.to_string(), to: new_cache.to_string() }) {
        Err(e) => {
            return Err(e);
        },
        Ok(o) => o,
    };
    match done_result_of(&rn.outcomes[o]) {
        Err(_) => Ok(()),
        Ok(()) => match rn.perform(Effect::RemoveFile(old_cache.to_string())) {
            Err(e) => Err(e),
            Ok(_) => Ok(()),
        },
    }
}

/// The migration's next effect, given the home and configuration
/// directories and the outcomes of the effects asked for so far.
pub fn migrate_if_needed(home: Option<&str>, config_dir: Option<&str>, outcomes: &Vec<Outcome>) -> (e: Effect)
    ensures
        effect_view(e) == next_effect(migration_prog(name_view(home), name_view(config_dir)), outcome_views(outcomes@)),
{
    let mut rn = Runner::new(outcomes, Ghost(migration_prog(name_view(home), name_view(config_dir))));
    let (h, c) = match (home, config_dir) {
        (Some(h), Some(c)) => (h, c),
        _ => {
            return rn.finish(Ok(()));
        },
    };
    let ini = join(h, ".wtconfig");
    let json = global_config_path_in(c);
    let old_cache = join(h, ".wt_update_check");
    let new_cache = join(join(c, "lazywt").as_str(), "update_check");
    let ghost rest = cache_migration(old_cache@, new_cache@, Prog::Finish(Ok(())));
    match config_exec(&mut rn, ini.as_str(), json.as_str(), Ghost(rest)) {
        Err(e) => {
            return e;
        },
        Ok(()) => {},
    }
    match cache_exec(&mut rn, old_cache.as_str(), new_cache.as_str(), Ghost(Prog::Finish(Ok(())))) {
        Err(e) => {
            return e;
        },
        Ok(()) => {},
    }
    rn.finish(Ok(()))
}

} // verus!
