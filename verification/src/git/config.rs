//! Reading and writing git config values.
use vstd::prelude::*;

use crate::git::{args3, make_call, output_of, reply_message, reply_views, GitCallView, GitMode, GitReply, GitReplyView, GitStep};
use crate::text::{chars_of, is_ws, string_of, trim, trim_chars};

verus! {

pub open spec fn get_config_call(dir: Seq<char>, key: Seq<char>) -> GitCallView {
    GitCallView { dir, args: seq!["config"@, "--get"@, key], mode: GitMode::Output }
}

/// A config value: the trimmed output of `git config --get <key>`, or `None`
/// when git fails (the key is not set).
pub fn get_config(dir: &str, key: &str, replies: &Vec<GitReply>) -> (r: GitStep<Option<String>>)
    ensures
        replies.len() == 0 ==> (r matches GitStep::Run(c) && c@ == get_config_call(dir@, key@)),
        replies.len() > 0 ==> (r matches GitStep::Done(v) && match output_of(reply_views(replies@)[0]) {
            Ok(out) => v is Some && v->Some_0@ == trim(out),
            Err(_) => v is None,
        }),
        replies.len() > 0 ==> (r matches GitStep::Done(v) && crate::text::opt_view(v) == config_value(
            reply_views(replies@)[0],
        )),
{
    if replies.len() == 0 {
        return GitStep::Run(make_call(dir, args3("config", "--get", key), GitMode::Output));
    }
    match &replies[0] {
        GitReply::Success(out) => GitStep::Done(Some(string_of(&trim_chars(&chars_of(out.as_str()))))),
        _ => GitStep::Done(None),
    }
}

pub open spec fn set_config_call(dir: Seq<char>, key: Seq<char>, value: Seq<char>) -> GitCallView {
    GitCallView { dir, args: seq!["config"@, key, value], mode: GitMode::Output }
}

/// Set a config value (`git config <key> <value>`); git's failure is the
/// error.
pub fn set_config(dir: &str, key: &str, value: &str, replies: &Vec<GitReply>) -> (r: GitStep<Result<(), String>>)
    ensures
        replies.len() == 0 ==> (r matches GitStep::Run(c) && c@ == set_config_call(dir@, key@, value@)),
        replies.len() > 0 ==> (r matches GitStep::Done(res) && match output_of(reply_views(replies@)[0]) {
            Ok(_) => res is Ok,
            Err(m) => res is Err && res->Err_0@ == m,
        }),
{
    if replies.len() == 0 {
        return GitStep::Run(make_call(dir, args3("config", key, value), GitMode::Output));
    }
    match &replies[0] {
        GitReply::Success(_) => GitStep::Done(Ok(())),
        _ => GitStep::Done(Err(reply_message(&replies[0]))),
    }
}

/// The value that a reply to `git config --get` gives: its trimmed output,
/// or none when git failed.
pub open spec fn config_value(r: GitReplyView) -> Option<Seq<char>> {
    match output_of(r) {
        Ok(out) => Some(trim(out)),
        Err(_) => None,
    }
}

/// A value without surrounding whitespace is read back as it was set: when
/// git answers `git config --get <key>` with the value that
/// `git config <key> <value>` stored (followed by a newline, as git prints
/// it), the value read is that value. Reading never fails: a failing git
/// gives none.
pub proof fn lemma_config_read_back(value: Seq<char>, m: Seq<char>)
    requires
        value.len() == 0 || (!is_ws(value[0]) && !is_ws(value.last())),
    ensures
        config_value(GitReplyView::Success(value + seq!['\n'])) == Some(value),
        config_value(GitReplyView::Failure(m)) is None,
        config_value(GitReplyView::NotRun(m)) is None,
{
    let s = value + seq!['\n'];
    assert(is_ws('\n')) by {
        assert(('\n' as u32) == 10);
    }
    if value.len() == 0 {
        crate::text::lemma_trim_start_at(s, 1);
        assert(s.subrange(1, s.len() as int) =~= Seq::<char>::empty());
        crate::text::lemma_trim_end_at(Seq::<char>::empty(), 0);
        assert(Seq::<char>::empty().subrange(0, 0) =~= value);
    } else {
        assert(s[0] == value[0]);
        crate::text::lemma_trim_start_at(s, 0);
        assert(s.subrange(0, s.len() as int) =~= s);
        assert(s[value.len() - 1] == value.last());
        crate::text::lemma_trim_end_at(s, value.len() as int);
        assert(s.subrange(0, value.len() as int) =~= value);
    }
}

} // verus!
