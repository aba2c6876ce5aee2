//! Git queries. Running `git` is the caller's part: every query here is a
//! step function that, given the replies to the commands it asked for so far,
//! names the next command to run or gives its result.
use vstd::prelude::*;

pub mod branch;
pub mod branch_info;
pub mod config;
pub mod line_diff;
pub mod main_relationship;
pub mod operations;
pub mod repo;
pub mod status;

pub mod worktree;

verus! {

/// How the caller is to run a command and report on it.
#[derive(Clone, Copy, Debug, PartialEq, Eq, Structural)]
pub enum GitMode {
    /// Capture standard output; a non-zero exit is an error.
    Output,
    /// Only the exit status matters; output is discarded.
    Check,
    /// Capture standard output whatever the exit status, bytes that are not
    /// UTF-8 replaced; only a failure to start git is an error.
    AnyStatus,
}

/// A `git -C <dir> <args..>` invocation; an empty `dir` leaves the current
/// directory as it is (as `git -C ""` does).
pub struct GitCall {
    pub dir: String,
    pub args: Vec<String>,
    pub mode: GitMode,
}

pub struct GitCallView {
    pub dir: Seq<char>,
    pub args: Seq<Seq<char>>,
    pub mode: GitMode,
}

impl View for GitCall {
    type V = GitCallView;

    open spec fn view(&self) -> GitCallView {
        GitCallView { dir: self.dir@, args: self.args@.map_values(|a: String| a@), mode: self.mode }
    }
}

/// What came of running a command.
pub enum GitReply {
    /// Exit status 0; the standard output, as UTF-8 text.
    Success(String),
    /// git ran and failed (non-zero exit, or output that is not UTF-8); the
    /// message that describes the failure.
    Failure(String),
    /// git could not be started at all; the message that describes why.
    NotRun(String),
}

pub enum GitReplyView {
    Success(Seq<char>),
    Failure(Seq<char>),
    NotRun(Seq<char>),
}

impl View for GitReply {
    type V = GitReplyView;

    open spec fn view(&self) -> GitReplyView {
        match self {
            GitReply::Success(s) => GitReplyView::Success(s@),
            GitReply::Failure(s) => GitReplyView::Failure(s@),
            GitReply::NotRun(s) => GitReplyView::NotRun(s@),
        }
    }
}

/// The views of a sequence of replies.
pub open spec fn reply_views(r: Seq<GitReply>) -> Seq<GitReplyView> {
    r.map_values(|x: GitReply| x@)
}

/// Next thing a query wants: a command run, or it is done with a value.
pub enum GitStep<T> {
    Run(GitCall),
    Done(T),
}

/// The outcome of a captured run as `Result`: the output, or the message.
pub open spec fn output_of(r: GitReplyView) -> Result<Seq<char>, Seq<char>> {
    match r {
        GitReplyView::Success(s) => Ok(s),
        GitReplyView::Failure(m) => Err(m),
        GitReplyView::NotRun(m) => Err(m),
    }
}

/// The outcome of a status-only run: whether git exited 0, or the message
/// when it could not run.
pub open spec fn check_of(r: GitReplyView) -> Result<bool, Seq<char>> {
    match r {
        GitReplyView::Success(_) => Ok(true),
        GitReplyView::Failure(_) => Ok(false),
        GitReplyView::NotRun(m) => Err(m),
    }
}

pub open spec fn call_view(dir: Seq<char>, args: Seq<Seq<char>>, mode: GitMode) -> GitCallView {
    GitCallView { dir, args, mode }
}

/// Build a call from a directory and literal arguments.
pub fn make_call(dir: &str, args: Vec<String>, mode: GitMode) -> (r: GitCall)
    ensures
        r@ == call_view(dir@, arg_views(args@), mode),
{
    GitCall { dir: dir.to_string(), args, mode }
}

/// A planned step, seen as values: a command to run, or the value given.
pub enum StepSpec<V> {
    Run(GitCallView),
    Done(V),
}

pub open spec fn arg_views(v: Seq<String>) -> Seq<Seq<char>> {
    v.map_values(|a: String| a@)
}

pub fn args1(a: &str) -> (r: Vec<String>)
    ensures
        arg_views(r@) == seq![a@],
{
    let mut v: Vec<String> = Vec::new();
    v.push(a.to_string());
    assert(arg_views(v@) =~= seq![a@]);
    v
}

pub fn args5(a: &str, b: &str, c: &str, d: &str, e: &str) -> (r: Vec<String>)
    ensures
        arg_views(r@) == seq![a@, b@, c@, d@, e@],
{
    let mut v = args4(a, b, c, d);
    let ghost before = arg_views(v@);
    v.push(e.to_string());
    assert(arg_views(v@) =~= before.push(e@));
    v
}

pub fn args2(a: &str, b: &str) -> (r: Vec<String>)
    ensures
        arg_views(r@) == seq![a@, b@],
{
    let mut v: Vec<String> = Vec::new();
    v.push(a.to_string());
    v.push(b.to_string());
    assert(arg_views(v@) =~= seq![a@, b@]);
    v
}

pub fn args3(a: &str, b: &str, c: &str) -> (r: Vec<String>)
    ensures
        arg_views(r@) == seq![a@, b@, c@],
{
    let mut v: Vec<String> = Vec::new();
    v.push(a.to_string());
    v.push(b.to_string());
    v.push(c.to_string());
    assert(arg_views(v@) =~= seq![a@, b@, c@]);
    v
}

pub fn args4(a: &str, b: &str, c: &str, d: &str) -> (r: Vec<String>)
    ensures
        arg_views(r@) == seq![a@, b@, c@, d@],
{
    let mut v: Vec<String> = Vec::new();
    v.push(a.to_string());
    v.push(b.to_string());
    v.push(c.to_string());
    v.push(d.to_string());
    assert(arg_views(v@) =~= seq![a@, b@, c@, d@]);
    v
}

/// The error message of a failed captured run, as a `String`.
pub fn reply_message(r: &GitReply) -> (m: String)
    ensures
        match output_of(r@) {
            Err(msg) => m@ == msg,
            Ok(_) => m@ == Seq::<char>::empty(),
        },
{
    match r {
        GitReply::Success(_) => String::new(),
        GitReply::Failure(m) => m.clone(),
        GitReply::NotRun(m) => m.clone(),
    }
}

/// The trimmed output of a successful run; `None` when it failed.
pub fn trimmed_output(r: &GitReply) -> (t: Option<Vec<char>>)
    ensures
        match output_of(r@) {
            Ok(o) => t is Some && t->Some_0@ == crate::text::trim(o),
            Err(_) => t is None,
        },
{
    match r {
        GitReply::Success(out) => Some(crate::text::trim_chars(&crate::text::chars_of(out.as_str()))),
        _ => None,
    }
}

} // verus!
