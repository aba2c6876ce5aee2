//! Commands as programs of effects. A command does not run git, touch the
//! file system or print by itself: given the outcomes of the effects it has
//! asked for so far, it names the next effect, until it finishes. Its
//! contract is a program (`Prog`): an effect and, for each outcome, the
//! program that follows.
use vstd::prelude::*;

use crate::git::operations::{fs_reply_view, query_view, FsQuery, FsQueryView, FsReply, FsReplyView};
use crate::git::{GitCall, GitCallView, GitReply, GitReplyView};
use crate::commands::list::collect::{info_views, WorktreeInfo, WorktreeInfoView};
use crate::commands::list::display::{lines_view, StyledView, Styled};
use crate::config::schema::{GlobalConfig, GlobalConfigView};
use crate::output::Status;

verus! {

/// How a message is shown.
#[derive(Clone, Copy, Debug, PartialEq, Eq, Structural)]
pub enum Level {
    /// `=== text ===`
    Header,
    Info,
    Success,
    Warning,
    /// An empty line.
    Blank,
    /// The text as it is, on standard output.
    Plain,
}

/// Something a command asks its caller to do.
pub enum Effect {
    /// Run git; the outcome is its reply.
    Git(GitCall),
    /// Run the `gh` tool with these arguments, capturing its output; the
    /// outcome is its reply (as for git).
    Gh(Vec<String>),
    /// Ask about the file system; the outcome is the answer.
    Fs(FsQuery),
    /// Create a directory and its parents; the outcome says whether that
    /// worked.
    CreateDirAll(String),
    /// Show a message.
    Say(Level, String),
    /// Make sure the repository's `.gitignore` lists the worktree folder.
    EnsureGitignore(String),
    /// Offer to go to (or go to, when configured) a directory.
    Navigate(String),
    /// Ask for confirmation (skipped, as yes, when `assume_yes`); the
    /// outcome is the answer.
    Confirm { message: String, assume_yes: bool },
    /// Start a progress line (`text...`).
    Progress(String),
    /// Complete the progress line with a status symbol and text.
    ProgressDone(Status, String),
    /// Make this directory the current one (whatever comes of it).
    EnterDir(String),
    /// Rename (move) a file or directory; the outcome says whether that
    /// worked.
    Rename { from: String, to: String },
    /// Remove an empty directory (whatever comes of it).
    RemoveDir(String),
    /// Remove a directory and all it holds; the outcome says whether that
    /// worked.
    RemoveDirAll(String),
    /// Show these lines, in colour unless `no_color`.
    ShowLines { lines: Vec<Vec<Styled>>, no_color: bool },
    /// Show the records of these worktrees as JSON.
    ShowJson(Vec<WorktreeInfo>),
    /// List the entries of a directory; the outcome gives their paths
    /// (none when the directory cannot be read).
    ListDir(String),
    /// The paths that a glob pattern matches, in the order the `glob` crate
    /// yields them (those it cannot read left out; none for an invalid
    /// pattern).
    Glob(String),
    /// The repository was found here (`bare`: it is a bare repository).
    RepoFound { path: String, bare: bool },
    /// Append an empty line and then `line` (each ended by a newline) to a
    /// file, creating it if needed; the outcome says whether that worked.
    AppendLine { path: String, line: String },
    /// Write the global configuration to a file as JSON, creating its
    /// directory; the outcome says whether that worked.
    WriteGlobalConfig { path: String, config: GlobalConfig },
    /// Copy a file; the outcome says whether that worked.
    CopyFile { from: String, to: String },
    /// Remove a file (whatever comes of it).
    RemoveFile(String),
    /// The command is over, with this result.
    Finish(Result<(), String>),
}

pub enum EffectView {
    Git(GitCallView),
    Gh(Seq<Seq<char>>),
    Fs(FsQueryView),
    CreateDirAll(Seq<char>),
    Say(Level, Seq<char>),
    EnsureGitignore(Seq<char>),
    Navigate(Seq<char>),
    Confirm { message: Seq<char>, assume_yes: bool },
    Progress(Seq<char>),
    ProgressDone(Status, Seq<char>),
    EnterDir(Seq<char>),
    Rename { from: Seq<char>, to: Seq<char> },
    RemoveDir(Seq<char>),
    RemoveDirAll(Seq<char>),
    ShowLines { lines: Seq<Seq<StyledView>>, no_color: bool },
    ShowJson(Seq<WorktreeInfoView>),
    ListDir(Seq<char>),
    Glob(Seq<char>),
    RepoFound { path: Seq<char>, bare: bool },
    AppendLine { path: Seq<char>, line: Seq<char> },
    WriteGlobalConfig { path: Seq<char>, config: GlobalConfigView },
    CopyFile { from: Seq<char>, to: Seq<char> },
    RemoveFile(Seq<char>),
    Finish(Result<(), Seq<char>>),
}

pub open spec fn strings_view(v: Seq<String>) -> Seq<Seq<char>> {
    v.map_values(|s: String| s@)
}

pub open spec fn unit_result_view(r: Result<(), String>) -> Result<(), Seq<char>> {
    match r {
        Ok(()) => Ok(()),
        Err(e) => Err(e@),
    }
}

pub open spec fn effect_view(e: Effect) -> EffectView {
    match e {
        Effect::Git(c) => EffectView::Git(c@),
        Effect::Gh(a) => EffectView::Gh(strings_view(a@)),
        Effect::Fs(q) => EffectView::Fs(query_view(q)),
        Effect::CreateDirAll(p) => EffectView::CreateDirAll(p@),
        Effect::Say(l, t) => EffectView::Say(l, t@),
        Effect::EnsureGitignore(p) => EffectView::EnsureGitignore(p@),
        Effect::Navigate(p) => EffectView::Navigate(p@),
        Effect::Confirm { message, assume_yes } => EffectView::Confirm { message: message@, assume_yes },
        Effect::Progress(t) => EffectView::Progress(t@),
        Effect::ProgressDone(st, t) => EffectView::ProgressDone(st, t@),
        Effect::EnterDir(p) => EffectView::EnterDir(p@),
        Effect::Rename { from, to } => EffectView::Rename { from: from@, to: to@ },
        Effect::RemoveDir(p) => EffectView::RemoveDir(p@),
        Effect::RemoveDirAll(p) => EffectView::RemoveDirAll(p@),
        Effect::ShowLines { lines, no_color } => EffectView::ShowLines { lines: lines_view(lines@), no_color },
        Effect::ShowJson(infos) => EffectView::ShowJson(info_views(infos@)),
        Effect::ListDir(p) => EffectView::ListDir(p@),
        Effect::Glob(p) => EffectView::Glob(p@),
        Effect::RepoFound { path, bare } => EffectView::RepoFound { path: path@, bare },
        Effect::AppendLine { path, line } => EffectView::AppendLine { path: path@, line: line@ },
        Effect::WriteGlobalConfig { path, config } => EffectView::WriteGlobalConfig { path: path@, config: config@ },
        Effect::CopyFile { from, to } => EffectView::CopyFile { from: from@, to: to@ },
        Effect::RemoveFile(p) => EffectView::RemoveFile(p@),
        Effect::Finish(r) => EffectView::Finish(unit_result_view(r)),
    }
}

/// What came of an effect.
pub enum Outcome {
    Git(GitReply),
    Fs(FsReply),
    Done(Result<(), String>),
    Answer(Result<bool, String>),
    /// A list of lines (file names, for instance).
    Lines(Vec<String>),
    /// Done; nothing to report.
    Ack,
}

pub enum OutcomeView {
    Git(GitReplyView),
    Fs(FsReplyView),
    Done(Result<(), Seq<char>>),
    Answer(Result<bool, Seq<char>>),
    Lines(Seq<Seq<char>>),
    Ack,
}

pub open spec fn outcome_view(o: Outcome) -> OutcomeView {
    match o {
        Outcome::Git(r) => OutcomeView::Git(r@),
        Outcome::Fs(r) => OutcomeView::Fs(fs_reply_view(r)),
        Outcome::Done(r) => OutcomeView::Done(unit_result_view(r)),
        Outcome::Answer(r) => OutcomeView::Answer(
            match r {
                Ok(b) => Ok(b),
                Err(e) => Err(e@),
            },
        ),
        Outcome::Lines(v) => OutcomeView::Lines(strings_view(v@)),
        Outcome::Ack => OutcomeView::Ack,
    }
}

pub open spec fn outcome_views(v: Seq<Outcome>) -> Seq<OutcomeView> {
    v.map_values(|o: Outcome| outcome_view(o))
}

/// The reply to a git (or gh) effect; any other outcome counts as git not
/// having run.
pub open spec fn git_reply_of(o: OutcomeView) -> GitReplyView {
    match o {
        OutcomeView::Git(r) => r,
        _ => GitReplyView::NotRun(Seq::empty()),
    }
}

/// The answer to a file-system question; any other outcome counts as a
/// failure.
pub open spec fn fs_reply_of(o: OutcomeView) -> FsReplyView {
    match o {
        OutcomeView::Fs(r) => r,
        _ => FsReplyView::Failed(Seq::empty()),
    }
}

pub open spec fn done_of(o: OutcomeView) -> Result<(), Seq<char>> {
    match o {
        OutcomeView::Done(r) => r,
        _ => Err(Seq::empty()),
    }
}

pub open spec fn answer_of(o: OutcomeView) -> Result<bool, Seq<char>> {
    match o {
        OutcomeView::Answer(r) => r,
        _ => Err(Seq::empty()),
    }
}

pub open spec fn lines_of(o: OutcomeView) -> Seq<Seq<char>> {
    match o {
        OutcomeView::Lines(v) => v,
        _ => Seq::empty(),
    }
}

/// A command's behaviour: finish, or ask for an effect and go on by its
/// outcome.
#[verifier::ext_equal]
pub enum Prog {
    Finish(Result<(), Seq<char>>),
    Do(EffectView, spec_fn(OutcomeView) -> Prog),
}

/// The effect a program asks for after the given outcomes.
pub open spec fn next_effect(p: Prog, os: Seq<OutcomeView>) -> EffectView
    decreases os.len(),
{
    match p {
        Prog::Finish(r) => EffectView::Finish(r),
        Prog::Do(e, k) => if os.len() == 0 {
            e
        } else {
            next_effect(k(os[0]), os.drop_first())
        },
    }
}

/// After one outcome, a program asks for what its continuation on that
/// outcome asks for.
pub proof fn lemma_next_effect_step(p: Prog, o: OutcomeView, rest: Seq<OutcomeView>)
    requires
        p is Do,
    ensures
        next_effect(p, seq![o] + rest) == next_effect((p->Do_1)(o), rest),
{
    let os = seq![o] + rest;
    assert(os[0] == o);
    assert(os.drop_first() =~= rest);
}

pub open spec fn say(level: Level, text: Seq<char>, then: Prog) -> Prog {
    Prog::Do(EffectView::Say(level, text), |o: OutcomeView| then)
}

pub open spec fn git(call: GitCallView, k: spec_fn(GitReplyView) -> Prog) -> Prog {
    Prog::Do(EffectView::Git(call), |o: OutcomeView| k(git_reply_of(o)))
}

/// Run `gh`; the outcome is read as a git reply.
pub open spec fn gh(args: Seq<Seq<char>>, k: spec_fn(GitReplyView) -> Prog) -> Prog {
    Prog::Do(EffectView::Gh(args), |o: OutcomeView| k(git_reply_of(o)))
}

pub open spec fn navigate(path: Seq<char>, then: Prog) -> Prog {
    Prog::Do(EffectView::Navigate(path), |o: OutcomeView| then)
}

/// Create a directory and its parents; a failure ends the command with its
/// message.
pub open spec fn create_dir_all(path: Seq<char>, then: Prog) -> Prog {
    Prog::Do(
        EffectView::CreateDirAll(path),
        |o: OutcomeView| match done_of(o) {
            Err(m) => Prog::Finish(Err(m)),
            Ok(_) => then,
        },
    )
}

/// Ask for confirmation; `k` gets the answer.
pub open spec fn confirm(message: Seq<char>, yes: bool, k: spec_fn(Result<bool, Seq<char>>) -> Prog) -> Prog {
    Prog::Do(EffectView::Confirm { message, assume_yes: yes }, |o: OutcomeView| k(answer_of(o)))
}

/// An effect whose outcome does not matter.
pub open spec fn then_do(e: EffectView, then: Prog) -> Prog {
    Prog::Do(e, |o: OutcomeView| then)
}

pub open spec fn fs(q: FsQueryView, k: spec_fn(FsReplyView) -> Prog) -> Prog {
    Prog::Do(EffectView::Fs(q), |o: OutcomeView| k(fs_reply_of(o)))
}

/// Drive a git query (a step function given as its plan) to its value:
/// each command it asks for becomes an effect, for at most `fuel` commands.
pub open spec fn drive<V>(
    plan: spec_fn(Seq<GitReplyView>) -> crate::git::StepSpec<V>,
    rs: Seq<GitReplyView>,
    fuel: nat,
    k: spec_fn(V) -> Prog,
) -> Prog
    decreases fuel,
{
    match plan(rs) {
        crate::git::StepSpec::Run(c) => if fuel == 0 {
            Prog::Finish(Err(Seq::empty()))
        } else {
            git(c, |r: GitReplyView| drive(plan, rs.push(r), (fuel - 1) as nat, k))
        },
        crate::git::StepSpec::Done(v) => k(v),
    }
}

/// Drive a file-system query (a step function given as its plan) to its
/// value: each question it asks becomes an effect, for at most `fuel`
/// questions.
pub open spec fn drive_fs<V>(
    plan: spec_fn(Seq<FsReplyView>) -> crate::git::operations::FsPlan<V>,
    rs: Seq<FsReplyView>,
    fuel: nat,
    k: spec_fn(V) -> Prog,
) -> Prog
    decreases fuel,
{
    match plan(rs) {
        crate::git::operations::FsPlan::Ask(q) => if fuel == 0 {
            Prog::Finish(Err(Seq::empty()))
        } else {
            fs(q, |a: FsReplyView| drive_fs(plan, rs.push(a), (fuel - 1) as nat, k))
        },
        crate::git::operations::FsPlan::Done(v) => k(v),
    }
}

/// A git query whose plan is done after `bound` replies never runs out of
/// an allowance that covers them: more allowance changes nothing.
pub proof fn lemma_drive_enough<V>(
    plan: spec_fn(Seq<GitReplyView>) -> crate::git::StepSpec<V>,
    rs: Seq<GitReplyView>,
    fuel: nat,
    k: spec_fn(V) -> Prog,
    bound: nat,
)
    requires
        forall|x: Seq<GitReplyView>| x.len() >= bound ==> #[trigger] plan(x) is Done,
        rs.len() + fuel >= bound,
    ensures
        drive(plan, rs, fuel, k) == drive(plan, rs, fuel + 1, k),
    decreases fuel,
{
    match plan(rs) {
        crate::git::StepSpec::Run(c) => {
            assert(fuel > 0);
            let p1 = drive(plan, rs, fuel, k);
            let p2 = drive(plan, rs, fuel + 1, k);
            assert(p1 is Do && p2 is Do);
            assert forall|o: OutcomeView| #[trigger] (p1->Do_1)(o) == (p2->Do_1)(o) by {
                lemma_drive_enough(plan, rs.push(git_reply_of(o)), (fuel - 1) as nat, k, bound);
            }
            assert(p1->Do_1 =~= p2->Do_1);
            assert(p1->Do_0 == p2->Do_0);
        },
        crate::git::StepSpec::Done(v) => {},
    }
}

/// A file-system query whose plan is done after `bound` replies never runs
/// out of an allowance that covers them: more allowance changes nothing.
pub proof fn lemma_drive_fs_enough<V>(
    plan: spec_fn(Seq<FsReplyView>) -> crate::git::operations::FsPlan<V>,
    rs: Seq<FsReplyView>,
    fuel: nat,
    k: spec_fn(V) -> Prog,
    bound: nat,
)
    requires
        forall|x: Seq<FsReplyView>| x.len() >= bound ==> #[trigger] plan(x) is Done,
        rs.len() + fuel >= bound,
    ensures
        drive_fs(plan, rs, fuel, k) == drive_fs(plan, rs, fuel + 1, k),
    decreases fuel,
{
    match plan(rs) {
        crate::git::operations::FsPlan::Ask(q) => {
            assert(fuel > 0);
            let p1 = drive_fs(plan, rs, fuel, k);
            let p2 = drive_fs(plan, rs, fuel + 1, k);
            assert(p1 is Do && p2 is Do);
            assert forall|o: OutcomeView| #[trigger] (p1->Do_1)(o) == (p2->Do_1)(o) by {
                lemma_drive_fs_enough(plan, rs.push(fs_reply_of(o)), (fuel - 1) as nat, k, bound);
            }
            assert(p1->Do_1 =~= p2->Do_1);
            assert(p1->Do_0 == p2->Do_0);
        },
        crate::git::operations::FsPlan::Done(v) => {},
    }
}

/// The git reply that an outcome carries.
pub fn reply_of(o: &Outcome) -> (r: GitReply)
    ensures
        r@ == git_reply_of(outcome_view(*o)),
{
    match o {
        Outcome::Git(GitReply::Success(s)) => GitReply::Success(s.clone()),
        Outcome::Git(GitReply::Failure(s)) => GitReply::Failure(s.clone()),
        Outcome::Git(GitReply::NotRun(s)) => GitReply::NotRun(s.clone()),
        _ => GitReply::NotRun(String::new()),
    }
}

/// What an outcome says of a completed action.
pub fn done_result_of(o: &Outcome) -> (r: Result<(), String>)
    ensures
        unit_result_view(r) == done_of(outcome_view(*o)),
{
    match o {
        Outcome::Done(Ok(())) => Ok(()),
        Outcome::Done(Err(m)) => Err(m.clone()),
        _ => Err(String::new()),
    }
}

/// The answer that an outcome carries.
pub fn answer_result_of(o: &Outcome) -> (r: Result<bool, String>)
    ensures
        match (r, answer_of(outcome_view(*o))) {
            (Ok(a), Ok(b)) => a == b,
            (Err(a), Err(b)) => a@ == b,
            _ => false,
        },
{
    match o {
        Outcome::Answer(Ok(b)) => Ok(*b),
        Outcome::Answer(Err(m)) => Err(m.clone()),
        _ => Err(String::new()),
    }
}

/// The lines that an outcome carries.
pub fn lines_result_of(o: &Outcome) -> (r: Vec<String>)
    ensures
        strings_view(r@) == lines_of(outcome_view(*o)),
{
    match o {
        Outcome::Lines(v) => crate::config::schema::clone_strings(v),
        _ => Vec::new(),
    }
}

/// The file-system answer that an outcome carries.
pub fn fs_answer_of(o: &Outcome) -> (r: FsReply)
    ensures
        fs_reply_view(r) == fs_reply_of(outcome_view(*o)),
{
    match o {
        Outcome::Fs(FsReply::Yes) => FsReply::Yes,
        Outcome::Fs(FsReply::No) => FsReply::No,
        Outcome::Fs(FsReply::Text(t)) => FsReply::Text(t.clone()),
        Outcome::Fs(FsReply::Failed(m)) => FsReply::Failed(m.clone()),
        _ => FsReply::Failed(String::new()),
    }
}

/// Replays a command against the outcomes received so far.
pub struct Runner<'a> {
    pub outcomes: &'a Vec<Outcome>,
    pub pos: usize,
    /// The program from here on.
    pub prog: Ghost<Prog>,
    /// The command's whole program.
    pub whole: Ghost<Prog>,
}

impl<'a> Runner<'a> {
    pub open spec fn views(&self) -> Seq<OutcomeView> {
        outcome_views(self.outcomes@)
    }

    /// Replaying so far agrees with the whole program.
    pub open spec fn consistent(&self) -> bool {
        &&& self.pos <= self.outcomes@.len()
        &&& next_effect(self.whole@, self.views()) == next_effect(
            self.prog@,
            self.views().skip(self.pos as int),
        )
    }

    pub fn new(outcomes: &'a Vec<Outcome>, Ghost(p): Ghost<Prog>) -> (r: Self)
        ensures
            r.consistent(),
            r.outcomes == outcomes,
            r.pos == 0,
            r.prog@ == p,
            r.whole@ == p,
    {
        let r = Runner { outcomes, pos: 0, prog: Ghost(p), whole: Ghost(p) };
        assert(r.views().skip(0) =~= r.views());
        r
    }

    /// Perform the effect that the program asks for next: the index of its
    /// outcome, or, when no outcome is there yet, the effect itself.
    pub fn perform(&mut self, e: Effect) -> (r: Result<usize, Effect>)
        requires
            old(self).consistent(),
            old(self).prog@ matches Prog::Do(ev, _) && ev == effect_view(e),
        ensures
            final(self).consistent(),
            final(self).outcomes == old(self).outcomes,
            final(self).whole == old(self).whole,
            match r {
                Err(x) => effect_view(x) == effect_view(e) && next_effect(
                    old(self).whole@,
                    old(self).views(),
                ) == effect_view(e),
                Ok(i) => i == old(self).pos && i < old(self).outcomes@.len() && final(self).pos == i + 1
                    && final(self).prog@ == (old(self).prog@->Do_1)(
                    outcome_view(old(self).outcomes@[i as int]),
                ),
            },
    {
        if self.pos >= self.outcomes.len() {
            assert(self.views().skip(self.pos as int) =~= Seq::<OutcomeView>::empty());
            return Err(e);
        }
        let i = self.pos;
        proof {
            let rest = self.views().skip(i as int);
            assert(rest[0] == outcome_view(self.outcomes@[i as int]));
            assert(rest.drop_first() =~= self.views().skip(i + 1));
        }
        self.prog = Ghost((self.prog@->Do_1)(outcome_view(self.outcomes@[i as int])));
        self.pos = i + 1;
        Ok(i)
    }

    /// The command is over.
    pub fn finish(&self, r: Result<(), String>) -> (e: Effect)
        requires
            self.consistent(),
            self.prog@ == Prog::Finish(unit_result_view(r)),
        ensures
            effect_view(e) == next_effect(self.whole@, self.views()),
    {
        Effect::Finish(r)
    }
}

} // verus!
