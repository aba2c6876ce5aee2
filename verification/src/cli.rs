//! The command line: a global `--verbose` flag and one subcommand with its
//! flags, options and positional arguments. Arguments are read left to
//! right by a small state machine; the first problem found is the error.
use vstd::prelude::*;

use crate::text::{chars_eq, chars_of, next_index, next_index_exec, opt_view, slice_vec, string_of};

verus! {

/// The parsed command line.
pub struct Cli {
    /// Show raw git errors.
    pub verbose: bool,
    pub command: Commands,
}

#[derive(Debug, PartialEq)]
pub enum Commands {
    List { short: bool, json: bool, no_path: bool, no_color: bool },
    Switch { name: Option<String> },
    FixFetch,
    Version,
    Clone { url: String, dirname: Option<String>, bare_dir: Option<String> },
    Add { name: String, branch: Option<String>, from: Option<String> },
    Remove { name: String, yes: bool },
    RemoveAll { yes: bool },
    Migrate { dry_run: bool, yes: bool, bare_dir: Option<String> },
    Config { global: bool, repo: bool },
    Update,
    Pr { target: String, name: Option<String> },
    Prune { force: bool, yes: bool },
    Sync { all: bool },
    Alias,
    Init { shell: Option<String>, add: bool },
    Completions { shell: String },
    Setup { dry_run: bool, yes: bool, bare_dir: Option<String> },
}

/// Why a command line was not accepted.
#[derive(Clone, Copy, Debug, PartialEq, Eq, Structural)]
pub enum CliError {
    /// Help was asked for.
    Help,
    /// The version was asked for.
    Version,
    /// A flag or option that the command does not have.
    UnknownArgument,
    /// A first word that names no subcommand.
    InvalidSubcommand,
    /// An option without its value.
    MissingValue,
    /// A value given to a flag (`--yes=true`).
    UnexpectedValue,
    /// A flag or option given twice.
    Duplicate,
    /// More positional arguments than the command takes.
    TooManyArguments,
    /// No subcommand.
    MissingSubcommand,
    /// A required positional argument missing.
    MissingArgument,
    /// `--global` together with `--repo`.
    Conflict,
}

#[derive(Clone, Copy, Debug, PartialEq, Eq, Structural)]
pub enum Sub {
    List,
    Switch,
    FixFetch,
    Version,
    Clone,
    Add,
    Remove,
    RemoveAll,
    Migrate,
    Config,
    Update,
    Pr,
    Prune,
    Sync,
    Alias,
    Init,
    Completions,
    Setup,
}

#[derive(Clone, Copy, Debug, PartialEq, Eq, Structural)]
pub enum Flag {
    Short,
    Json,
    NoPath,
    NoColor,
    DryRun,
    Yes,
    Global,
    Repo,
    Force,
    All,
    Add,
}

#[derive(Clone, Copy, Debug, PartialEq, Eq, Structural)]
pub enum Opt {
    BareDir,
    Branch,
    From,
}

/// The subcommand a word names.
pub open spec fn sub_named(w: Seq<char>) -> Option<Sub> {
    if w == "list"@ {
        Some(Sub::List)
    } else if w == "switch"@ {
        Some(Sub::Switch)
    } else if w == "fix-fetch"@ {
        Some(Sub::FixFetch)
    } else if w == "version"@ {
        Some(Sub::Version)
    } else if w == "clone"@ {
        Some(Sub::Clone)
    } else if w == "add"@ {
        Some(Sub::Add)
    } else if w == "remove"@ {
        Some(Sub::Remove)
    } else if w == "remove-all"@ {
        Some(Sub::RemoveAll)
    } else if w == "migrate"@ {
        Some(Sub::Migrate)
    } else if w == "config"@ {
        Some(Sub::Config)
    } else if w == "update"@ {
        Some(Sub::Update)
    } else if w == "pr"@ {
        Some(Sub::Pr)
    } else if w == "prune"@ {
        Some(Sub::Prune)
    } else if w == "sync"@ {
        Some(Sub::Sync)
    } else if w == "alias"@ {
        Some(Sub::Alias)
    } else if w == "init"@ {
        Some(Sub::Init)
    } else if w == "completions"@ {
        Some(Sub::Completions)
    } else if w == "setup"@ {
        Some(Sub::Setup)
    } else {
        None
    }
}

/// The flag a long name gives in a subcommand.
pub open spec fn long_flag(s: Sub, n: Seq<char>) -> Option<Flag> {
    match s {
        Sub::List => if n == "short"@ {
            Some(Flag::Short)
        } else if n == "json"@ {
            Some(Flag::Json)
        } else if n == "no-path"@ {
            Some(Flag::NoPath)
        } else if n == "no-color"@ {
            Some(Flag::NoColor)
        } else {
            None
        },
        Sub::Remove | Sub::RemoveAll => if n == "yes"@ {
            Some(Flag::Yes)
        } else {
            None
        },
        Sub::Migrate | Sub::Setup => if n == "dry-run"@ {
            Some(Flag::DryRun)
        } else if n == "yes"@ {
            Some(Flag::Yes)
        } else {
            None
        },
        Sub::Config => if n == "global"@ {
            Some(Flag::Global)
        } else if n == "repo"@ {
            Some(Flag::Repo)
        } else {
            None
        },
        Sub::Prune => if n == "force"@ {
            Some(Flag::Force)
        } else if n == "yes"@ {
            Some(Flag::Yes)
        } else {
            None
        },
        Sub::Sync => if n == "all"@ {
            Some(Flag::All)
        } else {
            None
        },
        Sub::Init => if n == "add"@ {
            Some(Flag::Add)
        } else {
            None
        },
        _ => None,
    }
}

/// The option a long name gives in a subcommand.
pub open spec fn long_opt(s: Sub, n: Seq<char>) -> Option<Opt> {
    match s {
        Sub::Clone | Sub::Migrate | Sub::Setup => if n == "bare-dir"@ {
            Some(Opt::BareDir)
        } else {
            None
        },
        Sub::Add => if n == "branch"@ {
            Some(Opt::Branch)
        } else if n == "from"@ {
            Some(Opt::From)
        } else {
            None
        },
        _ => None,
    }
}

/// The flag a short letter gives: `-y` for `--yes`.
pub open spec fn short_flag(s: Sub, c: char) -> Option<Flag> {
    match s {
        Sub::Remove | Sub::RemoveAll | Sub::Migrate | Sub::Prune | Sub::Setup => if c == 'y' {
            Some(Flag::Yes)
        } else {
            None
        },
        _ => None,
    }
}

/// The option a short letter gives: `-b` for `--branch`.
pub open spec fn short_opt(s: Sub, c: char) -> Option<Opt> {
    if s == Sub::Add && c == 'b' {
        Some(Opt::Branch)
    } else {
        None
    }
}

/// How many positional arguments a subcommand requires, and takes at most.
pub open spec fn positional_range(s: Sub) -> (int, int) {
    match s {
        Sub::Switch | Sub::Init => (0, 1),
        Sub::Clone | Sub::Pr => (1, 2),
        Sub::Add | Sub::Remove | Sub::Completions => (1, 1),
        _ => (0, 0),
    }
}

/// The reading state.
pub struct ParseState {
    pub verbose: bool,
    pub sub: Option<Sub>,
    pub positionals: Seq<Seq<char>>,
    pub flags: Set<Flag>,
    pub options: Map<Opt, Seq<char>>,
    /// An option waiting for its value.
    pub pending: Option<Opt>,
    /// After `--`: everything is positional.
    pub raw: bool,
    pub error: Option<CliError>,
}

pub open spec fn start_state() -> ParseState {
    ParseState {
        verbose: false,
        sub: None,
        positionals: seq![],
        flags: Set::empty(),
        options: Map::empty(),
        pending: None,
        raw: false,
        error: None,
    }
}

pub open spec fn fail(st: ParseState, e: CliError) -> ParseState {
    ParseState { error: Some(e), ..st }
}

pub open spec fn set_flag(st: ParseState, f: Flag) -> ParseState {
    if st.flags.contains(f) {
        fail(st, CliError::Duplicate)
    } else {
        ParseState { flags: st.flags.insert(f), ..st }
    }
}

pub open spec fn set_opt(st: ParseState, o: Opt, v: Seq<char>) -> ParseState {
    if st.options.contains_key(o) {
        fail(st, CliError::Duplicate)
    } else {
        ParseState { options: st.options.insert(o, v), ..st }
    }
}

pub open spec fn set_verbose(st: ParseState) -> ParseState {
    if st.verbose {
        fail(st, CliError::Duplicate)
    } else {
        ParseState { verbose: true, ..st }
    }
}

/// A positional argument: at top level it names the subcommand.
pub open spec fn positional(st: ParseState, a: Seq<char>) -> ParseState {
    match st.sub {
        None => if a == "help"@ {
            fail(st, CliError::Help)
        } else {
            match sub_named(a) {
                Some(s) => ParseState { sub: Some(s), ..st },
                None => fail(st, CliError::InvalidSubcommand),
            }
        },
        Some(s) => if st.positionals.len() >= positional_range(s).1 {
            fail(st, CliError::TooManyArguments)
        } else {
            ParseState { positionals: st.positionals.push(a), ..st }
        },
    }
}

/// A long argument `--name` or `--name=value`.
pub open spec fn long_arg(st: ParseState, name: Seq<char>, value: Option<Seq<char>>) -> ParseState {
    if name == "help"@ {
        fail(st, CliError::Help)
    } else if name == "verbose"@ {
        if value is Some {
            fail(st, CliError::UnexpectedValue)
        } else {
            set_verbose(st)
        }
    } else {
        match st.sub {
            None => if name == "version"@ {
                fail(st, CliError::Version)
            } else {
                fail(st, CliError::UnknownArgument)
            },
            Some(s) => match long_flag(s, name) {
                Some(f) => if value is Some {
                    fail(st, CliError::UnexpectedValue)
                } else {
                    set_flag(st, f)
                },
                None => match long_opt(s, name) {
                    Some(o) => match value {
                        Some(v) => set_opt(st, o, v),
                        None => ParseState { pending: Some(o), ..st },
                    },
                    None => fail(st, CliError::UnknownArgument),
                },
            },
        }
    }
}

/// The letters of a short cluster `-abc`, from position `i` on.
pub open spec fn short_cluster(st: ParseState, c: Seq<char>, i: int) -> ParseState
    decreases c.len() - i,
{
    if i < 0 || i >= c.len() || st.error is Some || st.pending is Some {
        st
    } else {
        let ch = c[i];
        if ch == 'h' {
            fail(st, CliError::Help)
        } else {
            match st.sub {
                None => if ch == 'V' {
                    fail(st, CliError::Version)
                } else {
                    fail(st, CliError::UnknownArgument)
                },
                Some(s) => match short_flag(s, ch) {
                    Some(f) => short_cluster(set_flag(st, f), c, i + 1),
                    None => match short_opt(s, ch) {
                        Some(o) => if i + 1 < c.len() {
                            let rest = c.subrange(i + 1, c.len() as int);
                            set_opt(
                                st,
                                o,
                                if rest[0] == '=' {
                                    rest.drop_first()
                                } else {
                                    rest
                                },
                            )
                        } else {
                            ParseState { pending: Some(o), ..st }
                        },
                        None => fail(st, CliError::UnknownArgument),
                    },
                },
            }
        }
    }
}

/// Whether an argument looks like a flag (`-x` or `--x`), not a value.
pub open spec fn flag_like(a: Seq<char>) -> bool {
    a.len() >= 2 && a[0] == '-'
}

/// What one argument does.
pub open spec fn step(st: ParseState, a: Seq<char>) -> ParseState {
    if st.error is Some {
        st
    } else if st.pending is Some {
        if flag_like(a) {
            fail(st, CliError::MissingValue)
        } else {
            ParseState { pending: None, ..set_opt(st, st.pending->0, a) }
        }
    } else if st.raw || !flag_like(a) {
        positional(st, a)
    } else if a == "--"@ {
        ParseState { raw: true, ..st }
    } else if a[1] == '-' {
        let body = a.subrange(2, a.len() as int);
        let e = next_index(body, '=', 0);
        if e < body.len() {
            long_arg(st, body.subrange(0, e), Some(body.subrange(e + 1, body.len() as int)))
        } else {
            long_arg(st, body, None)
        }
    } else {
        short_cluster(st, a, 1)
    }
}

pub open spec fn read_args(args: Seq<Seq<char>>) -> ParseState
    decreases args.len(),
{
    if args.len() == 0 {
        start_state()
    } else {
        step(read_args(args.drop_last()), args.last())
    }
}

/// The views of a parsed command.
pub enum CommandsView {
    List { short: bool, json: bool, no_path: bool, no_color: bool },
    Switch { name: Option<Seq<char>> },
    FixFetch,
    Version,
    Clone { url: Seq<char>, dirname: Option<Seq<char>>, bare_dir: Option<Seq<char>> },
    Add { name: Seq<char>, branch: Option<Seq<char>>, from: Option<Seq<char>> },
    Remove { name: Seq<char>, yes: bool },
    RemoveAll { yes: bool },
    Migrate { dry_run: bool, yes: bool, bare_dir: Option<Seq<char>> },
    Config { global: bool, repo: bool },
    Update,
    Pr { target: Seq<char>, name: Option<Seq<char>> },
    Prune { force: bool, yes: bool },
    Sync { all: bool },
    Alias,
    Init { shell: Option<Seq<char>>, add: bool },
    Completions { shell: Seq<char> },
    Setup { dry_run: bool, yes: bool, bare_dir: Option<Seq<char>> },
}

pub open spec fn commands_view(c: Commands) -> CommandsView {
    match c {
        Commands::List { short, json, no_path, no_color } => CommandsView::List { short, json, no_path, no_color },
        Commands::Switch { name } => CommandsView::Switch { name: opt_view(name) },
        Commands::FixFetch => CommandsView::FixFetch,
        Commands::Version => CommandsView::Version,
        Commands::Clone { url, dirname, bare_dir } => CommandsView::Clone {
            url: url@,
            dirname: opt_view(dirname),
            bare_dir: opt_view(bare_dir),
        },
        Commands::Add { name, branch, from } => CommandsView::Add {
            name: name@,
            branch: opt_view(branch),
            from: opt_view(from),
        },
        Commands::Remove { name, yes } => CommandsView::Remove { name: name@, yes },
        Commands::RemoveAll { yes } => CommandsView::RemoveAll { yes },
        Commands::Migrate { dry_run, yes, bare_dir } => CommandsView::Migrate {
            dry_run,
            yes,
            bare_dir: opt_view(bare_dir),
        },
        Commands::Config { global, repo } => CommandsView::Config { global, repo },
        Commands::Update => CommandsView::Update,
        Commands::Pr { target, name } => CommandsView::Pr { target: target@, name: opt_view(name) },
        Commands::Prune { force, yes } => CommandsView::Prune { force, yes },
        Commands::Sync { all } => CommandsView::Sync { all },
        Commands::Alias => CommandsView::Alias,
        Commands::Init { shell, add } => CommandsView::Init { shell: opt_view(shell), add },
        Commands::Completions { shell } => CommandsView::Completions { shell: shell@ },
        Commands::Setup { dry_run, yes, bare_dir } => CommandsView::Setup {
            dry_run,
            yes,
            bare_dir: opt_view(bare_dir),
        },
    }
}

pub open spec fn nth_opt(s: Seq<Seq<char>>, i: int) -> Option<Seq<char>> {
    if 0 <= i < s.len() {
        Some(s[i])
    } else {
        None
    }
}

pub open spec fn opt_value(st: ParseState, o: Opt) -> Option<Seq<char>> {
    if st.options.contains_key(o) {
        Some(st.options[o])
    } else {
        None
    }
}

/// The command that a finished reading gives.
pub open spec fn command_of(s: Sub, st: ParseState) -> CommandsView {
    let p = st.positionals;
    let f = st.flags;
    match s {
        Sub::List => CommandsView::List {
            short: f.contains(Flag::Short),
            json: f.contains(Flag::Json),
            no_path: f.contains(Flag::NoPath),
            no_color: f.contains(Flag::NoColor),
        },
        Sub::Switch => CommandsView::Switch { name: nth_opt(p, 0) },
        Sub::FixFetch => CommandsView::FixFetch,
        Sub::Version => CommandsView::Version,
        Sub::Clone => CommandsView::Clone {
            url: p[0],
            dirname: nth_opt(p, 1),
            bare_dir: opt_value(st, Opt::BareDir),
        },
        Sub::Add => CommandsView::Add {
            name: p[0],
            branch: opt_value(st, Opt::Branch),
            from: opt_value(st, Opt::From),
        },
        Sub::Remove => CommandsView::Remove { name: p[0], yes: f.contains(Flag::Yes) },
        Sub::RemoveAll => CommandsView::RemoveAll { yes: f.contains(Flag::Yes) },
        Sub::Migrate => CommandsView::Migrate {
            dry_run: f.contains(Flag::DryRun),
            yes: f.contains(Flag::Yes),
            bare_dir: opt_value(st, Opt::BareDir),
        },
        Sub::Config => CommandsView::Config {
            global: f.contains(Flag::Global),
            repo: f.contains(Flag::Repo),
        },
        Sub::Update => CommandsView::Update,
        Sub::Pr => CommandsView::Pr { target: p[0], name: nth_opt(p, 1) },
        Sub::Prune => CommandsView::Prune { force: f.contains(Flag::Force), yes: f.contains(Flag::Yes) },
        Sub::Sync => CommandsView::Sync { all: f.contains(Flag::All) },
        Sub::Alias => CommandsView::Alias,
        Sub::Init => CommandsView::Init { shell: nth_opt(p, 0), add: f.contains(Flag::Add) },
        Sub::Completions => CommandsView::Completions { shell: p[0] },
        Sub::Setup => CommandsView::Setup {
            dry_run: f.contains(Flag::DryRun),
            yes: f.contains(Flag::Yes),
            bare_dir: opt_value(st, Opt::BareDir),
        },
    }
}

/// What a command line (without the program name) gives: the first error
/// found while reading; then an option still waiting for its value, a
/// missing subcommand, a missing required argument, or `--global` with
/// `--repo`; else the flag and the command.
pub open spec fn parse_args(args: Seq<Seq<char>>) -> Result<(bool, CommandsView), CliError> {
    let st = read_args(args);
    match st.error {
        Some(e) => Err(e),
        None => if st.pending is Some {
            Err(CliError::MissingValue)
        } else {
            match st.sub {
                None => Err(CliError::MissingSubcommand),
                Some(s) => if st.positionals.len() < positional_range(s).0 {
                    Err(CliError::MissingArgument)
                } else if s == Sub::Config && st.flags.contains(Flag::Global) && st.flags.contains(
                    Flag::Repo,
                ) {
                    Err(CliError::Conflict)
                } else {
                    Ok((st.verbose, command_of(s, st)))
                },
            }
        },
    }
}

pub open spec fn str_views(v: Seq<&str>) -> Seq<Seq<char>> {
    v.map_values(|s: &str| s@)
}

/// The arguments after the program name.
pub open spec fn user_args(argv: Seq<&str>) -> Seq<Seq<char>> {
    if argv.len() == 0 {
        seq![]
    } else {
        str_views(argv).drop_first()
    }
}

// ------------------------------------------------------------------
// Reading
// ------------------------------------------------------------------

fn is_word(w: &Vec<char>, lit: &str) -> (r: bool)
    ensures
        r == (w@ == lit@),
{
    chars_eq(w, &chars_of(lit))
}

fn sub_named_exec(w: &Vec<char>) -> (r: Option<Sub>)
    ensures
        r == sub_named(w@),
{
    if is_word(w, "list") {
        Some(Sub::List)
    } else if is_word(w, "switch") {
        Some(Sub::Switch)
    } else if is_word(w, "fix-fetch") {
        Some(Sub::FixFetch)
    } else if is_word(w, "version") {
        Some(Sub::Version)
    } else if is_word(w, "clone") {
        Some(Sub::Clone)
    } else if is_word(w, "add") {
        Some(Sub::Add)
    } else if is_word(w, "remove") {
        Some(Sub::Remove)
    } else if is_word(w, "remove-all") {
        Some(Sub::RemoveAll)
    } else if is_word(w, "migrate") {
        Some(Sub::Migrate)
    } else if is_word(w, "config") {
        Some(Sub::Config)
    } else if is_word(w, "update") {
        Some(Sub::Update)
    } else if is_word(w, "pr") {
        Some(Sub::Pr)
    } else if is_word(w, "prune") {
        Some(Sub::Prune)
    } else if is_word(w, "sync") {
        Some(Sub::Sync)
    } else if is_word(w, "alias") {
        Some(Sub::Alias)
    } else if is_word(w, "init") {
        Some(Sub::Init)
    } else if is_word(w, "completions") {
        Some(Sub::Completions)
    } else if is_word(w, "setup") {
        Some(Sub::Setup)
    } else {
        None
    }
}

fn long_flag_exec(s: Sub, n: &Vec<char>) -> (r: Option<Flag>)
    ensures
        r == long_flag(s, n@),
{
    match s {
        Sub::List => if is_word(n, "short") {
            Some(Flag::Short)
        } else if is_word(n, "json") {
            Some(Flag::Json)
        } else if is_word(n, "no-path") {
            Some(Flag::NoPath)
        } else if is_word(n, "no-color") {
            Some(Flag::NoColor)
        } else {
            None
        },
        Sub::Remove | Sub::RemoveAll => if is_word(n, "yes") {
            Some(Flag::Yes)
        } else {
            None
        },
        Sub::Migrate | Sub::Setup => if is_word(n, "dry-run") {
            Some(Flag::DryRun)
        } else if is_word(n, "yes") {
            Some(Flag::Yes)
        } else {
            None
        },
        Sub::Config => if is_word(n, "global") {
            Some(Flag::Global)
        } else if is_word(n, "repo") {
            Some(Flag::Repo)
        } else {
            None
        },
        Sub::Prune => if is_word(n, "force") {
            Some(Flag::Force)
        } else if is_word(n, "yes") {
            Some(Flag::Yes)
        } else {
            None
        },
        Sub::Sync => if is_word(n, "all") {
            Some(Flag::All)
        } else {
            None
        },
        Sub::Init => if is_word(n, "add") {
            Some(Flag::Add)
        } else {
            None
        },
        _ => None,
    }
}

fn long_opt_exec(s: Sub, n: &Vec<char>) -> (r: Option<Opt>)
    ensures
        r == long_opt(s, n@),
{
    match s {
        Sub::Clone | Sub::Migrate | Sub::Setup => if is_word(n, "bare-dir") {
            Some(Opt::BareDir)
        } else {
            None
        },
        Sub::Add => if is_word(n, "branch") {
            Some(Opt::Branch)
        } else if is_word(n, "from") {
            Some(Opt::From)
        } else {
            None
        },
        _ => None,
    }
}

fn short_flag_exec(s: Sub, c: char) -> (r: Option<Flag>)
    ensures
        r == short_flag(s, c),
{
    match s {
        Sub::Remove | Sub::RemoveAll | Sub::Migrate | Sub::Prune | Sub::Setup => if c == 'y' {
            Some(Flag::Yes)
        } else {
            None
        },
        _ => None,
    }
}

fn short_opt_exec(s: Sub, c: char) -> (r: Option<Opt>)
    ensures
        r == short_opt(s, c),
{
    if s == Sub::Add && c == 'b' {
        Some(Opt::Branch)
    } else {
        None
    }
}

fn positional_range_exec(s: Sub) -> (r: (usize, usize))
    ensures
        r.0 == positional_range(s).0 && r.1 == positional_range(s).1,
{
    match s {
        Sub::Switch | Sub::Init => (0, 1),
        Sub::Clone | Sub::Pr => (1, 2),
        Sub::Add | Sub::Remove | Sub::Completions => (1, 1),
        _ => (0, 0),
    }
}

pub open spec fn flag_set(v: Seq<Flag>) -> Set<Flag> {
    Set::new(|f: Flag| v.contains(f))
}

pub open spec fn opt_map(bare_dir: Option<Vec<char>>, branch: Option<Vec<char>>, from: Option<Vec<char>>) -> Map<Opt, Seq<char>> {
    Map::new(
        |o: Opt| match o {
            Opt::BareDir => bare_dir is Some,
            Opt::Branch => branch is Some,
            Opt::From => from is Some,
        },
        |o: Opt| match o {
            Opt::BareDir => bare_dir->0@,
            Opt::Branch => branch->0@,
            Opt::From => from->0@,
        },
    )
}

struct Reader {
    verbose: bool,
    sub: Option<Sub>,
    positionals: Vec<Vec<char>>,
    flags: Vec<Flag>,
    bare_dir: Option<Vec<char>>,
    branch: Option<Vec<char>>,
    from: Option<Vec<char>>,
    pending: Option<Opt>,
    raw: bool,
    error: Option<CliError>,
}

impl Reader {
    spec fn state(&self) -> ParseState {
        ParseState {
            verbose: self.verbose,
            sub: self.sub,
            positionals: crate::text::views(self.positionals@),
            flags: flag_set(self.flags@),
            options: opt_map(self.bare_dir, self.branch, self.from),
            pending: self.pending,
            raw: self.raw,
            error: self.error,
        }
    }

    fn has_flag(&self, f: Flag) -> (r: bool)
        ensures
            r == self.state().flags.contains(f),
    {
        let mut i: usize = 0;
        while i < self.flags.len()
            invariant
                i <= self.flags@.len(),
                forall|k: int| 0 <= k < i ==> self.flags@[k] != f,
            decreases self.flags.len() - i,
        {
            if self.flags[i] == f {
                assert(self.flags@.contains(f));
                return true;
            }
            i = i + 1;
        }
        false
    }

    fn set_flag(&mut self, f: Flag)
        ensures
            final(self).state() == set_flag(old(self).state(), f),
    {
        if self.has_flag(f) {
            self.error = Some(CliError::Duplicate);
        } else {
            let ghost before = self.flags@;
            self.flags.push(f);
            proof {
                assert forall|g: Flag| #[trigger] flag_set(self.flags@).contains(g) == flag_set(
                    before,
                ).insert(f).contains(g) by {
                    if g != f {
                        if self.flags@.contains(g) {
                            let k = choose|k: int| 0 <= k < self.flags@.len() && self.flags@[k] == g;
                            assert(before[k] == g);
                        }
                        if before.contains(g) {
                            let k = choose|k: int| 0 <= k < before.len() && before[k] == g;
                            assert(self.flags@[k] == g);
                        }
                    } else {
                        assert(self.flags@[before.len() as int] == f);
                    }
                }
                assert(flag_set(self.flags@) =~= flag_set(before).insert(f));
            }
        }
    }

    fn set_opt(&mut self, o: Opt, v: Vec<char>)
        ensures
            final(self).state() == set_opt(old(self).state(), o, v@),
    {
        let present = match o {
            Opt::BareDir => self.bare_dir.is_some(),
            Opt::Branch => self.branch.is_some(),
            Opt::From => self.from.is_some(),
        };
        if present {
            self.error = Some(CliError::Duplicate);
        } else {
            let ghost before = self.state().options;
            match o {
                Opt::BareDir => {
                    self.bare_dir = Some(v);
                },
                Opt::Branch => {
                    self.branch = Some(v);
                },
                Opt::From => {
                    self.from = Some(v);
                },
            }
            assert(self.state().options =~= before.insert(o, v@));
        }
    }

    fn set_verbose(&mut self)
        ensures
            final(self).state() == set_verbose(old(self).state()),
    {
        if self.verbose {
            self.error = Some(CliError::Duplicate);
        } else {
            self.verbose = true;
        }
    }

    fn positional(&mut self, a: &Vec<char>)
        ensures
            final(self).state() == positional(old(self).state(), a@),
    {
        match self.sub {
            None => {
                if is_word(a, "help") {
                    self.error = Some(CliError::Help);
                } else {
                    match sub_named_exec(a) {
                        Some(s) => {
                            self.sub = Some(s);
                        },
                        None => {
                            self.error = Some(CliError::InvalidSubcommand);
                        },
                    }
                }
            },
            Some(s) => {
                let (_, most) = positional_range_exec(s);
                if self.positionals.len() >= most {
                    self.error = Some(CliError::TooManyArguments);
                } else {
                    let ghost before = crate::text::views(self.positionals@);
                    self.positionals.push(crate::text::copy_chars(a));
                    assert(crate::text::views(self.positionals@) =~= before.push(a@));
                }
            },
        }
    }

    fn long_arg(&mut self, name: &Vec<char>, value: Option<Vec<char>>)
        ensures
            final(self).state() == long_arg(old(self).state(), name@, crate::text::opt_chars(value)),
    {
        if is_word(name, "help") {
            self.error = Some(CliError::Help);
        } else if is_word(name, "verbose") {
            if value.is_some() {
                self.error = Some(CliError::UnexpectedValue);
            } else {
                self.set_verbose();
            }
        } else {
            match self.sub {
                None => {
                    if is_word(name, "version") {
                        self.error = Some(CliError::Version);
                    } else {
                        self.error = Some(CliError::UnknownArgument);
                    }
                },
                Some(s) => match long_flag_exec(s, name) {
                    Some(f) => {
                        if value.is_some() {
                            self.error = Some(CliError::UnexpectedValue);
                        } else {
                            self.set_flag(f);
                        }
                    },
                    None => match long_opt_exec(s, name) {
                        Some(o) => match value {
                            Some(v) => {
                                self.set_opt(o, v);
                            },
                            None => {
                                self.pending = Some(o);
                            },
                        },
                        None => {
                            self.error = Some(CliError::UnknownArgument);
                        },
                    },
                },
            }
        }
    }

    fn short_cluster(&mut self, c: &Vec<char>)
        requires
            c@.len() >= 1,
        ensures
            final(self).state() == short_cluster(old(self).state(), c@, 1),
    {
        let mut i: usize = 1;
        let ghost target = short_cluster(self.state(), c@, 1);
        while i < c.len()
            invariant
                1 <= i <= c@.len(),
                short_cluster(self.state(), c@, i as int) == target,
                target == short_cluster(old(self).state(), c@, 1),
            decreases c.len() - i,
        {
            if self.error.is_some() || self.pending.is_some() {
                return;
            }
            let ch = c[i];
            if ch == 'h' {
                self.error = Some(CliError::Help);
                return;
            }
            match self.sub {
                None => {
                    if ch == 'V' {
                        self.error = Some(CliError::Version);
                    } else {
                        self.error = Some(CliError::UnknownArgument);
                    }
                    return;
                },
                Some(s) => match short_flag_exec(s, ch) {
                    Some(f) => {
                        self.set_flag(f);
                    },
                    None => match short_opt_exec(s, ch) {
                        Some(o) => {
                            if i + 1 < c.len() {
                                let rest = slice_vec(c, i + 1, c.len());
                                let v = if rest[0] == '=' {
                                    assert(rest@.subrange(1, rest@.len() as int) =~= rest@.drop_first());
                                    slice_vec(&rest, 1, rest.len())
                                } else {
                                    rest
                                };
                                self.set_opt(o, v);
                            } else {
                                self.pending = Some(o);
                            }
                            return;
                        },
                        None => {
                            self.error = Some(CliError::UnknownArgument);
                            return;
                        },
                    },
                },
            }
            i = i + 1;
        }
    }

    fn step(&mut self, a: &Vec<char>)
        ensures
            final(self).state() == step(old(self).state(), a@),
    {
        if self.error.is_some() {
            return;
        }
        let flagish = a.len() >= 2 && a[0] == '-';
        match self.pending {
            Some(o) => {
                if flagish {
                    self.error = Some(CliError::MissingValue);
                } else {
                    self.set_opt(o, crate::text::copy_chars(a));
                    self.pending = None;
                }
                return;
            },
            None => {},
        }
        if self.raw || !flagish {
            self.positional(a);
        } else if is_word(a, "--") {
            self.raw = true;
        } else if a[1] == '-' {
            let body = slice_vec(a, 2, a.len());
            let e = next_index_exec(&body, '=', 0);
            if e < body.len() {
                let name = slice_vec(&body, 0, e);
                let value = slice_vec(&body, e + 1, body.len());
                self.long_arg(&name, Some(value));
            } else {
                self.long_arg(&body, None);
            }
        } else {
            self.short_cluster(a);
        }
    }
}

fn opt_string(o: &Option<Vec<char>>) -> (r: Option<String>)
    ensures
        opt_view(r) == crate::text::opt_chars(*o),
{
    match o {
        Some(v) => Some(string_of(v)),
        None => None,
    }
}

fn nth_string(v: &Vec<Vec<char>>, i: usize) -> (r: Option<String>)
    ensures
        opt_view(r) == nth_opt(crate::text::views(v@), i as int),
{
    if i < v.len() {
        Some(string_of(&v[i]))
    } else {
        None
    }
}

impl Cli {
    /// Read a command line; the first word is the program's name.
    pub fn try_parse_from(argv: &[&str]) -> (r: Result<Cli, CliError>)
        ensures
            match (r, parse_args(user_args(argv@))) {
                (Ok(cli), Ok((v, c))) => cli.verbose == v && commands_view(cli.command) == c,
                (Err(e), Err(e2)) => e == e2,
                _ => false,
            },
    {
        let mut rd = Reader {
            verbose: false,
            sub: None,
            positionals: Vec::new(),
            flags: Vec::new(),
            bare_dir: None,
            branch: None,
            from: None,
            pending: None,
            raw: false,
            error: None,
        };
        let ghost args = user_args(argv@);
        proof {
            assert(crate::text::views(rd.positionals@) =~= Seq::<Seq<char>>::empty());
            assert(flag_set(rd.flags@) =~= Set::<Flag>::empty());
            assert(opt_map(rd.bare_dir, rd.branch, rd.from) =~= Map::<Opt, Seq<char>>::empty());
            assert(args.take(0) =~= Seq::<Seq<char>>::empty());
        }
        let mut i: usize = 1;
        if argv.len() == 0 {
            i = 0;
        }
        while i < argv.len()
            invariant
                i <= argv@.len(),
                argv@.len() > 0 ==> 1 <= i,
                args == user_args(argv@),
                argv@.len() > 0 ==> rd.state() == read_args(args.take(i - 1)),
                argv@.len() == 0 ==> rd.state() == start_state(),
            decreases argv.len() - i,
        {
            let a = chars_of(argv[i]);
            proof {
                assert(args.take(i as int).drop_last() =~= args.take(i - 1));
                assert(args.take(i as int).last() == argv@[i as int]@);
            }
            rd.step(&a);
            i = i + 1;
        }
        proof {
            if argv@.len() > 0 {
                assert(args.take(i - 1) =~= args);
            } else {
                assert(args == Seq::<Seq<char>>::empty());
            }
        }
        match rd.error {
            Some(e) => {
                return Err(e);
            },
            None => {},
        }
        if rd.pending.is_some() {
            return Err(CliError::MissingValue);
        }
        let s = match rd.sub {
            Some(s) => s,
            None => {
                return Err(CliError::MissingSubcommand);
            },
        };
        let (least, _) = positional_range_exec(s);
        if rd.positionals.len() < least {
            return Err(CliError::MissingArgument);
        }
        if s == Sub::Config && rd.has_flag(Flag::Global) && rd.has_flag(Flag::Repo) {
            return Err(CliError::Conflict);
        }
        let p = &rd.positionals;
        let ghost pv = crate::text::views(p@);
        let command = match s {
            Sub::List => Commands::List {
                short: rd.has_flag(Flag::Short),
                json: rd.has_flag(Flag::Json),
                no_path: rd.has_flag(Flag::NoPath),
                no_color: rd.has_flag(Flag::NoColor),
            },
            Sub::Switch => Commands::Switch { name: nth_string(p, 0) },
            Sub::FixFetch => Commands::FixFetch,
            Sub::Version => Commands::Version,
            Sub::Clone => Commands::Clone {
                url: string_of(&p[0]),
                dirname: nth_string(p, 1),
                bare_dir: opt_string(&rd.bare_dir),
            },
            Sub::Add => Commands::Add {
                name: string_of(&p[0]),
                branch: opt_string(&rd.branch),
                from: opt_string(&rd.from),
            },
            Sub::Remove => Commands::Remove { name: string_of(&p[0]), yes: rd.has_flag(Flag::Yes) },
            Sub::RemoveAll => Commands::RemoveAll { yes: rd.has_flag(Flag::Yes) },
            Sub::Migrate => Commands::Migrate {
                dry_run: rd.has_flag(Flag::DryRun),
                yes: rd.has_flag(Flag::Yes),
                bare_dir: opt_string(&rd.bare_dir),
            },
            Sub::Config => Commands::Config { global: rd.has_flag(Flag::Global), repo: rd.has_flag(Flag::Repo) },
            Sub::Update => Commands::Update,
            Sub::Pr => Commands::Pr { target: string_of(&p[0]), name: nth_string(p, 1) },
            Sub::Prune => Commands::Prune { force: rd.has_flag(Flag::Force), yes: rd.has_flag(Flag::Yes) },
            Sub::Sync => Commands::Sync { all: rd.has_flag(Flag::All) },
            Sub::Alias => Commands::Alias,
            Sub::Init => Commands::Init { shell: nth_string(p, 0), add: rd.has_flag(Flag::Add) },
            Sub::Completions => Commands::Completions { shell: string_of(&p[0]) },
            Sub::Setup => Commands::Setup {
                dry_run: rd.has_flag(Flag::DryRun),
                yes: rd.has_flag(Flag::Yes),
                bare_dir: opt_string(&rd.bare_dir),
            },
        };
        proof {
            if p@.len() > 0 {
                assert(pv[0] == p@[0]@);
            }
        }
        Ok(Cli { verbose: rd.verbose, command })
    }

    /// Read a command line that is known to be well formed.
    pub fn parse_from(argv: &[&str]) -> (r: Cli)
        requires
            parse_args(user_args(argv@)) is Ok,
        ensures
            match parse_args(user_args(argv@)) {
                Ok((v, c)) => r.verbose == v && commands_view(r.command) == c,
                Err(_) => false,
            },
    {
        match Cli::try_parse_from(argv) {
            Ok(cli) => cli,
            Err(_) => {
                proof {
                    assert(false);
                }
                Cli { verbose: false, command: Commands::Version }
            },
        }
    }
}

} // verus!
