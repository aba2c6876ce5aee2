//! Shell integration: which shell, and the text that installs the command
//! as a shell function.
use vstd::prelude::*;

use crate::commands::effects::{create_dir_all, done_of, done_result_of, effect_view, fs, fs_answer_of, next_effect, outcome_views, say, Effect, EffectView, Level, Outcome, OutcomeView, Prog, Runner};
use crate::commands::steps::say_exec;
use crate::config::Config;
use crate::git::operations::{FsQuery, FsQueryView, FsReply, FsReplyView};
use crate::paths::{join, parent, path_join, path_parent};
use crate::text::{chars_of, concat, contains, contains_exec, join4, join_str, opt_view, string_of};

verus! {

/// The shells that can be set up.
#[derive(Clone, Copy, Debug, PartialEq, Eq, Structural)]
pub enum Shell {
    PowerShell,
    Bash,
    Zsh,
    Nushell,
}

/// The environment that tells the shell in use.
pub struct ShellEnv {
    /// `PSModulePath` is set.
    pub ps_module_path: bool,
    /// `NU_VERSION` is set.
    pub nu_version: bool,
    /// The value of `SHELL`, when set.
    pub shell: Option<String>,
    /// Running on Windows.
    pub windows: bool,
}

pub open spec fn detected_shell(ps: bool, nu: bool, shell: Option<Seq<char>>, windows: bool) -> Option<Shell> {
    if ps {
        Some(Shell::PowerShell)
    } else if nu {
        Some(Shell::Nushell)
    } else if shell matches Some(s) && contains(s, "zsh"@) {
        Some(Shell::Zsh)
    } else if shell matches Some(s) && contains(s, "bash"@) {
        Some(Shell::Bash)
    } else if windows {
        Some(Shell::PowerShell)
    } else {
        None
    }
}

pub open spec fn undetected_message() -> Seq<char> {
    "Could not detect your shell. Supported: PowerShell, Bash, Zsh, Nushell"@
}

/// The shell in use: PowerShell when `PSModulePath` is set, Nushell when
/// `NU_VERSION` is, else by `SHELL` (zsh before bash), else PowerShell on
/// Windows; an error anywhere else.
pub fn detect_shell(env: &ShellEnv) -> (r: Result<Shell, String>)
    ensures
        match detected_shell(env.ps_module_path, env.nu_version, crate::text::opt_view(env.shell), env.windows) {
            Some(s) => r == Ok::<Shell, String>(s),
            None => r is Err && r->Err_0@ == undetected_message(),
        },
{
    if env.ps_module_path {
        return Ok(Shell::PowerShell);
    }
    if env.nu_version {
        return Ok(Shell::Nushell);
    }
    match &env.shell {
        Some(s) => {
            let v = chars_of(s.as_str());
            if contains_exec(&v, &chars_of("zsh")) {
                return Ok(Shell::Zsh);
            }
            if contains_exec(&v, &chars_of("bash")) {
                return Ok(Shell::Bash);
            }
        },
        None => {},
    }
    if env.windows {
        Ok(Shell::PowerShell)
    } else {
        Err("Could not detect your shell. Supported: PowerShell, Bash, Zsh, Nushell".to_string())
    }
}

/// What `str::to_lowercase` gives for a text (Unicode lowercase mapping).
pub uninterp spec fn unicode_lowercase(s: Seq<char>) -> Seq<char>;

pub open spec fn is_ascii_text(s: Seq<char>) -> bool {
    forall|i: int| 0 <= i < s.len() ==> (#[trigger] s[i]) as u32 <= 0x7F
}

pub open spec fn ascii_lower(c: char) -> char {
    if 'A' <= c && c <= 'Z' {
        ((c as u32) + 32) as char
    } else {
        c
    }
}

/// `str::to_lowercase`: the Unicode lowercase of the text; on ASCII text
/// that maps `A`-`Z` to `a`-`z` and keeps the rest.
#[verifier::external_body]
pub(crate) fn to_lowercase(s: &str) -> (r: String)
    ensures
        r@ == unicode_lowercase(s@),
        is_ascii_text(s@) ==> r@ == s@.map_values(|c: char| ascii_lower(c)),
{
    s.to_lowercase()
}

/// The shell that a name names, in any letter case.
pub open spec fn named_shell(lower: Seq<char>) -> Option<Shell> {
    if lower == "bash"@ {
        Some(Shell::Bash)
    } else if lower == "zsh"@ {
        Some(Shell::Zsh)
    } else if lower == "powershell"@ || lower == "pwsh"@ {
        Some(Shell::PowerShell)
    } else if lower == "nushell"@ || lower == "nu"@ {
        Some(Shell::Nushell)
    } else {
        None
    }
}

pub open spec fn unknown_shell_message(lower: Seq<char>) -> Seq<char> {
    "Unknown shell '"@ + lower + "'. Supported: bash, zsh, powershell, nushell"@
}

/// Parse a shell name, ignoring case: `bash`, `zsh`, `powershell`/`pwsh`,
/// `nushell`/`nu`.
pub fn parse_shell_name(name: &str) -> (r: Result<Shell, String>)
    ensures
        match named_shell(unicode_lowercase(name@)) {
            Some(s) => r == Ok::<Shell, String>(s),
            None => r is Err && r->Err_0@ == unknown_shell_message(unicode_lowercase(name@)),
        },
{
    let lower = to_lowercase(name);
    shell_of_lowered(lower.as_str())
}

/// The shell that an already lowercased name names.
pub fn shell_of_lowered(lower: &str) -> (r: Result<Shell, String>)
    ensures
        match named_shell(lower@) {
            Some(s) => r == Ok::<Shell, String>(s),
            None => r is Err && r->Err_0@ == unknown_shell_message(lower@),
        },
{
    let l = chars_of(lower);
    let eq = |w: &str| -> (b: bool)
        ensures
            b == (l@ == w@),
        { crate::text::chars_eq(&l, &chars_of(w)) };
    if eq("bash") {
        Ok(Shell::Bash)
    } else if eq("zsh") {
        Ok(Shell::Zsh)
    } else if eq("powershell") || eq("pwsh") {
        Ok(Shell::PowerShell)
    } else if eq("nushell") || eq("nu") {
        Ok(Shell::Nushell)
    } else {
        Err(string_of(
            &concat(
                &concat(&chars_of("Unknown shell '"), &l),
                &chars_of("'. Supported: bash, zsh, powershell, nushell"),
            ),
        ))
    }
}

pub const BASH_FUNCTION_BODY: &'static str = "() {\n    command lazywt \"$@\"\n    local exit_code=$?\n    local nav_file=\"$HOME/.lazywt_cd\"\n    if [ -f \"$nav_file\" ]; then\n        local cd_path\n        cd_path=$(cat \"$nav_file\")\n        rm -f \"$nav_file\"\n        if [ -n \"$cd_path\" ] && [ -d \"$cd_path\" ]; then\n            export LAZYWT_PREV=\"$PWD\"\n            cd \"$cd_path\" || true\n        fi\n    fi\n    return $exit_code\n}";

pub const POWERSHELL_FUNCTION_BODY: &'static str = " {\n    & lazywt @Args\n    $navFile = Join-Path $HOME \".lazywt_cd\"\n    if (Test-Path $navFile) {\n        $cdPath = (Get-Content $navFile -Raw).Trim()\n        Remove-Item $navFile -Force\n        if ($cdPath -and (Test-Path $cdPath)) {\n            $env:LAZYWT_PREV = (Get-Location).Path\n            Set-Location $cdPath\n        }\n    }\n}";

pub const NUSHELL_FUNCTION_BODY: &'static str = " [...args: string] {\n    lazywt ...$args\n    let nav_file = ($env.HOME | path join \".lazywt_cd\")\n    if ($nav_file | path exists) {\n        let cd_path = (open $nav_file | str trim)\n        rm $nav_file\n        if ($cd_path | is-not-empty) {\n            $env.LAZYWT_PREV = (pwd)\n            cd $cd_path\n        }\n    }\n}";

/// The shell function that runs the binary and then goes where it asked
/// (the `~/.lazywt_cd` file), recording the previous directory.
pub open spec fn shell_function_text(shell: Shell, name: Seq<char>) -> Seq<char> {
    match shell {
        Shell::Bash | Shell::Zsh => name + BASH_FUNCTION_BODY@,
        Shell::PowerShell => "function "@ + name + POWERSHELL_FUNCTION_BODY@,
        Shell::Nushell => "def --env "@ + name + NUSHELL_FUNCTION_BODY@,
    }
}

pub fn shell_function(shell: &Shell, name: &str) -> (r: String)
    ensures
        r@ == shell_function_text(*shell, name@),
{
    match shell {
        Shell::Bash | Shell::Zsh => string_of(&concat(&chars_of(name), &chars_of(BASH_FUNCTION_BODY))),
        Shell::PowerShell => string_of(
            &concat(&concat(&chars_of("function "), &chars_of(name)), &chars_of(POWERSHELL_FUNCTION_BODY)),
        ),
        Shell::Nushell => string_of(
            &concat(&concat(&chars_of("def --env "), &chars_of(name)), &chars_of(NUSHELL_FUNCTION_BODY)),
        ),
    }
}

/// The opening of a function definition, to find one already installed.
pub open spec fn duplicate_pattern_text(shell: Shell, name: Seq<char>) -> Seq<char> {
    match shell {
        Shell::Bash | Shell::Zsh => name + "()"@,
        Shell::PowerShell => "function "@ + name,
        Shell::Nushell => "def --env "@ + name,
    }
}

pub fn duplicate_pattern(shell: &Shell, name: &str) -> (r: String)
    ensures
        r@ == duplicate_pattern_text(*shell, name@),
{
    match shell {
        Shell::Bash | Shell::Zsh => string_of(&concat(&chars_of(name), &chars_of("()"))),
        Shell::PowerShell => string_of(&concat(&chars_of("function "), &chars_of(name))),
        Shell::Nushell => string_of(&concat(&chars_of("def --env "), &chars_of(name))),
    }
}

/// The hint on activating the function: PowerShell dot-sources the
/// profile, the others `source` it.
pub open spec fn restart_hint_text(shell: Shell, profile: Seq<char>) -> Seq<char> {
    match shell {
        Shell::PowerShell => "Restart your shell or run '. "@ + profile + "' to activate"@,
        _ => "Restart your shell or run 'source "@ + profile + "' to activate"@,
    }
}

pub fn restart_hint(shell: &Shell, profile: &str) -> (r: String)
    ensures
        r@ == restart_hint_text(*shell, profile@),
{
    let (a, b) = match shell {
        Shell::PowerShell => ("Restart your shell or run '. ", "' to activate"),
        _ => ("Restart your shell or run 'source ", "' to activate"),
    };
    string_of(&concat(&concat(&chars_of(a), &chars_of(profile)), &chars_of(b)))
}

/// Where the profiles are, as the environment and the platform tell.
pub struct ProfileEnv {
    /// The value of `PROFILE`, when set.
    pub profile: Option<String>,
    /// The value of `NU_CONFIG_PATH`, when set.
    pub nu_config_path: Option<String>,
    /// The home directory, when known.
    pub home: Option<String>,
    /// The documents directory, when known.
    pub documents: Option<String>,
    /// The configuration directory, when known.
    pub config_dir: Option<String>,
    /// Running on Windows.
    pub windows: bool,
}

pub open spec fn home_missing_message() -> Seq<char> {
    "Could not determine home directory"@
}

/// The profile file of a shell: for PowerShell `PROFILE`, else (Windows)
/// `<documents>/PowerShell/Microsoft.PowerShell_profile.ps1`, else
/// `<home>/.config/powershell/Microsoft.PowerShell_profile.ps1`; for bash
/// and zsh `<home>/.bashrc` and `<home>/.zshrc`; for Nushell
/// `NU_CONFIG_PATH`, else (Windows) `<config>/nushell/config.nu`, else
/// `<home>/.config/nushell/config.nu`.
pub open spec fn profile_path_of(
    shell: Shell,
    profile: Option<Seq<char>>,
    nu_config_path: Option<Seq<char>>,
    home: Option<Seq<char>>,
    documents: Option<Seq<char>>,
    config_dir: Option<Seq<char>>,
    windows: bool,
) -> Result<Seq<char>, Seq<char>> {
    match shell {
        Shell::PowerShell => match profile {
            Some(p) => Ok(p),
            None => {
                let base = if windows {
                    match documents {
                        Some(d) => Some(path_join(d, "PowerShell"@)),
                        None => None,
                    }
                } else {
                    match home {
                        Some(h) => Some(path_join(path_join(h, ".config"@), "powershell"@)),
                        None => None,
                    }
                };
                match base {
                    Some(b) => Ok(path_join(b, "Microsoft.PowerShell_profile.ps1"@)),
                    None => Err("Could not determine PowerShell profile path"@),
                }
            },
        },
        Shell::Bash => match home {
            Some(h) => Ok(path_join(h, ".bashrc"@)),
            None => Err(home_missing_message()),
        },
        Shell::Zsh => match home {
            Some(h) => Ok(path_join(h, ".zshrc"@)),
            None => Err(home_missing_message()),
        },
        Shell::Nushell => match nu_config_path {
            Some(p) => Ok(p),
            None => {
                let base = if windows {
                    match config_dir {
                        Some(c) => Some(path_join(c, "nushell"@)),
                        None => None,
                    }
                } else {
                    match home {
                        Some(h) => Some(path_join(path_join(h, ".config"@), "nushell"@)),
                        None => None,
                    }
                };
                match base {
                    Some(b) => Ok(path_join(b, "config.nu"@)),
                    None => Err("Could not determine Nushell config path"@),
                }
            },
        },
    }
}

pub open spec fn profile_result(shell: Shell, env: ProfileEnv) -> Result<Seq<char>, Seq<char>> {
    profile_path_of(
        shell,
        opt_view(env.profile),
        opt_view(env.nu_config_path),
        opt_view(env.home),
        opt_view(env.documents),
        opt_view(env.config_dir),
        env.windows,
    )
}

/// The profile file that setting up a shell writes to.
pub fn profile_path(shell: &Shell, env: &ProfileEnv) -> (r: Result<String, String>)
    ensures
        match (r, profile_result(*shell, *env)) {
            (Ok(a), Ok(b)) => a@ == b,
            (Err(a), Err(b)) => a@ == b,
            _ => false,
        },
{
    match shell {
        Shell::PowerShell => {
            match &env.profile {
                Some(p) => {
                    return Ok(p.clone());
                },
                None => {},
            }
            let base: Option<String> = if env.windows {
                match &env.documents {
                    Some(d) => Some(join(d.as_str(), "PowerShell")),
                    None => None,
                }
            } else {
                match &env.home {
                    Some(h) => Some(join(join(h.as_str(), ".config").as_str(), "powershell")),
                    None => None,
                }
            };
            match base {
                Some(b) => Ok(join(b.as_str(), "Microsoft.PowerShell_profile.ps1")),
                None => Err("Could not determine PowerShell profile path".to_string()),
            }
        },
        Shell::Bash => match &env.home {
            Some(h) => Ok(join(h.as_str(), ".bashrc")),
            None => Err("Could not determine home directory".to_string()),
        },
        Shell::Zsh => match &env.home {
            Some(h) => Ok(join(h.as_str(), ".zshrc")),
            None => Err("Could not determine home directory".to_string()),
        },
        Shell::Nushell => {
            match &env.nu_config_path {
                Some(p) => {
                    return Ok(p.clone());
                },
                None => {},
            }
            let base: Option<String> = if env.windows {
                match &env.config_dir {
                    Some(c) => Some(join(c.as_str(), "nushell")),
                    None => None,
                }
            } else {
                match &env.home {
                    Some(h) => Some(join(join(h.as_str(), ".config").as_str(), "nushell")),
                    None => None,
                }
            };
            match base {
                Some(b) => Ok(join(b.as_str(), "config.nu")),
                None => Err("Could not determine Nushell config path".to_string()),
            }
        },
    }
}

// ------------------------------------------------------------------
// Writing to the profile
// ------------------------------------------------------------------

/// Append the line to the profile (after creating its directory); a
/// failure ends the command with its message.
pub open spec fn append_prog(profile: Seq<char>, line: Seq<char>, added: Prog) -> Prog {
    let append = Prog::Do(
        EffectView::AppendLine { path: profile, line },
        |o: OutcomeView| match done_of(o) {
            Err(m) => Prog::Finish(Err(m)),
            Ok(_) => added,
        },
    );
    match path_parent(profile) {
        Some(p) => create_dir_all(p, append),
        None => append,
    }
}

pub open spec fn unreadable_message(profile: Seq<char>) -> Seq<char> {
    "could not read "@ + profile
}

/// Add a line to a profile unless the profile already holds `pattern`
/// (then `present`).
pub open spec fn profile_prog(profile: Seq<char>, pattern: Seq<char>, present: Prog, line: Seq<char>, added: Prog) -> Prog {
    fs(
        FsQueryView::Exists(profile),
        |a: FsReplyView| if a is Yes {
            fs(
                FsQueryView::ReadText(profile),
                |t: FsReplyView| match t {
                    FsReplyView::Text(c) => if contains(c, pattern) {
                        present
                    } else {
                        append_prog(profile, line, added)
                    },
                    FsReplyView::Failed(m) => Prog::Finish(Err(m)),
                    _ => Prog::Finish(Err(unreadable_message(profile))),
                },
            )
        } else {
            append_prog(profile, line, added)
        },
    )
}

/// The outcome of detecting the shell.
pub open spec fn detect_result(env: ShellEnv) -> Result<Shell, Seq<char>> {
    match detected_shell(env.ps_module_path, env.nu_version, opt_view(env.shell), env.windows) {
        Some(s) => Ok(s),
        None => Err(undetected_message()),
    }
}

/// Installing the shell function named `name` into the profile of the
/// shell in use.
pub open spec fn alias_prog(shell: Result<Shell, Seq<char>>, penv: ProfileEnv, name: Seq<char>) -> Prog {
    match shell {
        Err(m) => Prog::Finish(Err(m)),
        Ok(s) => match profile_result(s, penv) {
            Err(m) => Prog::Finish(Err(m)),
            Ok(p) => profile_prog(
                p,
                duplicate_pattern_text(s, name),
                say(
                    Level::Info,
                    "Alias '"@ + name + "' is already configured in "@ + p,
                    Prog::Finish(Ok(())),
                ),
                shell_function_text(s, name),
                say(
                    Level::Success,
                    "Added alias '"@ + name + "' to "@ + p,
                    say(Level::Info, restart_hint_text(s, p), Prog::Finish(Ok(()))),
                ),
            ),
        },
    }
}

/// Follow `append_prog`: `Ok` once the line is appended.
pub fn append_exec(rn: &mut Runner, profile: &str, line: String, Ghost(added): Ghost<Prog>) -> (r: Result<(), Effect>)
    requires
        old(rn).consistent(),
        old(rn).prog@ == append_prog(profile@, line@, added),
    ensures
        final(rn).consistent(),
        final(rn).outcomes == old(rn).outcomes,
        final(rn).whole == old(rn).whole,
        match r {
            Ok(()) => final(rn).prog@ == added,
            Err(e) => effect_view(e) == next_effect(old(rn).whole@, old(rn).views()),
        },
{
    match parent(profile) {
        Some(p) => {
            let o = match rn.perform(Effect::CreateDirAll(p)) {
                Err(e) => {
                    return Err(e);
                },
                Ok(o) => o,
            };
            match done_result_of(&rn.outcomes[o]) {
                Err(m) => {
                    return Err(rn.finish(Err(m)));
                },
                Ok(()) => {},
            }
        },
        None => {},
    }
    let o = match rn.perform(Effect::AppendLine { path: profile.to_string(), line }) {
        Err(e) => {
            return Err(e);
        },
        Ok(o) => o,
    };
    match done_result_of(&rn.outcomes[o]) {
        Err(m) => Err(rn.finish(Err(m))),
        Ok(()) => Ok(()),
    }
}

/// Follow `profile_prog` up to `present` (`Ok(true)`) or `added`
/// (`Ok(false)`).
pub fn profile_exec(
    rn: &mut Runner,
    profile: &str,
    pattern: &str,
    line: String,
    Ghost(present): Ghost<Prog>,
    Ghost(added): Ghost<Prog>,
) -> (r: Result<bool, Effect>)
    requires
        old(rn).consistent(),
        old(rn).prog@ == profile_prog(profile@, pattern@, present, line@, added),
    ensures
        final(rn).consistent(),
        final(rn).outcomes == old(rn).outcomes,
        final(rn).whole == old(rn).whole,
        match r {
            Ok(true) => final(rn).prog@ == present,
            Ok(false) => final(rn).prog@ == added,
            Err(e) => effect_view(e) == next_effect(old(rn).whole@, old(rn).views()),
        },
{
    let o = match rn.perform(Effect::Fs(FsQuery::Exists(profile.to_string()))) {
        Err(e) => {
            return Err(e);
        },
        Ok(o) => o,
    };
    let present_file = match fs_answer_of(&rn.outcomes[o]) {
        FsReply::Yes => true,
        _ => false,
    };
    if present_file {
        let o = match rn.perform(Effect::Fs(FsQuery::ReadText(profile.to_string()))) {
            Err(e) => {
                return Err(e);
            },
            Ok(o) => o,
        };
        match fs_answer_of(&rn.outcomes[o]) {
            FsReply::Text(c) => {
                if contains_exec(&chars_of(c.as_str()), &chars_of(pattern)) {
                    return Ok(true);
                }
            },
            FsReply::Failed(m) => {
                return Err(rn.finish(Err(m)));
            },
            _ => {
                return Err(rn.finish(Err(join_str("could not read ", profile))));
            },
        }
    }
    match append_exec(rn, profile, line, Ghost(added)) {
        Err(e) => Err(e),
        Ok(()) => Ok(false),
    }
}

/// The alias command's next effect, given the outcomes of those it asked
/// for so far: detect the shell, find its profile, and add the shell
/// function there unless it is already defined.
pub fn run(env: &ShellEnv, penv: &ProfileEnv, config: &Config, outcomes: &Vec<Outcome>) -> (e: Effect)
    ensures
        effect_view(e) == next_effect(alias_prog(detect_result(*env), *penv, config.command_name@), outcome_views(outcomes@)),
{
    let ghost whole = alias_prog(detect_result(*env), *penv, config.command_name@);
    let mut rn = Runner::new(outcomes, Ghost(whole));
    let name = config.command_name.as_str();
    let shell = match detect_shell(env) {
        Err(m) => {
            return rn.finish(Err(m));
        },
        Ok(s) => s,
    };
    let profile = match profile_path(&shell, penv) {
        Err(m) => {
            return rn.finish(Err(m));
        },
        Ok(p) => p,
    };
    let ghost present = say(
        Level::Info,
        "Alias '"@ + name@ + "' is already configured in "@ + profile@,
        Prog::Finish(Ok(())),
    );
    let ghost added = say(
        Level::Success,
        "Added alias '"@ + name@ + "' to "@ + profile@,
        say(Level::Info, restart_hint_text(shell, profile@), Prog::Finish(Ok(()))),
    );
    let pattern = duplicate_pattern(&shell, name);
    let found = match profile_exec(&mut rn, profile.as_str(), pattern.as_str(), shell_function(&shell, name), Ghost(present), Ghost(added)) {
        Err(e) => {
            return e;
        },
        Ok(b) => b,
    };
    if found {
        match rn.perform(say_exec(Level::Info, join4("Alias '", name, "' is already configured in ", profile.as_str()))) {
            Err(e) => {
                return e;
            },
            Ok(_) => {},
        }
        return rn.finish(Ok(()));
    }
    match rn.perform(say_exec(Level::Success, join4("Added alias '", name, "' to ", profile.as_str()))) {
        Err(e) => {
            return e;
        },
        Ok(_) => {},
    }
    match rn.perform(say_exec(Level::Info, restart_hint(&shell, profile.as_str()))) {
        Err(e) => {
            return e;
        },
        Ok(_) => {},
    }
    rn.finish(Ok(()))
}

} // verus!
