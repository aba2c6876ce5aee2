//! The line that loads the shell function at shell start-up.
use vstd::prelude::*;

use crate::commands::alias::{
    detect_result, detect_shell, named_shell, parse_shell_name, profile_exec, profile_path, profile_prog, profile_result,
    shell_function, shell_function_text, unicode_lowercase, unknown_shell_message, ProfileEnv, Shell, ShellEnv,
};
use crate::commands::effects::{effect_view, next_effect, outcome_views, say, Effect, Level, Outcome, Prog, Runner};
use crate::commands::steps::{name_view, say_exec};
use crate::config::Config;
use crate::text::{chars_of, contains, contains_exec, join_str};

verus! {

/// The start-up line for a shell. It always runs the `lazywt` binary,
/// whatever name the function gets.
pub open spec fn eval_line_text(shell: Shell) -> Seq<char> {
    match shell {
        Shell::Bash => "eval \"$(lazywt init bash)\""@,
        Shell::Zsh => "eval \"$(lazywt init zsh)\""@,
        Shell::PowerShell => "Invoke-Expression (& lazywt init powershell | Out-String)"@,
        Shell::Nushell => "lazywt init nushell | save -f ~/.lazywt-init.nu; source ~/.lazywt-init.nu"@,
    }
}

pub fn eval_line_for_shell(shell: &Shell) -> (r: String)
    ensures
        r@ == eval_line_text(*shell),
{
    match shell {
        Shell::Bash => "eval \"$(lazywt init bash)\"".to_string(),
        Shell::Zsh => "eval \"$(lazywt init zsh)\"".to_string(),
        Shell::PowerShell => "Invoke-Expression (& lazywt init powershell | Out-String)".to_string(),
        Shell::Nushell => "lazywt init nushell | save -f ~/.lazywt-init.nu; source ~/.lazywt-init.nu".to_string(),
    }
}

/// What marks a start-up line already in a profile.
pub fn eval_pattern_for_shell() -> (r: &'static str)
    ensures
        r@ == "lazywt init"@,
{
    "lazywt init"
}

/// The shell asked for by name, else the one in use.
pub open spec fn chosen_shell(name: Option<Seq<char>>, env: ShellEnv) -> Result<Shell, Seq<char>> {
    match name {
        Some(n) => match named_shell(unicode_lowercase(n)) {
            Some(s) => Ok(s),
            None => Err(unknown_shell_message(unicode_lowercase(n))),
        },
        None => detect_result(env),
    }
}

/// Adding the start-up line to the shell's profile, unless one is there.
pub open spec fn add_prog(shell: Shell, penv: ProfileEnv) -> Prog {
    match profile_result(shell, penv) {
        Err(m) => Prog::Finish(Err(m)),
        Ok(p) => profile_prog(
            p,
            "lazywt init"@,
            say(Level::Warning, "Shell integration already configured in "@ + p, Prog::Finish(Ok(()))),
            eval_line_text(shell),
            say(
                Level::Success,
                "Added shell integration to "@ + p,
                say(Level::Info, "Restart your shell or source the profile to activate."@, Prog::Finish(Ok(()))),
            ),
        ),
    }
}

/// The init command: print the shell function named `name` for the shell
/// (to be evaluated at start-up), or with `add` put the start-up line into
/// the shell's profile.
pub open spec fn init_prog(shell: Result<Shell, Seq<char>>, add: bool, penv: ProfileEnv, name: Seq<char>) -> Prog {
    match shell {
        Err(m) => Prog::Finish(Err(m)),
        Ok(s) => if add {
            add_prog(s, penv)
        } else {
            say(Level::Plain, shell_function_text(s, name), Prog::Finish(Ok(())))
        },
    }
}

fn run_add(rn: &mut Runner, shell: &Shell, penv: &ProfileEnv) -> (e: Effect)
    requires
        old(rn).consistent(),
        old(rn).prog@ == add_prog(*shell, *penv),
    ensures
        effect_view(e) == next_effect(old(rn).whole@, old(rn).views()),
{
    let profile = match profile_path(shell, penv) {
        Err(m) => {
            return rn.finish(Err(m));
        },
        Ok(p) => p,
    };
    let ghost present = say(Level::Warning, "Shell integration already configured in "@ + profile@, Prog::Finish(Ok(())));
    let ghost added = say(
        Level::Success,
        "Added shell integration to "@ + profile@,
        say(Level::Info, "Restart your shell or source the profile to activate."@, Prog::Finish(Ok(()))),
    );
    let pattern = eval_pattern_for_shell();
    let found = match profile_exec(rn, profile.as_str(), pattern, eval_line_for_shell(shell), Ghost(present), Ghost(added)) {
        Err(e) => {
            return e;
        },
        Ok(b) => b,
    };
    if found {
        match rn.perform(say_exec(Level::Warning, join_str("Shell integration already configured in ", profile.as_str()))) {
            Err(e) => {
                return e;
            },
            Ok(_) => {},
        }
        return rn.finish(Ok(()));
    }
    match rn.perform(say_exec(Level::Success, join_str("Added shell integration to ", profile.as_str()))) {
        Err(e) => {
            return e;
        },
        Ok(_) => {},
    }
    match rn.perform(say_exec(Level::Info, "Restart your shell or source the profile to activate.".to_string())) {
        Err(e) => {
            return e;
        },
        Ok(_) => {},
    }
    rn.finish(Ok(()))
}

/// The init command's next effect, given the outcomes of those it asked for
/// so far.
pub fn run(
    shell_name: Option<&str>,
    add: bool,
    env: &ShellEnv,
    penv: &ProfileEnv,
    config: &Config,
    outcomes: &Vec<Outcome>,
) -> (e: Effect)
    ensures
        effect_view(e) == next_effect(
            init_prog(chosen_shell(name_view(shell_name), *env), add, *penv, config.command_name@),
            outcome_views(outcomes@),
        ),
{
    let ghost whole = init_prog(chosen_shell(name_view(shell_name), *env), add, *penv, config.command_name@);
    let mut rn = Runner::new(outcomes, Ghost(whole));
    let chosen = match shell_name {
        Some(n) => parse_shell_name(n),
        None => detect_shell(env),
    };
    let shell = match chosen {
        Err(m) => {
            return rn.finish(Err(m));
        },
        Ok(s) => s,
    };
    if add {
        return run_add(&mut rn, &shell, penv);
    }
    match rn.perform(say_exec(Level::Plain, shell_function(&shell, config.command_name.as_str()))) {
        Err(e) => {
            return e;
        },
        Ok(_) => {},
    }
    rn.finish(Ok(()))
}

} // verus!
