//! Which shell completions are generated for.
use vstd::prelude::*;

use crate::commands::alias::{to_lowercase, unicode_lowercase};
use crate::text::{chars_eq, chars_of, join3};

verus! {

/// The shells that completions can be generated for.
#[derive(Clone, Copy, Debug, PartialEq, Eq, Structural)]
pub enum CompletionShell {
    Bash,
    Zsh,
    PowerShell,
    Fish,
}

pub open spec fn completion_shell_of(lower: Seq<char>) -> Option<CompletionShell> {
    if lower == "bash"@ {
        Some(CompletionShell::Bash)
    } else if lower == "zsh"@ {
        Some(CompletionShell::Zsh)
    } else if lower == "powershell"@ {
        Some(CompletionShell::PowerShell)
    } else if lower == "fish"@ {
        Some(CompletionShell::Fish)
    } else {
        None
    }
}

/// The shell a name names, in any letter case: `bash`, `zsh`,
/// `powershell` or `fish`.
pub fn completion_shell(name: &str) -> (r: Result<CompletionShell, String>)
    ensures
        match completion_shell_of(unicode_lowercase(name@)) {
            Some(s) => r == Ok::<CompletionShell, String>(s),
            None => r is Err && r->Err_0@ == "Unsupported shell: '"@ + unicode_lowercase(name@)
                + "'. Supported: bash, zsh, powershell, fish"@,
        },
{
    let lower = to_lowercase(name);
    completion_shell_of_lowered(lower.as_str())
}

/// The shell that an already lowercased name names.
pub fn completion_shell_of_lowered(lower: &str) -> (r: Result<CompletionShell, String>)
    ensures
        match completion_shell_of(lower@) {
            Some(s) => r == Ok::<CompletionShell, String>(s),
            None => r is Err && r->Err_0@ == "Unsupported shell: '"@ + lower@
                + "'. Supported: bash, zsh, powershell, fish"@,
        },
{
    let l = chars_of(lower);
    if chars_eq(&l, &chars_of("bash")) {
        Ok(CompletionShell::Bash)
    } else if chars_eq(&l, &chars_of("zsh")) {
        Ok(CompletionShell::Zsh)
    } else if chars_eq(&l, &chars_of("powershell")) {
        Ok(CompletionShell::PowerShell)
    } else if chars_eq(&l, &chars_of("fish")) {
        Ok(CompletionShell::Fish)
    } else {
        Err(join3("Unsupported shell: '", lower, "'. Supported: bash, zsh, powershell, fish"))
    }
}

} // verus!
