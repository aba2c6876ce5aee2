//! Going to a new worktree: the shell function changes to the directory
//! written to `~/.lazywt_cd` once the command is over.
use vstd::prelude::*;

use crate::commands::alias::{to_lowercase, unicode_lowercase};
use crate::paths::{join, path_join};
use crate::text::{chars_eq, chars_of, join3, trim, trim_chars};

verus! {

/// Where the directory to go to is written: under `LAZYWT_HOME` when set,
/// else under the home directory.
pub open spec fn navigate_path_of(lazywt_home: Option<Seq<char>>, home: Option<Seq<char>>) -> Option<Seq<char>> {
    match lazywt_home {
        Some(h) => Some(path_join(h, ".lazywt_cd"@)),
        None => match home {
            Some(h) => Some(path_join(h, ".lazywt_cd"@)),
            None => None,
        },
    }
}

/// The file that tells the shell function where to go.
pub fn navigate_path(lazywt_home: Option<&str>, home: Option<&str>) -> (r: Option<String>)
    ensures
        crate::text::opt_view(r) == navigate_path_of(crate::commands::steps::name_view(lazywt_home), crate::commands::steps::name_view(home)),
{
    match lazywt_home {
        Some(h) => Some(join(h, ".lazywt_cd")),
        None => match home {
            Some(h) => Some(join(h, ".lazywt_cd")),
            None => None,
        },
    }
}

/// What to do about going to a new worktree.
#[derive(Clone, Copy, Debug, PartialEq, Eq, Structural)]
pub enum NavChoice {
    /// Go there without asking.
    Go,
    /// Ask first.
    Ask,
    /// Do nothing.
    Skip,
}

/// Go when configured to; else ask, but only on a terminal.
pub fn navigation_choice(auto_navigate: bool, terminal: bool) -> (r: NavChoice)
    ensures
        r == (if auto_navigate {
            NavChoice::Go
        } else if terminal {
            NavChoice::Ask
        } else {
            NavChoice::Skip
        }),
{
    if auto_navigate {
        NavChoice::Go
    } else if terminal {
        NavChoice::Ask
    } else {
        NavChoice::Skip
    }
}

/// The question asked before going to a directory.
pub fn navigate_question(display_path: &str) -> (r: String)
    ensures
        r@ == "  Navigate to "@ + display_path@ + "? (y/N) "@,
{
    join3("  Navigate to ", display_path, "? (y/N) ")
}

/// Whether an answer accepts: `y` or `yes`, trimmed, in any letter case.
pub fn accepts_navigation(answer: &str) -> (r: bool)
    ensures
        r == (unicode_lowercase(trim(answer@)) == "y"@ || unicode_lowercase(trim(answer@)) == "yes"@),
{
    let t = crate::text::string_of(&trim_chars(&chars_of(answer)));
    let lower = to_lowercase(t.as_str());
    accepts_lowered(lower.as_str())
}

/// Whether an already trimmed and lowercased answer accepts: `y` or `yes`.
pub fn accepts_lowered(lower: &str) -> (r: bool)
    ensures
        r == (lower@ == "y"@ || lower@ == "yes"@),
{
    let l = chars_of(lower);
    chars_eq(&l, &chars_of("y")) || chars_eq(&l, &chars_of("yes"))
}

} // verus!
