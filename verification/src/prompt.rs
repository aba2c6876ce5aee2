//! Asking for confirmation.
use vstd::prelude::*;

use crate::text::{chars_eq, chars_of, trim, trim_chars};

verus! {

pub open spec fn no_terminal_message() -> Seq<char> {
    "Cannot prompt for confirmation -- use --yes to skip"@
}

/// Whether to ask: with `--yes` the answer is yes (`Some(true)`) without
/// asking; away from a terminal asking is an error; else ask (`None`).
pub fn confirm_without_asking(yes_flag: bool, terminal: bool) -> (r: Result<Option<bool>, String>)
    ensures
        yes_flag ==> r == Ok::<Option<bool>, String>(Some(true)),
        !yes_flag && !terminal ==> r is Err && r->Err_0@ == no_terminal_message(),
        !yes_flag && terminal ==> r == Ok::<Option<bool>, String>(None),
{
    if yes_flag {
        Ok(Some(true))
    } else if !terminal {
        Err("Cannot prompt for confirmation -- use --yes to skip".to_string())
    } else {
        Ok(None)
    }
}

/// Whether a typed line confirms: `y` or `Y`, once trimmed.
pub fn confirms(line: &str) -> (r: bool)
    ensures
        r == (trim(line@) == "y"@ || trim(line@) == "Y"@),
{
    let t = trim_chars(&chars_of(line));
    chars_eq(&t, &chars_of("y")) || chars_eq(&t, &chars_of("Y"))
}

} // verus!
