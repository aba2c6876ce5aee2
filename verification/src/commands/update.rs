//! The explicit update check, which ignores the once-a-day limit.
use vstd::prelude::*;

use crate::text::{chars_of, concat, string_of};
use crate::update_check::{cache_text, format_cache, is_update_available, update_available, PACKAGE_VERSION};

verus! {

/// What the explicit check reports and records.
pub struct UpdateReport {
    /// Show the message as a success (`true`) or as information.
    pub success: bool,
    pub message: String,
    /// The new cache text.
    pub cache: String,
}

pub open spec fn report_message(fetched: Option<Seq<char>>) -> Seq<char> {
    match fetched {
        Some(v) => if update_available(PACKAGE_VERSION@, v) {
            "New version "@ + v + " available (current: "@ + PACKAGE_VERSION@
                + "). Run `cargo install lazywt` to update."@
        } else {
            "You are on the latest version ("@ + PACKAGE_VERSION@ + ")."@
        },
        None => "Could not check for updates. You may be offline or the package is not yet published."@,
    }
}

/// The explicit check, given what the release lookup found and the time:
/// tell whether a newer version exists (or that none could be found), and
/// record the check, with the version found, in the cache.
pub fn run(fetched: Option<&str>, now: u64) -> (r: UpdateReport)
    ensures
        r.success == fetched is Some,
        r.message@ == report_message(match fetched {
            Some(v) => Some(v@),
            None => None,
        }),
        r.cache@ == cache_text(now, match fetched {
            Some(v) => Some(v@),
            None => None,
        }),
{
    match fetched {
        Some(v) => {
            let message = if is_update_available(PACKAGE_VERSION, v) {
                let a = concat(&chars_of("New version "), &chars_of(v));
                let b = concat(&a, &chars_of(" available (current: "));
                let c = concat(&b, &chars_of(PACKAGE_VERSION));
                string_of(&concat(&c, &chars_of("). Run `cargo install lazywt` to update.")))
            } else {
                let a = concat(&chars_of("You are on the latest version ("), &chars_of(PACKAGE_VERSION));
                string_of(&concat(&a, &chars_of(").")))
            };
            UpdateReport { success: true, message, cache: format_cache(now, Some(v)) }
        },
        None => UpdateReport {
            success: false,
            message: "Could not check for updates. You may be offline or the package is not yet published.".to_string(),
            cache: format_cache(now, None),
        },
    }
}

} // verus!
