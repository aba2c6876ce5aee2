//! The version line.
use vstd::prelude::*;

use crate::text::join_str;
use crate::update_check::PACKAGE_VERSION;

verus! {

/// `lazywt <version>`.
pub fn version_line() -> (r: String)
    ensures
        r@ == "lazywt "@ + PACKAGE_VERSION@,
{
    join_str("lazywt ", PACKAGE_VERSION)
}

} // verus!
