//! Where modules are loaded from.

use vstd::prelude::*;
use crate::text::{concat_text, has_prefix};

verus! {

/// Whether a module specifier is an address on one of the two networks that
/// modules are loaded from.
pub open spec fn is_address(input: Seq<char>) -> bool {
    "https://cdn.skypack.dev"@.is_prefix_of(input) || "https://cdn.jsdelivr.net"@.is_prefix_of(
        input,
    )
}

/// The address that a module specifier is loaded from: an address on one of
/// the two networks stands for itself, anything else is a package name on
/// the first of them.
pub fn import(input: &str) -> (address: String)
    ensures
        address@ == (if is_address(input@) {
            input@
        } else {
            "https://cdn.skypack.dev/"@ + input@
        }),
{
    if has_prefix(input, "https://cdn.skypack.dev") || has_prefix(
        input,
        "https://cdn.jsdelivr.net",
    ) {
        input.to_owned()
    } else {
        concat_text("https://cdn.skypack.dev/", input)
    }
}

} // verus!
