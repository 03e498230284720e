//! Lookup of the external encoder tools on the process search path.

use vstd::prelude::*;

verus! {

/// Relies on which::which: searches the process environment's path for an
/// executable of the given name. The outcome depends on the machine, so
/// nothing is promised of it; `None` covers both a failed search and a tool
/// path that is not valid Unicode.
#[verifier::external_body]
pub(crate) fn find_tool(name: &str) -> Option<String> {
    match which::which(name) {
        Ok(path) => path.to_str().map(|p| p.to_string()),
        Err(_) => None,
    }
}

} // verus!
