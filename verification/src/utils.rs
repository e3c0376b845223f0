//! Small helpers for configuration values.

use vstd::prelude::*;

verus! {

/// What was found, or else the fallback.
pub open spec fn found_or(found: Option<String>, fallback: Seq<char>) -> Seq<char> {
    match found {
        Some(text) => text@,
        None => fallback,
    }
}

/// The value of a configuration option: what was found for it, or else the
/// fallback.
pub fn get_env(found: Option<String>, fallback: &str) -> (value: String)
    ensures
        value@ == found_or(found, fallback@),
{
    match found {
        Some(text) => text,
        None => fallback.to_owned(),
    }
}

} // verus!
