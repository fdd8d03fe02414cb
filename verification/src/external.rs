//! The trusted boundary to the outside crates.
//!
//! Each item here either declares an outside type or wraps one outside call;
//! Verus believes the stated contracts without reading the bodies. Everything
//! else in the library is verified against these contracts.

use rand::seq::SliceRandom;
use vstd::prelude::*;

verus! {

// `serde_json::Error` travels through the persistence wrappers as an opaque
// value; the stores map it to the library's own error kinds.
#[verifier::external_type_specification]
#[verifier::external_body]
pub struct ExSerdeJsonError(serde_json::Error);

/// Relies on `dirs::cache_dir`: the platform's cache directory, if the
/// platform reports one. The answer depends on the environment, so nothing
/// is stated about it.
#[verifier::external_body]
pub fn platform_cache_dir() -> Option<String> {
    match dirs::cache_dir() {
        Some(p) => Some(p.display().to_string()),
        None => None,
    }
}

/// Relies on `dirs::config_dir`: the platform's configuration directory, if
/// the platform reports one. The answer depends on the environment, so
/// nothing is stated about it.
#[verifier::external_body]
pub fn platform_config_dir() -> Option<String> {
    match dirs::config_dir() {
        Some(p) => Some(p.display().to_string()),
        None => None,
    }
}

/// Relies on `rand::seq::SliceRandom::shuffle` with `rand::rng`: permutes
/// the slice in place. Which permutation comes out is random, so only what
/// holds of every outcome is stated: the items are kept, as a multiset.
#[verifier::external_body]
pub fn shuffle_strings(items: &mut Vec<String>)
    ensures
        final(items).deep_view().to_multiset() == old(items).deep_view().to_multiset(),
        final(items)@.len() == old(items)@.len(),
{
    items.shuffle(&mut rand::rng());
}

} // verus!
