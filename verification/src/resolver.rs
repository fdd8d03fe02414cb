//! The resolution protocol: how raw user input becomes a playable address.
//!
//! Input that already is an address is used directly. Anything else is a
//! search query: the cache answers it when it can, and only otherwise is the
//! external resolver consulted — whose raw output is cleaned up here before
//! use. The external call itself is the caller's part; this module decides
//! every step around it and states each decision exactly.

use vstd::prelude::*;

use crate::cache::Cache;
use crate::errors::PlayError;
use crate::utils::{is_url, spec_is_url};

verus! {

/// The decision for one user input.
#[derive(Debug)]
pub enum Resolution {
    /// The input is a direct address; use it unchanged, no external call.
    Direct(String),
    /// The cache already holds an address for this query; use it, no
    /// external call.
    Cached(String),
    /// The query must be resolved externally; on success, record the result
    /// in the cache and persist it before use.
    ResolveAndCache,
    /// The query must be resolved externally, but the cache could not be
    /// loaded: skip caching entirely for this invocation.
    ResolveWithoutCache,
}

/// Decides how to turn one user input into a playable address, given the
/// cache and whether it could be loaded. Availability is preferred over
/// consistency: a cache that failed to load degrades to plain resolution.
pub fn plan_resolution(input: &str, cache: &Cache, cache_loaded: bool) -> (r: Resolution)
    requires
        cache.wf(),
    ensures
        spec_is_url(input@) ==> (r matches Resolution::Direct(a) && a@ == input@),
        !spec_is_url(input@) && !cache_loaded ==> r is ResolveWithoutCache,
        !spec_is_url(input@) && cache_loaded && cache@.contains_key(input@) ==> (r
            matches Resolution::Cached(a) && a@ == cache@[input@]),
        !spec_is_url(input@) && cache_loaded && !cache@.contains_key(input@) ==> r
            is ResolveAndCache,
{
    if is_url(input) {
        return Resolution::Direct(input.to_owned());
    }
    if !cache_loaded {
        return Resolution::ResolveWithoutCache;
    }
    match cache.lookup(input) {
        Some(url) => Resolution::Cached(url),
        None => Resolution::ResolveAndCache,
    }
}

/// Characters the external resolver may wrap around its answer and that are
/// stripped before the answer is used.
pub open spec fn is_wrapper_char(c: char) -> bool {
    c == '"' || c == '\n'
}

/// The text with every enclosing quote and embedded newline removed.
pub open spec fn spec_stripped(s: Seq<char>) -> Seq<char>
    decreases s.len(),
{
    if s.len() == 0 {
        Seq::empty()
    } else {
        let rest = spec_stripped(s.drop_last());
        if is_wrapper_char(s.last()) {
            rest
        } else {
            rest.push(s.last())
        }
    }
}

/// Cleans the external resolver's raw standard output into a usable address
/// by dropping every quote and newline character it may have emitted.
pub fn clean_search_output(raw: &str) -> (r: String)
    ensures
        r@ == spec_stripped(raw@),
{
    let n = raw.unicode_len();
    let mut out = String::new();
    let mut i: usize = 0;
    while i < n
        invariant
            i <= n,
            n == raw@.len(),
            out@ == spec_stripped(raw@.subrange(0, i as int)),
        decreases n - i,
    {
        let c = raw.get_char(i);
        let ghost pre = out@;
        if !(c == '"' || c == '\n') {
            let piece = raw.substring_char(i, i + 1);
            out.append(piece);
            proof {
                assert(out@ =~= pre.push(raw@[i as int]));
            }
        }
        proof {
            assert(raw@.subrange(0, i as int + 1).drop_last() =~= raw@.subrange(0, i as int));
            assert(raw@.subrange(0, i as int + 1).last() == raw@[i as int]);
        }
        i += 1;
    }
    proof {
        assert(raw@.subrange(0, n as int) =~= raw@);
    }
    out
}

/// Turns the external resolver's outcome into the resolution result: the
/// raw output is cleaned into an address, a failure — whatever its
/// diagnostic text — becomes a resolution error. A single failure is
/// terminal for the attempt; there are no retries.
pub fn finish_resolution(outcome: Result<String, String>) -> (r: Result<String, PlayError>)
    ensures
        outcome matches Ok(raw) ==> (r matches Ok(a) && a@ == spec_stripped(raw@)),
        outcome is Err ==> (r matches Err(e) && e == PlayError::ResolutionError),
{
    match outcome {
        Ok(raw) => Ok(clean_search_output(raw.as_str())),
        Err(_) => Err(PlayError::ResolutionError),
    }
}

/// Once a query's resolution has been recorded, looking the query up again
/// answers it from the cache with the very address that was recorded — so a
/// second resolution of the same query makes no external call.
pub proof fn lemma_recorded_resolution_is_cached(
    cache_before: Map<Seq<char>, Seq<char>>,
    query: Seq<char>,
    url: Seq<char>,
)
    ensures
        cache_before.insert(query, url).contains_key(query),
        cache_before.insert(query, url)[query] == url,
{
}

} // verus!
