//! The query cache: a durable mapping from raw search text to the address it
//! resolved to, so that repeated queries skip the external resolver.
//!
//! In memory the mapping is a sequence of key/value pairs with pairwise
//! distinct keys; its mathematical view is the map those pairs describe.
//! Persistence works on plain strings: `read` decodes file content that the
//! caller obtained, `write` produces the content the caller should store.

use vstd::prelude::*;

use crate::errors::PlayError;
use crate::external::platform_cache_dir;
use crate::utils::str_eq;

verus! {

/// The map described by a sequence of key/value pairs; a later pair with the
/// same key overrides an earlier one.
pub open spec fn map_of_pairs(s: Seq<(String, String)>) -> Map<Seq<char>, Seq<char>>
    decreases s.len(),
{
    if s.len() == 0 {
        Map::empty()
    } else {
        map_of_pairs(s.drop_last()).insert(s.last().0@, s.last().1@)
    }
}

/// All keys of the pair sequence are pairwise distinct.
pub open spec fn distinct_keys(s: Seq<(String, String)>) -> bool {
    forall|i: int, j: int| 0 <= i < j < s.len() ==> s[i].0@ != s[j].0@
}

/// What `serde_json::from_str::<HashMap<String, String>>` decodes from a
/// text: `None` when the text is not a JSON object of strings, otherwise the
/// decoded mapping. A function of the text alone.
pub uninterp spec fn cache_json_of(s: Seq<char>) -> Option<Map<Seq<char>, Seq<char>>>;

/// Relies on `serde_json::from_str::<HashMap<String, String>>`: decodes a
/// JSON object with string keys and string values, or fails; the outcome is
/// a function of the text alone, named `cache_json_of`. The map's keys are
/// unique, so the returned pair sequence has distinct keys.
#[verifier::external_body]
fn parse_cache_json(content: &str) -> (r: Result<Vec<(String, String)>, serde_json::Error>)
    ensures
        r is Ok <==> cache_json_of(content@) is Some,
        r matches Ok(v) ==> distinct_keys(v@) && Some(map_of_pairs(v@)) == cache_json_of(content@),
{
    match serde_json::from_str::<std::collections::HashMap<String, String>>(content) {
        Ok(m) => Ok(m.into_iter().collect()),
        Err(e) => Err(e),
    }
}

/// Relies on `serde_json::to_string::<HashMap<String, String>>`: encodes the
/// mapping as a JSON object which, per serde_json's round-trip behaviour,
/// `serde_json::from_str` decodes back to the same mapping. When the pair
/// sequence repeats a key, the last pair wins, exactly as in `map_of_pairs`.
/// Encoding succeeds: serde_json's encoder fails only for a failing
/// `Serialize` impl or a map with non-string keys, neither of which a map
/// from strings to strings can produce.
#[verifier::external_body]
fn render_cache_json(items: &Vec<(String, String)>) -> (r: Result<String, serde_json::Error>)
    ensures
        r is Ok,
        r matches Ok(text) ==> cache_json_of(text@) == Some(map_of_pairs(items@)),
{
    let m: std::collections::HashMap<String, String> = items.iter().cloned().collect();
    serde_json::to_string(&m)
}

/// The url cache for the whole program: resolved addresses by the query that
/// produced them.
pub struct Cache {
    /// Where the cache is persisted: `<platform-cache-dir>/playit`, or empty
    /// when the platform reports no cache directory.
    pub path: String,
    /// The entries, keyed by raw query text; keys are pairwise distinct.
    pub items: Vec<(String, String)>,
}

impl View for Cache {
    type V = Map<Seq<char>, Seq<char>>;

    open spec fn view(&self) -> Map<Seq<char>, Seq<char>> {
        map_of_pairs(self.items@)
    }
}

proof fn lemma_map_of_pairs_contains(s: Seq<(String, String)>, i: int)
    requires
        distinct_keys(s),
        0 <= i < s.len(),
    ensures
        map_of_pairs(s).contains_key(s[i].0@),
        map_of_pairs(s)[s[i].0@] == s[i].1@,
    decreases s.len(),
{
    if i == s.len() - 1 {
    } else {
        assert(s.drop_last()[i] == s[i]);
        lemma_map_of_pairs_contains(s.drop_last(), i);
        assert(s[i].0@ != s.last().0@);
    }
}

proof fn lemma_map_of_pairs_missing(s: Seq<(String, String)>, k: Seq<char>)
    requires
        forall|i: int| 0 <= i < s.len() ==> s[i].0@ != k,
    ensures
        !map_of_pairs(s).contains_key(k),
    decreases s.len(),
{
    if s.len() > 0 {
        assert(forall|i: int| 0 <= i < s.drop_last().len() ==> s.drop_last()[i] == s[i]);
        lemma_map_of_pairs_missing(s.drop_last(), k);
    }
}

proof fn lemma_map_of_pairs_push(s: Seq<(String, String)>, p: (String, String))
    ensures
        map_of_pairs(s.push(p)) == map_of_pairs(s).insert(p.0@, p.1@),
{
    assert(s.push(p).drop_last() =~= s);
    assert(s.push(p).last() == p);
}

proof fn lemma_map_of_pairs_update(s: Seq<(String, String)>, i: int, p: (String, String))
    requires
        distinct_keys(s),
        0 <= i < s.len(),
        s[i].0@ == p.0@,
    ensures
        map_of_pairs(s.update(i, p)) =~= map_of_pairs(s).insert(p.0@, p.1@),
    decreases s.len(),
{
    let t = s.update(i, p);
    if i == s.len() - 1 {
        assert(t.drop_last() =~= s.drop_last());
        assert(t.last() == p);
        assert(map_of_pairs(t) == map_of_pairs(s.drop_last()).insert(p.0@, p.1@));
        assert(map_of_pairs(s) == map_of_pairs(s.drop_last()).insert(s.last().0@, s.last().1@));
        assert(map_of_pairs(s.drop_last()).insert(s.last().0@, s.last().1@).insert(p.0@, p.1@)
            =~= map_of_pairs(s.drop_last()).insert(p.0@, p.1@));
    } else {
        assert(t.drop_last() =~= s.drop_last().update(i, p));
        assert(t.last() == s.last());
        assert(forall|a: int, b: int|
            0 <= a < b < s.drop_last().len() ==> s.drop_last()[a] == s[a] && s.drop_last()[b]
                == s[b]);
        assert(s.drop_last()[i] == s[i]);
        lemma_map_of_pairs_update(s.drop_last(), i, p);
        assert(map_of_pairs(t) == map_of_pairs(s.drop_last()).insert(p.0@, p.1@).insert(
            s.last().0@,
            s.last().1@,
        ));
        assert(p.0@ != s.last().0@);
        assert(map_of_pairs(s.drop_last()).insert(p.0@, p.1@).insert(s.last().0@, s.last().1@)
            =~= map_of_pairs(s.drop_last()).insert(s.last().0@, s.last().1@).insert(p.0@, p.1@));
    }
}

/// The backing-file path for the cache, given the platform's answer for the
/// cache directory: the `playit` file inside that directory, or the empty
/// path when the platform reported none.
pub fn derive_cache_path(dir: Option<String>) -> (r: String)
    ensures
        dir matches Some(d) ==> r@ == d@ + "/playit"@,
        dir is None ==> r@ == Seq::<char>::empty(),
{
    match dir {
        Some(d) => d.concat("/playit"),
        None => String::new(),
    }
}

impl Cache {
    /// The in-memory representation keeps its keys pairwise distinct, so the
    /// pair sequence and its map view carry the same information.
    pub open spec fn wf(&self) -> bool {
        distinct_keys(self.items@)
    }

    /// A fresh, empty cache whose backing file lives in the platform's cache
    /// directory; when the platform reports none, the path is left empty and
    /// persistence will fail with an io error instead.
    pub fn new() -> (r: Cache)
        ensures
            r.wf(),
            r@ == Map::<Seq<char>, Seq<char>>::empty(),
            r.items@.len() == 0,
            r.path@ == Seq::<char>::empty() || exists|dir: Seq<char>| r.path@ == dir + "/playit"@,
    {
        let path = derive_cache_path(platform_cache_dir());
        Cache { path, items: Vec::new() }
    }

    /// Decodes previously persisted content into the cache.
    ///
    /// On malformed content the cache reports corrupt data and is left
    /// untouched. Reading the backing file — and creating it with an empty
    /// object when it does not exist yet — is the caller's part.
    pub fn read(&mut self, content: &str) -> (r: Result<(), PlayError>)
        ensures
            final(self).path == old(self).path,
            r is Ok <==> cache_json_of(content@) is Some,
            r is Ok ==> Some(final(self)@) == cache_json_of(content@) && final(self).wf(),
            r matches Err(e) ==> e == PlayError::CorruptDataError && *final(self) == *old(self),
    {
        match parse_cache_json(content) {
            Ok(v) => {
                self.items = v;
                Ok(())
            },
            Err(_) => Err(PlayError::CorruptDataError),
        }
    }

    /// Records that `query` resolved to `url`: insert-or-overwrite, purely in
    /// memory; a later `write` persists it.
    pub fn add(&mut self, query: &str, url: &str)
        requires
            old(self).wf(),
        ensures
            final(self).wf(),
            final(self).path == old(self).path,
            final(self)@ == old(self)@.insert(query@, url@),
    {
        let ghost s0 = self.items@;
        let mut i: usize = 0;
        while i < self.items.len()
            invariant
                i <= self.items@.len(),
                self.items@ == s0,
                s0 == old(self).items@,
                self.path == old(self).path,
                distinct_keys(s0),
                forall|j: int| 0 <= j < i ==> s0[j].0@ != query@,
            decreases self.items@.len() - i,
        {
            if str_eq(self.items[i].0.as_str(), query) {
                let p = (query.to_owned(), url.to_owned());
                self.items.set(i, p);
                proof {
                    assert(self.items@ =~= s0.update(i as int, p));
                    lemma_map_of_pairs_update(s0, i as int, p);
                    assert forall|a: int, b: int|
                        0 <= a < b < self.items@.len() implies self.items@[a].0@
                        != self.items@[b].0@ by {
                        if a == i {
                            assert(self.items@[a].0@ == s0[a].0@);
                            assert(self.items@[b] == s0[b]);
                        } else if b == i {
                            assert(self.items@[b].0@ == s0[b].0@);
                            assert(self.items@[a] == s0[a]);
                        } else {
                            assert(self.items@[a] == s0[a] && self.items@[b] == s0[b]);
                        }
                    }
                }
                return ;
            }
            i += 1;
        }
        let p = (query.to_owned(), url.to_owned());
        self.items.push(p);
        proof {
            lemma_map_of_pairs_push(s0, p);
            assert forall|a: int, b: int|
                0 <= a < b < self.items@.len() implies self.items@[a].0@
                != self.items@[b].0@ by {
                if b == s0.len() {
                    assert(self.items@[a] == s0[a]);
                    assert(self.items@[b] == p);
                } else {
                    assert(self.items@[a] == s0[a] && self.items@[b] == s0[b]);
                }
            }
        }
    }

    /// Exact-match lookup of a previously resolved query; no normalization,
    /// no case folding.
    pub fn lookup(&self, query: &str) -> (r: Option<String>)
        requires
            self.wf(),
        ensures
            r is Some <==> self@.contains_key(query@),
            r matches Some(url) ==> url@ == self@[query@],
    {
        let mut i: usize = 0;
        while i < self.items.len()
            invariant
                i <= self.items@.len(),
                self.wf(),
                forall|j: int| 0 <= j < i ==> self.items@[j].0@ != query@,
            decreases self.items@.len() - i,
        {
            if str_eq(self.items[i].0.as_str(), query) {
                proof {
                    lemma_map_of_pairs_contains(self.items@, i as int);
                }
                return Some(self.items[i].1.clone());
            }
            i += 1;
        }
        proof {
            lemma_map_of_pairs_missing(self.items@, query@);
        }
        None
    }

    /// Encodes the whole mapping for persistence; the caller stores the
    /// returned text, replacing prior file content in full. Decoding the
    /// text yields exactly this mapping. Encoding a string-to-string
    /// mapping cannot fail, so success is owed on every input; the
    /// serialization-error branch is checked all the same.
    pub fn write(&self) -> (r: Result<String, PlayError>)
        ensures
            r is Ok,
            r matches Ok(text) ==> cache_json_of(text@) == Some(self@),
    {
        match render_cache_json(&self.items) {
            Ok(text) => Ok(text),
            Err(_) => Err(PlayError::SerializationError),
        }
    }
}

impl Default for Cache {
    /// Same as `Cache::new`.
    fn default() -> (r: Cache)
        ensures
            r.wf(),
            r@ == Map::<Seq<char>, Seq<char>>::empty(),
            r.items@.len() == 0,
            r.path@ == Seq::<char>::empty() || exists|dir: Seq<char>| r.path@ == dir + "/playit"@,
    {
        Cache::new()
    }
}

} // verus!
