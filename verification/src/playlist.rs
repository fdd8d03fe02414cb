//! Named, ordered playlists of resolved media addresses.
//!
//! A playlist is an ordered sequence of address strings backed by one file
//! whose location is derived from the playlist's name. Order is significant
//! and preserved across persistence, duplicates are allowed, and an empty
//! sequence is valid. Persistence works on plain strings: `read` decodes
//! file content the caller obtained, `write` produces the content the
//! caller should store.

use vstd::prelude::*;

use crate::errors::PlayError;
use crate::external::{platform_config_dir, shuffle_strings};
use crate::utils::{is_url, spec_is_url, str_eq};

verus! {

/// What `serde_json::from_str::<Vec<String>>` decodes from a text: `None`
/// when the text is not a JSON array of strings, otherwise the decoded
/// sequence. A function of the text alone.
pub uninterp spec fn playlist_json_of(s: Seq<char>) -> Option<Seq<Seq<char>>>;

/// What `serde_json::to_string::<Vec<String>>` encodes a sequence of strings
/// to. A function of the items alone.
pub uninterp spec fn playlist_json_text(items: Seq<Seq<char>>) -> Seq<char>;

/// Relies on `serde_json::from_str::<Vec<String>>`: decodes a JSON array of
/// strings, in order, or fails; the outcome is a function of the text alone,
/// named `playlist_json_of`.
#[verifier::external_body]
fn parse_playlist_json(content: &str) -> (r: Result<Vec<String>, serde_json::Error>)
    ensures
        r is Ok <==> playlist_json_of(content@) is Some,
        r matches Ok(v) ==> Some(v.deep_view()) == playlist_json_of(content@),
{
    serde_json::from_str::<Vec<String>>(content)
}

/// Relies on `serde_json::to_string::<Vec<String>>`: encodes the items as a
/// JSON array of strings, a function of the items alone, named
/// `playlist_json_text`; per serde_json's round-trip behaviour,
/// `serde_json::from_str` decodes that text back to the same items.
/// Encoding succeeds: serde_json's encoder fails only for a failing
/// `Serialize` impl or a map with non-string keys, neither of which a
/// vector of strings can produce.
#[verifier::external_body]
fn render_playlist_json(items: &Vec<String>) -> (r: Result<String, serde_json::Error>)
    ensures
        r is Ok,
        r matches Ok(text) ==> text@ == playlist_json_text(items.deep_view()),
        r matches Ok(text) ==> playlist_json_of(text@) == Some(items.deep_view()),
{
    serde_json::to_string(items)
}

/// What became of an `add`: the input was an address and was appended, or it
/// is a search query that the caller must resolve first.
#[derive(Clone, Copy, Debug, PartialEq, Eq, Structural)]
pub enum AddStatus {
    Appended,
    NeedsResolution,
}

/// A named ordered sequence of media addresses with a backing file.
pub struct Playlist {
    /// Where the playlist is persisted: `<prefix>/<name>.pl` under a
    /// caller-supplied prefix, or `<platform-config-dir>/playit/<name>.pl`.
    pub path: String,
    /// The addresses, in playback order; duplicates are allowed.
    pub items: Vec<String>,
}

impl View for Playlist {
    type V = Seq<Seq<char>>;

    open spec fn view(&self) -> Seq<Seq<char>> {
        self.items.deep_view()
    }
}

/// The default backing-file path for a playlist, given the platform's
/// answer for the configuration directory: `<dir>/playit/<name>.pl`, or the
/// io error when the platform reported no directory.
pub fn derive_default_playlist_path(dir: Option<String>, name: &str) -> (r: Result<
    String,
    PlayError,
>)
    ensures
        dir matches Some(d) ==> (r matches Ok(p) && p@ == d@ + "/playit/"@ + name@ + ".pl"@),
        dir is None ==> (r matches Err(e) && e == PlayError::IOError),
{
    match dir {
        Some(d) => Ok(d.concat("/playit/").concat(name).concat(".pl")),
        None => Err(PlayError::IOError),
    }
}

impl Playlist {
    /// A fresh, empty playlist named `name`.
    ///
    /// With a prefix directory the backing file is `<prefix>/<name>.pl`;
    /// otherwise it lives under `playit` in the platform's configuration
    /// directory, and when the platform reports none, the error is handed to
    /// the caller instead of aborting.
    pub fn new(name: &str, prefix: Option<&str>) -> (r: Result<Playlist, PlayError>)
        ensures
            r matches Ok(p) ==> p@ == Seq::<Seq<char>>::empty() && (prefix is None
                ==> exists|dir: Seq<char>| p.path@ == dir + "/playit/"@ + name@ + ".pl"@),
            prefix matches Some(pre) ==> r matches Ok(p) && p.path@ == pre@ + "/"@ + name@
                + ".pl"@,
            r matches Err(e) ==> e == PlayError::IOError && prefix is None,
    {
        let path: String = match prefix {
            Some(pre) => pre.to_owned().concat("/").concat(name).concat(".pl"),
            None => {
                match derive_default_playlist_path(platform_config_dir(), name) {
                    Ok(path) => path,
                    Err(e) => {
                        return Err(e);
                    },
                }
            },
        };
        let p = Playlist { path, items: Vec::new() };
        proof {
            assert(p@ =~= Seq::<Seq<char>>::empty());
        }
        Ok(p)
    }

    /// Decodes previously persisted content into the playlist, replacing the
    /// in-memory sequence.
    ///
    /// On malformed content the playlist reports corrupt data and the
    /// previously loaded items are left untouched. Reading the backing file
    /// is the caller's part; a missing file is the caller's to detect.
    pub fn read(&mut self, content: &str) -> (r: Result<(), PlayError>)
        ensures
            final(self).path == old(self).path,
            r is Ok <==> playlist_json_of(content@) is Some,
            r is Ok ==> Some(final(self)@) == playlist_json_of(content@),
            r matches Err(e) ==> e == PlayError::CorruptDataError && *final(self) == *old(self),
    {
        match parse_playlist_json(content) {
            Ok(v) => {
                self.items = v;
                Ok(())
            },
            Err(_) => Err(PlayError::CorruptDataError),
        }
    }

    /// Adds a direct address to the end of the playlist, or reports that the
    /// input is a search query still to be resolved.
    ///
    /// The caller resolves such a query externally and appends the result
    /// with `add_resolved`; when resolution fails the sequence simply stays
    /// as it is, a non-fatal outcome.
    pub fn add(&mut self, query: &str) -> (r: AddStatus)
        ensures
            final(self).path == old(self).path,
            spec_is_url(query@) ==> r == AddStatus::Appended && final(self)@ == old(self)@.push(
                query@,
            ),
            !spec_is_url(query@) ==> r == AddStatus::NeedsResolution && *final(self) == *old(
                self,
            ),
    {
        if is_url(query) {
            self.append_address(query.to_owned());
            AddStatus::Appended
        } else {
            AddStatus::NeedsResolution
        }
    }

    /// Appends an already resolved address to the end of the playlist.
    pub fn add_resolved(&mut self, address: &str)
        ensures
            final(self).path == old(self).path,
            final(self)@ == old(self)@.push(address@),
    {
        self.append_address(address.to_owned());
    }

    fn append_address(&mut self, address: String)
        ensures
            final(self).path == old(self).path,
            final(self)@ == old(self)@.push(address@),
    {
        let ghost v0 = self.items@;
        self.items.push(address);
        proof {
            assert(self@ =~= old(self)@.push(address@)) by {
                assert(forall|j: int| 0 <= j < v0.len() ==> self.items@[j] == v0[j]);
                assert(self.items@[v0.len() as int]@ == address@);
            }
        }
    }

    /// Removes the first item that exactly equals `query`; when no item
    /// matches, the sequence is unchanged and `false` reports the miss,
    /// a non-fatal outcome. Duplicates beyond the first match stay.
    pub fn remove(&mut self, query: &str) -> (r: bool)
        ensures
            final(self).path == old(self).path,
            r == old(self)@.contains(query@),
            final(self)@ == old(self)@.remove_value(query@),
            !r ==> *final(self) == *old(self),
    {
        let ghost d0 = self@;
        let mut i: usize = 0;
        while i < self.items.len()
            invariant
                i <= self.items@.len(),
                *self == *old(self),
                d0 == self@,
                forall|j: int| 0 <= j < i ==> self@[j] != query@,
            decreases self.items@.len() - i,
        {
            if str_eq(self.items[i].as_str(), query) {
                proof {
                    assert(d0[i as int] == query@);
                    d0.index_of_first_ensures(query@);
                    assert(d0.contains(query@)) by {
                        assert(0 <= i as int <= d0.len() - 1 && d0[i as int] == query@);
                    }
                    assert(d0.index_of_first(query@) == Some(i as int));
                }
                self.items.remove(i);
                proof {
                    d0.remove_ensures(i as int);
                    assert(self@ =~= d0.remove(i as int)) by {
                        assert(forall|j: int|
                            0 <= j < i ==> self.items@[j] == old(self).items@[j]);
                        assert(forall|j: int|
                            i <= j < self.items@.len() ==> self.items@[j] == old(
                                self,
                            ).items@[j + 1]);
                    }
                }
                return true;
            }
            i += 1;
        }
        proof {
            assert(!d0.contains(query@)) by {
                if d0.contains(query@) {
                    let w = choose|w: int| 0 <= w <= d0.len() - 1 && d0[w] == query@;
                    assert(d0[w] != query@);
                }
            }
            d0.index_of_first_ensures(query@);
        }
        false
    }

    /// Reorders the items at random, purely in memory; the items themselves
    /// are kept, as a multiset. Nothing reaches the backing file until
    /// `write`.
    pub fn shuffle(&mut self)
        ensures
            final(self).path == old(self).path,
            final(self)@.to_multiset() == old(self)@.to_multiset(),
            final(self)@.len() == old(self)@.len(),
    {
        shuffle_strings(&mut self.items);
    }

    /// Encodes the whole sequence for persistence; the caller stores the
    /// returned text, replacing prior file content in full. Decoding the
    /// text yields exactly this sequence, in order — the persistence
    /// round trip. Encoding a vector of strings cannot fail, so success is
    /// owed on every input; the serialization-error branch is checked all
    /// the same.
    pub fn write(&self) -> (r: Result<String, PlayError>)
        ensures
            r is Ok,
            r matches Ok(text) ==> text@ == playlist_json_text(self@),
            r matches Ok(text) ==> playlist_json_of(text@) == Some(self@),
    {
        match render_playlist_json(&self.items) {
            Ok(text) => Ok(text),
            Err(_) => Err(PlayError::SerializationError),
        }
    }

    /// Splits the playlist for playback: the first item is the primary
    /// address, the remaining items are the auxiliary arguments for the
    /// player. An empty playlist is a fatal, reported condition for
    /// playback, and nothing is handed to the player.
    pub fn playback_selection(&self) -> (r: Result<(String, Vec<String>), PlayError>)
        ensures
            r is Ok <==> self@.len() > 0,
            r matches Err(e) ==> e == PlayError::EmptyPlaylistError,
            r matches Ok(sel) ==> sel.0@ == self@[0] && sel.1.deep_view() == self@.skip(1),
    {
        if self.items.len() == 0 {
            return Err(PlayError::EmptyPlaylistError);
        }
        let first = self.items[0].clone();
        let mut rest: Vec<String> = Vec::new();
        let mut i: usize = 1;
        while i < self.items.len()
            invariant
                1 <= i <= self.items@.len(),
                rest.deep_view() =~= self@.subrange(1, i as int),
            decreases self.items@.len() - i,
        {
            let ghost r0 = rest.deep_view();
            rest.push(self.items[i].clone());
            proof {
                assert(rest.deep_view() =~= self@.subrange(1, i as int + 1)) by {
                    assert(forall|j: int| 0 <= j < r0.len() ==> rest.deep_view()[j] == r0[j]);
                    assert(rest.deep_view()[r0.len() as int] == self@[i as int]);
                }
            }
            i += 1;
        }
        proof {
            assert(self@.subrange(1, self@.len() as int) =~= self@.skip(1));
        }
        Ok((first, rest))
    }
}

/// Removing a value, and then removing it again, changes nothing the second
/// time: once the first occurrence is gone, a second removal finds nothing
/// and is a no-op. Stated for sequences in which the value occurs at most
/// once; with duplicates present, a second removal would take the next
/// occurrence instead.
pub proof fn lemma_remove_twice_is_remove_once(s: Seq<Seq<char>>, x: Seq<char>)
    requires
        forall|i: int, j: int| 0 <= i < j < s.len() ==> !(s[i] == x && s[j] == x),
    ensures
        s.remove_value(x).remove_value(x) == s.remove_value(x),
{
    s.index_of_first_ensures(x);
    match s.index_of_first(x) {
        Some(fi) => {
            let t = s.remove(fi);
            s.remove_ensures(fi);
            assert forall|k: int| 0 <= k < t.len() implies t[k] != x by {
                if k < fi {
                    assert(t[k] == s[k]);
                } else {
                    assert(t[k] == s[k + 1]);
                }
            }
            assert(!t.contains(x)) by {
                if t.contains(x) {
                    let w = choose|w: int| 0 <= w <= t.len() - 1 && t[w] == x;
                    assert(t[w] != x);
                }
            }
            t.index_of_first_ensures(x);
        },
        None => {
        },
    }
}

} // verus!
