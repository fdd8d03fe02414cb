//! Tests for the query cache and the playlist store: persistence round
//! trips, corrupt-data handling, and the resolution protocol.

use playit::cache::{derive_cache_path, Cache};
use playit::errors::PlayError;
use playit::playlist::{derive_default_playlist_path, AddStatus, Playlist};
use playit::resolver::{plan_resolution, Resolution};

fn sample_playlist() -> Playlist {
    Playlist::new("sample", Some("/tmp")).expect("prefix form never fails")
}

#[test]
fn cache_starts_empty() {
    let cache = Cache::new();
    assert!(cache.items.is_empty());
    assert_eq!(cache.lookup("anything"), None);
}

#[test]
fn cache_lookup_hits_and_misses() {
    // A cache file holding {"cat":"https://x/cat.mp4"}: "cat" is answered
    // from the cache, "dog" is a miss that sends the protocol to the
    // external resolver.
    let mut cache = Cache::new();
    let content = "{\"cat\":\"https://x/cat.mp4\"}";
    assert!(cache.read(content).is_ok());
    assert_eq!(cache.lookup("cat").as_deref(), Some("https://x/cat.mp4"));
    assert_eq!(cache.lookup("dog"), None);
    let plan = plan_resolution("dog", &cache, true);
    assert!(matches!(plan, Resolution::ResolveAndCache));
}

#[test]
fn cache_resolution_skips_second_resolver_call() {
    // An uncached query asks for external resolution once; after the result
    // is recorded, the same query is answered from the cache with the same
    // address and no further resolver call.
    let query = "daft punk one more time";
    let resolved = "https://x/one-more-time";
    let mut cache = Cache::new();
    assert!(cache.read("{}").is_ok());
    assert!(matches!(plan_resolution(query, &cache, true), Resolution::ResolveAndCache));

    cache.add(query, resolved);
    let persisted = cache.write().expect("string maps always encode");
    let mut reloaded = Cache::new();
    assert!(reloaded.read(&persisted).is_ok());
    match plan_resolution(query, &reloaded, true) {
        Resolution::Cached(url) => assert_eq!(url, resolved),
        other => panic!("expected a cache hit, got {:?}", other),
    }
}

#[test]
fn cache_add_overwrites_existing_key() {
    let mut cache = Cache::new();
    cache.add("q", "https://a");
    cache.add("q", "https://b");
    assert_eq!(cache.items.len(), 1);
    assert_eq!(cache.lookup("q").as_deref(), Some("https://b"));
}

#[test]
fn cache_read_rejects_malformed_content() {
    let mut cache = Cache::new();
    cache.add("q", "https://a");
    let r = cache.read("this is not json");
    assert_eq!(r, Err(PlayError::CorruptDataError));
    // The in-memory mapping is untouched by the failed read.
    assert_eq!(cache.lookup("q").as_deref(), Some("https://a"));
}

#[test]
fn cache_write_encodes_exactly() {
    let mut cache = Cache::new();
    cache.add("cat", "https://x/cat.mp4");
    let text = cache.write().expect("string maps always encode");
    assert_eq!(text, "{\"cat\":\"https://x/cat.mp4\"}");
}

#[test]
fn cache_unusable_degrades_to_plain_resolution() {
    let cache = Cache::new();
    let plan = plan_resolution("some query", &cache, false);
    assert!(matches!(plan, Resolution::ResolveWithoutCache));
}

#[test]
fn playlist_write_read_round_trip() {
    let mut playlist = sample_playlist();
    assert_eq!(playlist.add("https://x/a"), AddStatus::Appended);
    assert_eq!(playlist.add("https://x/b"), AddStatus::Appended);
    assert_eq!(playlist.add("https://x/a"), AddStatus::Appended);
    let text = playlist.write().expect("string sequences always encode");

    let mut fresh = sample_playlist();
    assert!(fresh.read(&text).is_ok());
    assert_eq!(fresh.items, vec!["https://x/a", "https://x/b", "https://x/a"]);
}

#[test]
fn playlist_write_encodes_exactly() {
    let mut playlist = sample_playlist();
    playlist.add_resolved("https://x/a");
    playlist.add_resolved("https://x/b");
    let text = playlist.write().expect("string sequences always encode");
    assert_eq!(text, "[\"https://x/a\",\"https://x/b\"]");
}

#[test]
fn playlist_read_rejects_malformed_content() {
    let mut playlist = sample_playlist();
    playlist.add_resolved("https://x/a");
    let r = playlist.read("[\"unterminated");
    assert_eq!(r, Err(PlayError::CorruptDataError));
    // Previously loaded items stay untouched.
    assert_eq!(playlist.items, vec!["https://x/a"]);
}

#[test]
fn playlist_read_accepts_empty_array() {
    let mut playlist = sample_playlist();
    playlist.add_resolved("https://x/a");
    assert!(playlist.read("[]").is_ok());
    assert!(playlist.items.is_empty());
}

#[test]
fn playlist_shuffle_keeps_items() {
    let mut playlist = sample_playlist();
    for i in 0..16 {
        playlist.add_resolved(&format!("https://x/{}", i));
    }
    let mut before = playlist.items.clone();
    playlist.shuffle();
    let mut after = playlist.items.clone();
    before.sort();
    after.sort();
    assert_eq!(before, after);

    // A shuffled playlist persists in its shuffled order.
    let text = playlist.write().expect("string sequences always encode");
    let mut fresh = sample_playlist();
    assert!(fresh.read(&text).is_ok());
    assert_eq!(fresh.items, playlist.items);
}

#[test]
fn playlist_remove_takes_first_match_only() {
    let mut playlist = sample_playlist();
    playlist.add_resolved("https://x/a");
    playlist.add_resolved("https://x/a");
    playlist.add_resolved("https://x/b");
    assert!(playlist.remove("https://x/a"));
    assert_eq!(playlist.items, vec!["https://x/a", "https://x/b"]);
}

#[test]
fn playlist_remove_twice_reports_miss_but_changes_nothing() {
    let mut playlist = sample_playlist();
    playlist.add_resolved("https://x/a");
    playlist.add_resolved("https://x/b");
    assert!(playlist.remove("https://x/a"));
    let after_first = playlist.items.clone();
    // The second removal finds nothing: reported as a miss, no change.
    assert!(!playlist.remove("https://x/a"));
    assert_eq!(playlist.items, after_first);
}

#[test]
fn playlist_remove_of_absent_value_is_a_noop() {
    let mut playlist = sample_playlist();
    playlist.add_resolved("https://x/a");
    assert!(!playlist.remove("https://x/never-there"));
    assert_eq!(playlist.items, vec!["https://x/a"]);
}

#[test]
fn cache_path_follows_the_platform_directory() {
    assert_eq!(derive_cache_path(Some("/home/user/.cache".to_string())), "/home/user/.cache/playit");
    assert_eq!(derive_cache_path(None), "");
}

#[test]
fn default_playlist_path_follows_the_platform_directory() {
    assert_eq!(
        derive_default_playlist_path(Some("/home/user/.config".to_string()), "mix"),
        Ok("/home/user/.config/playit/mix.pl".to_string())
    );
    assert_eq!(derive_default_playlist_path(None, "mix"), Err(PlayError::IOError));
}

#[test]
fn playlist_new_with_prefix_derives_path() {
    let playlist = Playlist::new("mine", Some("/data/lists")).expect("prefix form never fails");
    assert_eq!(playlist.path, "/data/lists/mine.pl");
    assert!(playlist.items.is_empty());
}

#[test]
fn playlist_add_defers_queries_to_the_resolver() {
    let mut playlist = sample_playlist();
    assert_eq!(playlist.add("daft punk one more time"), AddStatus::NeedsResolution);
    assert!(playlist.items.is_empty());
    playlist.add_resolved("https://x/one-more-time");
    assert_eq!(playlist.items, vec!["https://x/one-more-time"]);
}
