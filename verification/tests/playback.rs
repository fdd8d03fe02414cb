//! Tests for input classification, resolver output cleanup, playback
//! selection, player argument construction, and the reported messages.

use playit::errors::PlayError;
use playit::log;
use playit::mpv::{build_playback_flags, render_flag, u8_to_decimal, Flag, Mpv};
use playit::playlist::Playlist;
use playit::resolver::{clean_search_output, finish_resolution, plan_resolution, Resolution};
use playit::utils::is_url;

fn rendered(flags: &[Flag]) -> Vec<String> {
    flags.iter().map(render_flag).collect()
}

#[test]
fn classification_of_addresses_and_queries() {
    // A direct address needs no resolution; free text is a search query.
    assert!(is_url("https://example.com/a"));
    assert!(!is_url("daft punk one more time"));
}

#[test]
fn classification_is_a_narrow_prefix_match() {
    assert!(is_url("http://example.com"));
    assert!(is_url("https://"));
    assert!(!is_url("ftp://example.com"));
    assert!(!is_url("HTTP://example.com"));
    assert!(!is_url("/home/user/song.mp3"));
    assert!(!is_url(""));
    assert!(!is_url("http:/"));
}

#[test]
fn direct_addresses_bypass_cache_and_resolver() {
    let cache = playit::cache::Cache::new();
    match plan_resolution("https://example.com/a", &cache, true) {
        Resolution::Direct(a) => assert_eq!(a, "https://example.com/a"),
        other => panic!("expected direct use, got {:?}", other),
    }
}

#[test]
fn search_output_is_stripped_of_quotes_and_newlines() {
    assert_eq!(clean_search_output("\"https://x/video\"\n"), "https://x/video");
    assert_eq!(clean_search_output("plain"), "plain");
    assert_eq!(clean_search_output("\"\"\n\n"), "");
    assert_eq!(clean_search_output("a\"b\nc"), "abc");
}

#[test]
fn resolver_outcome_is_cleaned_or_reported() {
    let ok = finish_resolution(Ok("\"https://x/found\"\n".to_string()));
    assert_eq!(ok, Ok("https://x/found".to_string()));
    let err = finish_resolution(Err("the search tool went missing".to_string()));
    assert_eq!(err, Err(PlayError::ResolutionError));
}

#[test]
fn empty_playlist_is_fatal_for_playback() {
    let playlist = Playlist::new("empty", Some("/tmp")).expect("prefix form never fails");
    let r = playlist.playback_selection();
    assert_eq!(r.unwrap_err(), PlayError::EmptyPlaylistError);
    assert_eq!(
        PlayError::EmptyPlaylistError.message(),
        "the playlist is empty; nothing to play"
    );
}

#[test]
fn playback_selection_splits_first_and_rest() {
    let mut playlist = Playlist::new("full", Some("/tmp")).expect("prefix form never fails");
    playlist.add_resolved("https://x/a");
    playlist.add_resolved("https://x/b");
    playlist.add_resolved("https://x/c");
    let (first, rest) = playlist.playback_selection().expect("non-empty");
    assert_eq!(first, "https://x/a");
    assert_eq!(rest, vec!["https://x/b", "https://x/c"]);
}

#[test]
fn volume_renders_in_decimal() {
    assert_eq!(u8_to_decimal(0), "0");
    assert_eq!(u8_to_decimal(7), "7");
    assert_eq!(u8_to_decimal(42), "42");
    assert_eq!(u8_to_decimal(100), "100");
    assert_eq!(u8_to_decimal(255), "255");
}

#[test]
fn default_playback_flags() {
    // Background audio playback: no video, explicit volume.
    let flags = build_playback_flags(false, false, 100, false, false);
    assert_eq!(rendered(&flags), vec!["--no-video", "--volume=100"]);
}

#[test]
fn full_playback_flags_in_order() {
    let flags = build_playback_flags(false, true, 30, true, true);
    assert_eq!(rendered(&flags), vec!["--no-audio", "--volume=30", "--mute", "--loop"]);
}

#[test]
fn window_playback_omits_no_video() {
    let flags = build_playback_flags(true, false, 55, false, false);
    assert_eq!(rendered(&flags), vec!["--volume=55"]);
}

#[test]
fn player_arguments_start_with_the_media() {
    let flags = build_playback_flags(false, false, 80, true, false);
    let mpv = Mpv::new("https://x/song".to_string(), Some(flags));
    let args = mpv.build_args();
    assert_eq!(args, vec!["https://x/song", "--no-video", "--volume=80", "--mute"]);

    let bare = Mpv::new("https://x/song".to_string(), None);
    assert_eq!(bare.build_args(), vec!["https://x/song"]);
}

#[test]
fn auxiliary_playlist_items_become_bare_flags() {
    // How a playlist becomes one player invocation: first item is the
    // primary media, the rest ride along as additional arguments.
    let mut playlist = Playlist::new("ride", Some("/tmp")).expect("prefix form never fails");
    playlist.add_resolved("https://x/a");
    playlist.add_resolved("https://x/b");
    let (first, rest) = playlist.playback_selection().expect("non-empty");
    let mut flags = build_playback_flags(false, false, 100, false, false);
    for aux in &rest {
        flags.push(Flag::Bare(aux.clone()));
    }
    let mpv = Mpv::new(first, Some(flags));
    assert_eq!(
        mpv.build_args(),
        vec!["https://x/a", "--no-video", "--volume=100", "https://x/b"]
    );
}

#[test]
fn log_lines_carry_their_level() {
    assert_eq!(log::info("cache loaded"), "info: cache loaded");
    assert_eq!(log::warning("cache skipped"), "warning: cache skipped");
    assert_eq!(log::error("no playlist"), "error: no playlist");
}

#[test]
fn spawn_details_mention_the_media() {
    let flags = build_playback_flags(false, false, 100, false, false);
    assert_eq!(
        playit::mpv::log_spawn_details("https://x/a", &Some(flags)),
        "info: mpv spawn details for https://x/a (with arguments)"
    );
    assert_eq!(
        playit::mpv::log_spawn_details("https://x/a", &None),
        "info: mpv spawn details for https://x/a (no arguments provided)"
    );
}

#[test]
fn error_messages_name_their_condition() {
    assert_eq!(PlayError::IOError.message(), "unable to read or write the backing file");
    assert_eq!(
        PlayError::CorruptDataError.message(),
        "the stored data is malformed; it might be corrupted"
    );
    assert_eq!(
        PlayError::SerializationError.message(),
        "failed to encode the in-memory state for writing"
    );
    assert_eq!(
        PlayError::ResolutionError.message(),
        "the external resolver did not return a usable address"
    );
    assert_eq!(PlayError::SpawnError.message(), "unable to launch the external player");
}
