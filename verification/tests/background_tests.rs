use std::sync::Arc;

use lyre::background::{
    apply_durations, apply_durations_shared, apply_fetch_result, fetch_channel_closed, lyrics_stale, PendingLyrics,
};
use lyre::types::{Lyrics, LyricsFetchResult, LyricsFetchStatus, LyricsState, Track};

fn track(path: &str, duration: i64) -> Track {
    Track {
        path: path.to_string(),
        artist: String::new(),
        album: String::new(),
        albumartist: String::new(),
        title: String::new(),
        duration,
        year: 0,
        genre: String::new(),
        added_at: 0,
        favorite: false,
        play_count: 0,
        last_played: 0,
    }
}

#[test]
fn pending_lyrics_replace_per_path() {
    let mut p = PendingLyrics::new();
    assert!(p.is_empty());
    p.insert("/a.mp3".to_string(), "one".to_string());
    p.insert("/b.mp3".to_string(), "two".to_string());
    p.insert("/a.mp3".to_string(), "three".to_string());
    assert_eq!(
        p.entries,
        vec![("/a.mp3".to_string(), "three".to_string()), ("/b.mp3".to_string(), "two".to_string())]
    );
}

#[test]
fn flushing_keeps_the_playing_track() {
    let mut p = PendingLyrics::new();
    p.insert("/a.mp3".to_string(), "one".to_string());
    p.insert("/b.mp3".to_string(), "two".to_string());
    p.insert("/c.mp3".to_string(), "three".to_string());
    let out = p.take_flushable(Some("/b.mp3"));
    assert_eq!(
        out,
        vec![("/a.mp3".to_string(), "one".to_string()), ("/c.mp3".to_string(), "three".to_string())]
    );
    assert_eq!(p.entries, vec![("/b.mp3".to_string(), "two".to_string())]);
    let rest = p.take_flushable(None);
    assert_eq!(rest.len(), 1);
    assert!(p.is_empty());
}

#[test]
fn found_lyrics_are_shown_and_kept_for_writing() {
    let mut l = LyricsState::new();
    l.scroll = 7;
    l.manual_scroll = true;
    l.fetch_status = LyricsFetchStatus::Fetching;
    let mut p = PendingLyrics::new();
    // The key of a one-second timestamp, as a player computes it.
    let one_second = 1.0f64.to_bits() as i64;
    let status = apply_fetch_result(
        &mut l,
        &mut p,
        LyricsFetchResult::Found { path: "/a.mp3".to_string(), text: "[00:01.00]hi".to_string() },
        &vec![Some(one_second)],
    );
    assert_eq!(status, Some("Lyrics fetched from lrclib".to_string()));
    assert_eq!(l.scroll, 0);
    assert!(!l.manual_scroll);
    assert_eq!(l.fetch_status, LyricsFetchStatus::Idle);
    match l.content {
        Some(Lyrics::Timed(lines)) => {
            assert_eq!(lines.len(), 1);
            assert_eq!(lines[0].timestamp, Some(one_second));
            assert_eq!(lines[0].text, "hi");
        },
        _ => panic!("expected timed lyrics"),
    }
    assert_eq!(p.entries, vec![("/a.mp3".to_string(), "[00:01.00]hi".to_string())]);
}

#[test]
fn failed_downloads_say_why() {
    let mut l = LyricsState::new();
    let mut p = PendingLyrics::new();
    assert_eq!(apply_fetch_result(&mut l, &mut p, LyricsFetchResult::NotFound, &vec![]), None);
    assert_eq!(l.fetch_status, LyricsFetchStatus::NotFound);
    apply_fetch_result(&mut l, &mut p, LyricsFetchResult::Error("timeout".to_string()), &vec![]);
    assert_eq!(l.fetch_status, LyricsFetchStatus::Error("timeout".to_string()));
    assert!(p.is_empty());
}

#[test]
fn closed_channel_fails_a_running_download() {
    let mut l = LyricsState::new();
    fetch_channel_closed(&mut l);
    assert_eq!(l.fetch_status, LyricsFetchStatus::Idle);
    l.fetch_status = LyricsFetchStatus::Fetching;
    fetch_channel_closed(&mut l);
    assert_eq!(l.fetch_status, LyricsFetchStatus::Error("channel closed".to_string()));
}

#[test]
fn lyrics_reload_when_track_changes() {
    let mut l = LyricsState::new();
    assert!(!lyrics_stale(&l, Some("/a.mp3")));
    l.visible = true;
    assert!(lyrics_stale(&l, Some("/a.mp3")));
    l.track_path = Some("/a.mp3".to_string());
    assert!(!lyrics_stale(&l, Some("/a.mp3")));
    assert!(lyrics_stale(&l, Some("/b.mp3")));
    assert!(lyrics_stale(&l, None));
}

#[test]
fn durations_go_to_the_first_track_of_a_path() {
    let mut ts = vec![track("/a", 0), track("/b", 0), track("/a", 0)];
    let ups = vec![("/a".to_string(), 100), ("/c".to_string(), 5), ("/a".to_string(), 200)];
    apply_durations(&mut ts, &ups);
    assert_eq!(ts[0].duration, 200);
    assert_eq!(ts[1].duration, 0);
    assert_eq!(ts[2].duration, 0);
    let mut shared = vec![Arc::new(track("/b", 1)), Arc::new(track("/a", 2))];
    apply_durations_shared(&mut shared, &ups);
    assert_eq!(shared[0].duration, 1);
    assert_eq!(shared[1].duration, 200);
}
