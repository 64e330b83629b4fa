use std::sync::Arc;

use lyre::favorites::{favorite_status, keep_favorites, mark_favorites, toggle_target};
use lyre::rows::{collapsed_line, expanded_lines, track_rows};
use lyre::status::{
    added_to_playlist_status, created_status, loop_status, playing_status, queued_many_status, queued_status,
    shuffle_status, sort_status,
};
use lyre::types::{LoopMode, Overlay, SortField, SortOrder, Track};
use lyre::view::ViewState;

fn track(path: &str, title: &str, artist: &str, album: &str, duration: i64, favorite: bool) -> Track {
    Track {
        path: path.to_string(),
        artist: artist.to_string(),
        album: album.to_string(),
        albumartist: String::new(),
        title: title.to_string(),
        duration,
        year: 0,
        genre: String::new(),
        added_at: 0,
        favorite,
        play_count: 0,
        last_played: 0,
    }
}

#[test]
fn collapsed_row_layout() {
    let t = track("/a.mp3", "Hello World", "Band", "LP", 65, true);
    let line = collapsed_line(&t, 100);
    let expected = format!("  ★  {:<27}  {:<28}  {:<28}  01:05", "Hello World", "Band", "LP");
    assert_eq!(line, expected);
}

#[test]
fn collapsed_row_cuts_long_fields() {
    let t = track("/a.mp3", "A very long title indeed", "Band", "LP", 0, false);
    let line = collapsed_line(&t, 40);
    // Title column 7 wide: six characters and an ellipsis.
    assert!(line.starts_with("     A very…  "));
    assert!(line.ends_with("--:--"));
}

#[test]
fn expanded_rows_wrap_the_title() {
    let t = track("/a.mp3", "Hello World Again", "Band", "LP", 65, true);
    let rows = expanded_lines(&t, 50);
    assert_eq!(rows.len(), 2);
    assert_eq!(rows[0], format!("  ★  {:<11}  {:<14}  {:<14}  01:05", "Hello World", "Band", "LP"));
    assert_eq!(rows[1], format!("     {:<11}  {:<14}  {:<14}", "Again", "", ""));
}

#[test]
fn rows_for_every_track() {
    let ts = vec![Arc::new(track("/a", "A", "X", "Y", 5, false)), Arc::new(track("/b", "B", "X", "Y", 3600, false))];
    let rows = track_rows(&ts, 60);
    assert_eq!(rows.len(), 2);
    assert!(rows[1].0.ends_with("01:00:00"));
    assert_eq!(rows[0].1.len(), 1);
}

#[test]
fn favorite_toggle_marks_when_one_is_unmarked() {
    let all = vec![
        Arc::new(track("/a", "A", "", "", 0, true)),
        Arc::new(track("/b", "B", "", "", 0, false)),
    ];
    assert!(toggle_target(&all, &vec!["/a".to_string(), "/b".to_string()]));
    assert!(!toggle_target(&all, &vec!["/a".to_string()]));
    assert!(!toggle_target(&all, &vec!["/zzz".to_string()]));
}

#[test]
fn marking_and_keeping_favorites() {
    let mut all = vec![
        Arc::new(track("/a", "A", "", "", 0, true)),
        Arc::new(track("/b", "B", "", "", 0, false)),
        Arc::new(track("/c", "C", "", "", 0, true)),
    ];
    mark_favorites(&mut all, &vec!["/a".to_string(), "/b".to_string()], false);
    assert!(!all[0].favorite && !all[1].favorite && all[2].favorite);
    let favs = keep_favorites(&all);
    assert_eq!(favs.len(), 1);
    assert_eq!(favs[0].path, "/c");
    assert_eq!(favorite_status(true, 1), "Favorited 1 track");
    assert_eq!(favorite_status(false, 3), "Unfavorited 3 tracks");
}

#[test]
fn chosen_paths_follow_selection_or_cursor() {
    let ts = vec![
        Arc::new(track("/a", "A", "", "", 0, false)),
        Arc::new(track("/b", "B", "", "", 0, false)),
        Arc::new(track("/c", "C", "", "", 0, false)),
    ];
    let mut v = ViewState::new(Overlay::Hidden);
    v.track_list_index = 1;
    assert_eq!(v.chosen_paths(&ts, false), vec!["/b".to_string()]);
    v.track_list_index = 7;
    assert!(v.chosen_paths(&ts, false).is_empty());
    assert_eq!(v.chosen_paths(&ts, true), vec!["/c".to_string()]);
    v.track_list_index = 0;
    v.selection_anchor = Some(4);
    assert_eq!(v.chosen_paths(&ts, true), vec!["/a".to_string(), "/b".to_string(), "/c".to_string()]);
}

#[test]
fn add_to_playlist_overlay_needs_playlists() {
    let ts = vec![Arc::new(track("/a", "A", "", "", 0, false))];
    let mut v = ViewState::new(Overlay::Hidden);
    assert_eq!(
        v.open_add_to_playlist(false, &ts),
        Some("No playlists — press N on the Playlists header to create one".to_string())
    );
    assert_eq!(v.overlay, Overlay::Hidden);
    assert_eq!(v.open_add_to_playlist(true, &ts), None);
    assert_eq!(v.overlay, Overlay::AddToPlaylist { track_paths: vec!["/a".to_string()] });
}

#[test]
fn status_lines() {
    assert_eq!(sort_status(SortField::Artist, SortOrder::Asc), "Sort: Artist ↑");
    assert_eq!(sort_status(SortField::Title, SortOrder::Desc), "Sort: Title ↓");
    assert_eq!(shuffle_status(true), "Shuffle: on");
    assert_eq!(shuffle_status(false), "Shuffle: off");
    assert_eq!(loop_status(LoopMode::Off), format!("Loop: {}", LoopMode::Off.label()));
    let t = track("/a.mp3", "Song", "Band", "", 0, false);
    assert_eq!(playing_status(&t), "Playing: Song — Band");
    assert_eq!(queued_status(&t), "Added to queue: Song");
    assert_eq!(queued_many_status(4), "Added 4 tracks to queue");
    assert_eq!(created_status("Mix"), "Created playlist: Mix");
    assert_eq!(added_to_playlist_status(1, "Mix"), "Added to Mix");
    assert_eq!(added_to_playlist_status(2, "Mix"), "Added 2 tracks to Mix");
}
