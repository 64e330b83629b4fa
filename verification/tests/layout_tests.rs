use std::sync::Arc;

use lyre::colors::{get_preset, Rgb};
use lyre::config::FilesConfig;
use lyre::layout::{header_line, row_look, scroll_offset, summary, tracks_title};
use lyre::startup::{
    missing_durations, no_database_status, parse_index, restored_loop_mode, restored_queue_index, restored_shuffle,
    setup_overlay,
};
use lyre::types::{LoopMode, Overlay, PlayerState, SetupField, SortField, SortOrder, Track};

fn track(path: &str, duration: i64) -> Track {
    Track {
        path: path.to_string(),
        artist: String::new(),
        album: String::new(),
        albumartist: String::new(),
        title: String::new(),
        duration,
        year: 0,
        genre: String::new(),
        added_at: 0,
        favorite: false,
        play_count: 0,
        last_played: 0,
    }
}

#[test]
fn scrolling_keeps_the_cursor_row_in_view() {
    let h = vec![1, 1, 1, 3, 1, 1];
    // Cursor above the view: the list starts at the cursor.
    assert_eq!(scroll_offset(&h, 1, 3, 4), 1);
    // Cursor below the view: the tall row ends at the bottom.
    assert_eq!(scroll_offset(&h, 3, 0, 4), 3);
    assert_eq!(scroll_offset(&h, 3, 0, 5), 2);
    // Cursor in view: nothing moves.
    assert_eq!(scroll_offset(&h, 2, 1, 4), 1);
    // Empty list.
    assert_eq!(scroll_offset(&Vec::new(), 5, 7, 4), 7);
    // A cursor past the end counts as on the last row.
    assert_eq!(scroll_offset(&h, 99, 0, 3), 4);
}

#[test]
fn panel_texts() {
    assert_eq!(tracks_title("2", SortField::Artist, SortOrder::Asc), " Tracks [2] — Artist ↑ ");
    let ts = vec![Arc::new(track("/a", 60)), Arc::new(track("/b", 65))];
    assert_eq!(summary(&ts), "(2 tracks, 02:05)");
    assert_eq!(summary(&vec![Arc::new(track("/a", 0))]), "(1 track, --:--)");
    assert_eq!(header_line(100), format!("  ★  {:<27}  {:<28}  {:<28} {:>4}", "Title", "Artist", "Album", "Dur"));
}

#[test]
fn row_looks() {
    let mut c = get_preset("Catppuccin").unwrap();
    c.selection_bg = Rgb { r: 1, g: 2, b: 3 };
    let sel = row_look(&c, true, false, false, true, PlayerState::Stopped);
    assert_eq!(sel.bg, Rgb { r: 1, g: 2, b: 3 });
    assert_eq!(sel.fg, c.highlight);
    assert!(sel.bold);
    let playing = row_look(&c, false, false, true, true, PlayerState::Playing);
    assert_eq!(playing.icon, '▶');
    assert_eq!(playing.fg, c.playing);
    assert_eq!(playing.bg, c.background);
    let multi = row_look(&c, false, true, false, false, PlayerState::Paused);
    assert_eq!(multi.icon, '*');
    assert_eq!(multi.fg, c.accent);
    assert_eq!(row_look(&c, false, false, true, false, PlayerState::Paused).icon, '⏸');
}

#[test]
fn saved_settings_are_restored() {
    assert_eq!(parse_index("42"), Some(42));
    assert_eq!(parse_index("+7"), Some(7));
    assert_eq!(parse_index(""), None);
    assert_eq!(parse_index("-1"), None);
    assert_eq!(parse_index("4x"), None);
    assert_eq!(parse_index("99999999999999999999999"), None);
    assert_eq!(restored_queue_index(Some("3"), 10), 3);
    assert_eq!(restored_queue_index(Some("30"), 10), 9);
    assert_eq!(restored_queue_index(Some("x"), 10), 0);
    assert_eq!(restored_queue_index(None, 10), 0);
    assert!(restored_shuffle(Some("true"), false));
    assert!(!restored_shuffle(Some("yes"), true));
    assert!(restored_shuffle(None, true));
    assert_eq!(restored_loop_mode(Some("one"), LoopMode::Off), LoopMode::One);
    assert_eq!(restored_loop_mode(Some("bogus"), LoopMode::All), LoopMode::Off);
    assert_eq!(restored_loop_mode(None, LoopMode::All), LoopMode::All);
}

#[test]
fn setup_without_database() {
    let files = FilesConfig {
        database_name: "~/.local/share/lyre/lyre.db".to_string(),
        music_directory: "~/Music".to_string(),
        file_pattern: None,
        ignore: None,
    };
    assert_eq!(
        setup_overlay(&files),
        Overlay::SetupDatabase {
            database_name: "~/.local/share/lyre/lyre.db".to_string(),
            music_directory: "~/Music".to_string(),
            active_field: SetupField::DatabaseName,
        }
    );
    assert!(no_database_status().starts_with("No database found."));
}

#[test]
fn tracks_without_duration_are_listed() {
    let ts = vec![Arc::new(track("/a", 0)), Arc::new(track("/b", 12)), Arc::new(track("/c", -1))];
    assert_eq!(missing_durations(&ts), vec!["/a".to_string(), "/c".to_string()]);
}
