use std::sync::Arc;

use lyre::metadata::{apply_core, core_fields, editing_playing_track, saved_status, FieldValues};
use lyre::types::{EditField, PlayerState, Track};

fn track(path: &str, title: &str, year: i32) -> Track {
    Track {
        path: path.to_string(),
        artist: "Band".to_string(),
        album: "LP".to_string(),
        albumartist: String::new(),
        title: title.to_string(),
        duration: 100,
        year,
        genre: "Rock".to_string(),
        added_at: 7,
        favorite: true,
        play_count: 2,
        last_played: 3,
    }
}

#[test]
fn edit_buffers_type_and_delete() {
    let mut v = FieldValues::new();
    assert_eq!(v.text(EditField::Title), "");
    v.push(EditField::Title, 'a');
    v.push(EditField::Title, 'b');
    v.push(EditField::Genre, 'x');
    assert_eq!(v.text(EditField::Title), "ab");
    v.pop(EditField::Title);
    assert_eq!(v.text(EditField::Title), "a");
    v.pop(EditField::Comment);
    assert_eq!(v.text(EditField::Comment), "");
    assert_eq!(v.text(EditField::Genre), "x");
    v.set(EditField::Genre, "Jazz".to_string());
    assert_eq!(v.text(EditField::Genre), "Jazz");
}

#[test]
fn track_values_win_over_tags() {
    let mut v = FieldValues::new();
    v.set(EditField::Title, "From tag".to_string());
    v.set(EditField::Comment, "kept".to_string());
    v.overlay_track(&track("/a.mp3", "Song", 1999));
    assert_eq!(v.text(EditField::Title), "Song");
    assert_eq!(v.text(EditField::Year), "1999");
    assert_eq!(v.text(EditField::Comment), "kept");
    let mut w = FieldValues::new();
    w.overlay_track(&track("/a.mp3", "Song", 0));
    assert_eq!(w.text(EditField::Year), "");
}

#[test]
fn core_fields_read_the_year() {
    let mut v = FieldValues::new();
    v.set(EditField::Title, "New".to_string());
    v.set(EditField::Year, " 2001 ".to_string());
    let c = core_fields(&v);
    assert_eq!(c.title, "New");
    assert_eq!(c.artist, "");
    assert_eq!(c.year, 2001);
    v.set(EditField::Year, "abc".to_string());
    assert_eq!(core_fields(&v).year, 0);
}

#[test]
fn saving_updates_every_copy_of_the_track() {
    let mut v = FieldValues::new();
    v.overlay_track(&track("/a.mp3", "Song", 1999));
    v.set(EditField::Title, "Renamed".to_string());
    let c = core_fields(&v);
    let mut ts = vec![Arc::new(track("/a.mp3", "Song", 1999)), Arc::new(track("/b.mp3", "Other", 1))];
    apply_core(&mut ts, "/a.mp3", &c);
    assert_eq!(ts[0].title, "Renamed");
    assert_eq!(ts[0].duration, 100);
    assert!(ts[0].favorite);
    assert_eq!(ts[1].title, "Other");
}

#[test]
fn saving_the_playing_file_is_refused() {
    assert!(editing_playing_track("/a.mp3", Some("/a.mp3"), PlayerState::Playing));
    assert!(!editing_playing_track("/a.mp3", Some("/a.mp3"), PlayerState::Stopped));
    assert!(!editing_playing_track("/a.mp3", Some("/b.mp3"), PlayerState::Paused));
    assert!(!editing_playing_track("/a.mp3", None, PlayerState::Playing));
}

#[test]
fn saved_status_lines() {
    assert_eq!(saved_status(true, true, "Song", "/a.mp3"), "Saved metadata for Song");
    assert_eq!(saved_status(true, true, "", "/a.mp3"), "Saved metadata for /a.mp3");
    assert_eq!(saved_status(false, true, "Song", "/a.mp3"), "Failed to write tag to file.");
    assert_eq!(saved_status(true, false, "Song", "/a.mp3"), "Wrote tag but failed to update database.");
}
