use lyre::playlist::{parse_m3u, sort_playlists, Playlist};

fn pl(name: &str, entries: &[&str]) -> Playlist {
    Playlist {
        name: name.to_string(),
        path: format!("/music/{}.m3u", name),
        entries: entries.iter().map(|e| e.to_string()).collect(),
    }
}

#[test]
fn entries_skip_comments_and_blanks() {
    let text = "#EXTM3U\n\n  /music/a.flac  \n# note\nsub/b.mp3\r\n";
    assert_eq!(parse_m3u(text, "/music/lists"), vec!["/music/a.flac".to_string(), "/music/lists/sub/b.mp3".to_string()]);
}

#[test]
fn relative_entries_without_directory() {
    assert_eq!(parse_m3u("a.mp3", ""), vec!["a.mp3".to_string()]);
}

#[test]
fn playlist_from_file_text() {
    let p = Playlist::from_text("/music/lists/Road Trip.m3u8", "x.flac\n/abs/y.mp3\n");
    assert_eq!(p.name, "Road Trip");
    assert_eq!(p.path, "/music/lists/Road Trip.m3u8");
    assert_eq!(p.entries, vec!["/music/lists/x.flac".to_string(), "/abs/y.mp3".to_string()]);
}

#[test]
fn written_text_ends_every_entry_with_newline() {
    assert_eq!(pl("p", &["/a", "/b"]).to_text(), "/a\n/b\n");
    assert_eq!(pl("p", &[]).to_text(), "\n");
}

#[test]
fn write_then_read_gives_same_entries() {
    let p = pl("p", &["/music/a.flac", "/music/b c.mp3"]);
    let back = Playlist::from_text(&p.path, &p.to_text());
    assert_eq!(back.entries, p.entries);
    let empty = pl("e", &[]);
    assert_eq!(Playlist::from_text(&empty.path, &empty.to_text()).entries, Vec::<String>::new());
}

#[test]
fn adding_is_idempotent() {
    let mut p = pl("p", &["/a"]);
    p.add_entry("/b");
    p.add_entry("/b");
    p.add_entry("/a");
    assert_eq!(p.entries, vec!["/a".to_string(), "/b".to_string()]);
}

#[test]
fn remove_out_of_range_does_nothing() {
    let mut p = pl("p", &["/a", "/b"]);
    p.remove_entry(5);
    assert_eq!(p.entries.len(), 2);
    p.remove_entry(0);
    assert_eq!(p.entries, vec!["/b".to_string()]);
}

#[test]
fn move_up_then_down_restores() {
    let mut p = pl("p", &["/a", "/b", "/c"]);
    p.move_entry_up(2);
    assert_eq!(p.entries, vec!["/a".to_string(), "/c".to_string(), "/b".to_string()]);
    p.move_entry_down(1);
    assert_eq!(p.entries, vec!["/a".to_string(), "/b".to_string(), "/c".to_string()]);
    p.move_entry_up(0);
    p.move_entry_down(2);
    assert_eq!(p.entries, vec!["/a".to_string(), "/b".to_string(), "/c".to_string()]);
}

#[test]
fn created_playlist_is_empty() {
    let p = Playlist::create("/m/new.m3u", "new");
    assert_eq!(p.name, "new");
    assert!(p.entries.is_empty());
}

#[test]
fn playlists_sorted_by_name_ignoring_case() {
    let sorted = sort_playlists(vec![pl("beta", &[]), pl("Alpha", &[]), pl("ALPHA", &["/x"]), pl("gamma", &[])]);
    let names: Vec<&str> = sorted.iter().map(|p| p.name.as_str()).collect();
    assert_eq!(names, vec!["Alpha", "ALPHA", "beta", "gamma"]);
}

#[test]
fn lowercasing_is_unicode_aware() {
    let sorted = sort_playlists(vec![pl("Zebra", &[]), pl("Ábc", &[]), pl("ábd", &[])]);
    let names: Vec<&str> = sorted.iter().map(|p| p.name.as_str()).collect();
    // "zebra" < "ábc" < "ábd" by code point once lower-cased.
    assert_eq!(names, vec!["Zebra", "Ábc", "ábd"]);
}
