use lyre::playlist::{new_playlist_path, Playlist};
use lyre::types::Overlay;
use lyre::view::ViewState;

fn pl(name: &str, entries: &[&str]) -> Playlist {
    Playlist {
        name: name.to_string(),
        path: format!("/music/{}.m3u8", name),
        entries: entries.iter().map(|e| e.to_string()).collect(),
    }
}

#[test]
fn remove_rows_of_a_block() {
    let mut p = pl("Mix", &["a", "b", "c", "d", "e"]);
    p.remove_rows(1, 3);
    assert_eq!(p.entries, vec!["a", "e"]);
    let mut q = pl("Mix", &["a", "b"]);
    q.remove_rows(1, 9);
    assert_eq!(q.entries, vec!["a"]);
}

#[test]
fn move_block_up_and_down() {
    let mut p = pl("Mix", &["a", "b", "c", "d", "e"]);
    p.move_rows_up(2, 3);
    assert_eq!(p.entries, vec!["a", "c", "d", "b", "e"]);
    p.move_rows_down(1, 2);
    assert_eq!(p.entries, vec!["a", "b", "c", "d", "e"]);
    p.move_rows_up(0, 1);
    assert_eq!(p.entries, vec!["a", "b", "c", "d", "e"]);
    p.move_rows_down(3, 4);
    assert_eq!(p.entries, vec!["a", "b", "c", "e", "d"]);
}

#[test]
fn removing_from_the_shown_playlist() {
    let mut pls = vec![pl("Other", &["x"]), pl("Mix", &["a", "b", "c"])];
    let mut v = ViewState::new(Overlay::Hidden);
    v.track_list_index = 1;
    assert_eq!(v.remove_from_playlist(&mut pls, "Mix"), Some("Removed from playlist".to_string()));
    assert_eq!(pls[1].entries, vec!["a", "c"]);
    assert_eq!(pls[0].entries, vec!["x"]);
    v.track_list_index = 0;
    v.selection_anchor = Some(1);
    assert_eq!(v.remove_from_playlist(&mut pls, "Mix"), Some("Removed 2 tracks from playlist".to_string()));
    assert!(pls[1].entries.is_empty());
    assert_eq!(v.selection_anchor, None);
    assert_eq!(v.remove_from_playlist(&mut pls, "Nope"), None);
}

#[test]
fn moving_the_selection_moves_cursor_and_anchor() {
    let mut pls = vec![pl("Mix", &["a", "b", "c", "d"])];
    let mut v = ViewState::new(Overlay::Hidden);
    v.track_list_index = 2;
    v.selection_anchor = Some(1);
    assert!(v.move_up_in_playlist(&mut pls, "Mix"));
    assert_eq!(pls[0].entries, vec!["b", "c", "a", "d"]);
    assert_eq!(v.track_list_index, 1);
    assert_eq!(v.selection_anchor, Some(0));
    assert!(!v.move_up_in_playlist(&mut pls, "Mix"));
    assert_eq!(v.track_list_index, 1);
    assert!(v.move_down_in_playlist(&mut pls, "Mix", 4));
    assert_eq!(pls[0].entries, vec!["a", "b", "c", "d"]);
    assert_eq!(v.track_list_index, 2);
    assert_eq!(v.selection_anchor, Some(1));
}

#[test]
fn moving_a_single_row() {
    let mut pls = vec![pl("Mix", &["a", "b", "c"])];
    let mut v = ViewState::new(Overlay::Hidden);
    v.track_list_index = 2;
    v.move_down_in_playlist(&mut pls, "Mix", 3);
    assert_eq!(pls[0].entries, vec!["a", "b", "c"]);
    assert_eq!(v.track_list_index, 2);
    v.move_up_in_playlist(&mut pls, "Mix");
    assert_eq!(pls[0].entries, vec!["a", "c", "b"]);
    assert_eq!(v.track_list_index, 1);
    v.step_back_past_end(1);
    assert_eq!(v.track_list_index, 0);
}

#[test]
fn new_playlist_file_path() {
    assert_eq!(new_playlist_path("/music", "Road/Trip"), "/music/Road_Trip.m3u8");
    assert_eq!(new_playlist_path("/music/", "Mix"), "/music/Mix.m3u8");
}
