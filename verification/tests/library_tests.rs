use std::sync::Arc;

use lyre::library::{
    clamp_sidebar_index, filter_tracks, fuzzy_search_tracks, global_search, playlist_tracks, recently_added_tracks,
    section_filter, selection_sort, selection_tracks, sidebar_items, sort_tracks, SidebarExpanded, TrackFilter,
};
use lyre::playlist::Playlist;
use lyre::types::{GlobalSearchResult, SidebarItem, SortField, SortOrder, Track};

fn t(path: &str, title: &str, artist: &str, album: &str, genre: &str, year: i32, added: i64, fav: bool) -> Arc<Track> {
    Arc::new(Track {
        path: path.to_string(),
        artist: artist.to_string(),
        album: album.to_string(),
        albumartist: String::new(),
        title: title.to_string(),
        duration: 100,
        year,
        genre: genre.to_string(),
        added_at: added,
        favorite: fav,
        play_count: 0,
        last_played: 0,
    })
}

fn library() -> Vec<Arc<Track>> {
    vec![
        t("/1", "Zulu", "beta", "One", "Rock, Pop", 2001, 30, false),
        t("/2", "alpha", "Alpha", "Two", "jazz", 1999, 10, true),
        t("/3", "Mike", "gamma", "one", "pop", 2001, 20, false),
    ]
}

fn paths(v: &[Arc<Track>]) -> Vec<String> {
    v.iter().map(|x| x.path.clone()).collect()
}

#[test]
fn sort_by_text_ignores_case() {
    let s = sort_tracks(library(), SortField::Title, SortOrder::Asc);
    assert_eq!(paths(&s), vec!["/2", "/3", "/1"]);
    let d = sort_tracks(library(), SortField::Title, SortOrder::Desc);
    assert_eq!(paths(&d), vec!["/1", "/3", "/2"]);
}

#[test]
fn sort_is_stable() {
    let s = sort_tracks(library(), SortField::Year, SortOrder::Asc);
    assert_eq!(paths(&s), vec!["/2", "/1", "/3"]);
    let d = sort_tracks(library(), SortField::Year, SortOrder::Desc);
    assert_eq!(paths(&d), vec!["/1", "/3", "/2"]);
    let a = sort_tracks(library(), SortField::Album, SortOrder::Asc);
    assert_eq!(paths(&a), vec!["/1", "/3", "/2"]);
}

#[test]
fn filters() {
    let lib = library();
    assert_eq!(paths(&filter_tracks(&lib, &TrackFilter::Favorites)), vec!["/2"]);
    assert_eq!(paths(&filter_tracks(&lib, &TrackFilter::Artist("ALPHA".into()))), vec!["/2"]);
    assert_eq!(paths(&filter_tracks(&lib, &TrackFilter::Album("ONE".into()))), vec!["/1", "/3"]);
    assert_eq!(paths(&filter_tracks(&lib, &TrackFilter::Genre("pop".into()))), vec!["/1", "/3"]);
    assert_eq!(paths(&filter_tracks(&lib, &TrackFilter::Genre("Ro".into()))), Vec::<String>::new());
}

#[test]
fn recently_added_newest_first_capped() {
    let r = recently_added_tracks(&library());
    assert_eq!(paths(&r), vec!["/1", "/3", "/2"]);
    let many: Vec<Arc<Track>> = (0..60).map(|i| t(&format!("/{}", i), "x", "a", "b", "", 0, i, false)).collect();
    let r = recently_added_tracks(&many);
    assert_eq!(r.len(), 50);
    assert_eq!(r[0].path, "/59");
    assert_eq!(r[49].path, "/10");
}

#[test]
fn playlist_entries_map_to_tracks() {
    let lib = library();
    let entries = vec!["/3".to_string(), "/missing".to_string(), "/1".to_string()];
    assert_eq!(paths(&playlist_tracks(&lib, &entries)), vec!["/3", "/1"]);
}

#[test]
fn search_ranks_matches() {
    let lib = library();
    let all = fuzzy_search_tracks(&lib, "");
    assert_eq!(paths(&all), vec!["/1", "/2", "/3"]);
    let r = fuzzy_search_tracks(&lib, "alpha");
    assert_eq!(paths(&r), vec!["/2"]);
    assert!(fuzzy_search_tracks(&lib, "qqqq").is_empty());
}

#[test]
fn sidebar_search_filters_positions() {
    let items = vec!["Metallica".to_string(), "Abba".to_string(), "Megadeth".to_string()];
    assert_eq!(section_filter(&items, ""), None);
    let f = section_filter(&items, "meta").unwrap();
    assert_eq!(f, vec![0]);
    let both = section_filter(&items, "me").unwrap();
    assert_eq!(both.len(), 2);
    assert!(both.contains(&0) && both.contains(&2));
}

#[test]
fn global_search_kinds() {
    let lib = library();
    let albums = vec!["Two".to_string()];
    let none: Vec<String> = Vec::new();
    assert!(global_search(&lib, &albums, &none, &none, &none, "").is_empty());
    let r = global_search(&lib, &albums, &none, &none, &none, "two");
    assert_eq!(r.len(), 2);
    assert!(r.iter().any(|x| matches!(x, GlobalSearchResult::Album(a) if a == "Two")));
    assert!(r.iter().any(|x| matches!(x, GlobalSearchResult::Track(t) if t.path == "/2")));
}

#[test]
fn sidebar_layout() {
    let mut e = SidebarExpanded::new();
    let closed = sidebar_items(&e, vec!["A".into()], vec![], vec![], vec!["P".into()]);
    assert_eq!(closed.len(), 7);
    e.toggle(&SidebarItem::Artists);
    e.expand_for(&SidebarItem::Playlist("P".into()));
    let open = sidebar_items(&e, vec!["A".into()], vec![], vec![], vec!["P".into()]);
    assert_eq!(
        open,
        vec![
            SidebarItem::AllTracks,
            SidebarItem::Favorites,
            SidebarItem::RecentlyAdded,
            SidebarItem::Artists,
            SidebarItem::Artist("A".into()),
            SidebarItem::Albums,
            SidebarItem::Genres,
            SidebarItem::Playlists,
            SidebarItem::Playlist("P".into()),
        ]
    );
    e.toggle(&SidebarItem::Artists);
    assert!(!e.artists);
    assert_eq!(clamp_sidebar_index(12, 9), 8);
    assert_eq!(clamp_sidebar_index(3, 9), 3);
    assert_eq!(clamp_sidebar_index(3, 0), 0);
}

#[test]
fn choosing_sidebar_entries() {
    let lib = library();
    let pls = vec![Playlist { name: "Mix".into(), path: "/m.m3u".into(), entries: vec!["/2".into()] }];
    assert_eq!(paths(&selection_tracks(&SidebarItem::Playlist("Mix".into()), &lib, &pls)), vec!["/2"]);
    assert!(selection_tracks(&SidebarItem::Playlist("Nope".into()), &lib, &pls).is_empty());
    assert_eq!(paths(&selection_tracks(&SidebarItem::AllTracks, &lib, &pls)), vec!["/1", "/2", "/3"]);
    assert_eq!(paths(&selection_tracks(&SidebarItem::Artists, &lib, &pls)), vec!["/1", "/2", "/3"]);
    assert_eq!(selection_sort(&SidebarItem::RecentlyAdded), (SortField::DateAdded, SortOrder::Desc));
    assert_eq!(selection_sort(&SidebarItem::AllTracks), (SortField::Artist, SortOrder::Asc));
}
