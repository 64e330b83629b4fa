use lyre::cli::Commands;
use lyre::config::{default_replace, Config};
use lyre::indexer::{
    abs_track_path, csv_row, dispatch, extract_song_name_from_filename, generate_path_from_pattern, replace_all,
    sanitize_filename_component, Job,
};
use lyre::ignore::unignored;
use lyre::sync::{playlist_sync_plan, sync_plan};

#[test]
fn default_configuration() {
    let c = Config::default();
    assert_eq!(c.files.database_name, "~/Music/music_library.db");
    assert_eq!(c.files.music_directory, "~/Music");
    assert!(c.files.file_pattern.is_none());
    assert_eq!(c.ui.columns, vec!["artist", "album", "duration", "play_count"]);
    assert!(c.ui.colors.foreground.is_none());
    assert_eq!(c.replace.as_ref().unwrap().len(), 10);
}

#[test]
fn sanitize_replaces_forbidden_characters() {
    let r = default_replace();
    assert_eq!(sanitize_filename_component("AC/DC: Live?", r.as_ref()), "AC⁄DC∶ Live？");
    assert_eq!(sanitize_filename_component("AC/DC", None), "AC/DC");
}

#[test]
fn only_single_character_keys_apply() {
    let r = vec![("ab".to_string(), "X".to_string()), ("a".to_string(), "_".to_string())];
    assert_eq!(sanitize_filename_component("abc", Some(&r)), "_bc");
}

#[test]
fn replace_all_left_to_right() {
    assert_eq!(replace_all("aaa", "aa", "b"), "ba");
    assert_eq!(replace_all("x{t}y{t}", "{t}", "T"), "xTyT");
    assert_eq!(replace_all("none", "zz", "y"), "none");
}

#[test]
fn path_from_pattern() {
    let r = default_replace();
    let p = generate_path_from_pattern("{album}/{albumartist} - {title}.{ext}", "A/B", "", "Al: 1", "T", "flac", r.as_ref());
    assert_eq!(p, "Al∶ 1/A⁄B - T.flac");
    let v = generate_path_from_pattern("{albumartist}/{artist}", "Solo", " various ARTISTS ", "", "", "", None);
    assert_eq!(v, "Solo/Solo");
    let k = generate_path_from_pattern("{albumartist}", "Solo", "Band", "", "", "", None);
    assert_eq!(k, "Band");
}

#[test]
fn song_names_from_file_names() {
    assert_eq!(extract_song_name_from_filename("/m/Artist - Song.flac"), Some("Song".to_string()));
    assert_eq!(extract_song_name_from_filename("A - B - C.mp3"), Some("B".to_string()));
    assert_eq!(extract_song_name_from_filename("Artist － Song.mp3"), Some("Song".to_string()));
    assert_eq!(extract_song_name_from_filename("NoSeparator.mp3"), None);
    assert_eq!(extract_song_name_from_filename(""), None);
}

#[test]
fn csv_rows() {
    assert_eq!(csv_row(&["a", "b c", "d"]), "a,b c,d\n");
    assert_eq!(csv_row(&["x,y", "say \"hi\"", "l1\nl2"]), "\"x,y\",\"say \"\"hi\"\"\",\"l1\nl2\"\n");
    assert_eq!(csv_row(&[]), "\n");
}

#[test]
fn track_paths_join() {
    assert_eq!(abs_track_path("/music", "a/b.flac"), "/music/a/b.flac");
    assert_eq!(abs_track_path("/music/", "b.flac"), "/music/b.flac");
    assert_eq!(abs_track_path("/music", "/abs/c.flac"), "/abs/c.flac");
}

#[test]
fn dispatch_expands_paths() {
    let c = Config::default();
    match dispatch(Commands::Stats, &c, Some("/home/u")) {
        Job::Stats { music_dir, db_path } => {
            assert_eq!(music_dir, "/home/u/Music");
            assert_eq!(db_path, "/home/u/Music/music_library.db");
        }
        _ => panic!("expected stats"),
    }
}

#[test]
fn dispatch_index_other_directory() {
    let c = Config::default();
    match dispatch(Commands::Index { dry_run: true, source: Some("~/Other".to_string()) }, &c, Some("/h")) {
        Job::Index { music_dir, db_path, dry_run } => {
            assert_eq!(music_dir, "/h/Other");
            assert_eq!(db_path, "/h/Other/music_library.db");
            assert!(dry_run);
        }
        _ => panic!("expected index"),
    }
    assert!(matches!(dispatch(Commands::Config { edit: false }, &c, None), Job::Nothing));
}

#[test]
fn sync_plans() {
    let src = vec!["a".to_string(), "b".to_string(), "c".to_string()];
    let dst = vec!["b".to_string(), "d".to_string()];
    let p = sync_plan(&src, &dst, false);
    assert_eq!(p.to_add, vec!["a".to_string(), "c".to_string()]);
    assert_eq!(p.to_update, vec!["b".to_string()]);
    assert_eq!(p.to_remove, vec!["d".to_string()]);
    let keep = sync_plan(&src, &dst, true);
    assert!(keep.to_remove.is_empty());
}

fn strings(v: &[&str]) -> Vec<String> {
    v.iter().map(|s| s.to_string()).collect()
}

#[test]
fn playlist_sync_compares_relative_playlist_paths() {
    let src = strings(&["/m/a.m3u", "/m/x/b.m3u8", "/m/song.mp3", "/other/c.m3u"]);
    let dst = strings(&["/d/x/b.m3u8", "/d/old.m3u", "/d/tune.flac"]);
    let p = playlist_sync_plan(&src, "/m", &dst, "/d", false);
    assert_eq!(p.to_add, strings(&["a.m3u"]));
    assert_eq!(p.to_update, strings(&["x/b.m3u8"]));
    assert_eq!(p.to_remove, strings(&["old.m3u"]));
    let keep = playlist_sync_plan(&src, "/m", &dst, "/d", true);
    assert!(keep.to_remove.is_empty());
    assert_eq!(keep.to_add, strings(&["a.m3u"]));
}

#[test]
fn ignore_patterns_skip_matching_files() {
    let rels = strings(&["a.mp3", "notes/b.txt", "c.flac", "covers/front.jpg"]);
    assert_eq!(unignored(&rels, &strings(&["*.txt"])), Some(vec![0, 2, 3]));
    assert_eq!(unignored(&rels, &strings(&["*.txt", "covers/**"])), Some(vec![0, 2]));
    assert_eq!(unignored(&rels, &strings(&[])), Some(vec![0, 1, 2, 3]));
    // A pattern that does not parse is left out.
    assert_eq!(unignored(&rels, &strings(&["[", "*.flac"])), Some(vec![0, 1, 3]));
}
