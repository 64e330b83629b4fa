use lyre::compress::{
    codec_for, dedupe_sources, export_playlist_text, ffmpeg_args, like_pattern, output_path, source_quality_rank,
};
use lyre::indexer::{
    has_lower_quality, is_audio_extension, parse_year, plan_index_entry, quality_label, quality_listing,
    quality_rank,
};

#[test]
fn encoders() {
    assert_eq!(codec_for("mp3"), "libmp3lame");
    assert_eq!(codec_for("m4a"), "aac");
    assert_eq!(codec_for("opus"), "libopus");
    assert_eq!(codec_for("wma"), "libmp3lame");
    assert_eq!(
        ffmpeg_args("/in.flac", "/out.mp3", "mp3", "192k"),
        vec!["-i", "/in.flac", "-c:a", "libmp3lame", "-b:a", "192k", "-map", "0", "-c:v", "copy", "-y", "/out.mp3"]
    );
    assert_eq!(like_pattern("abc"), "%abc%");
}

#[test]
fn source_ranks() {
    assert_eq!(source_quality_rank("a/b.FLAC"), 0);
    assert_eq!(source_quality_rank("b.m4a"), 1);
    assert_eq!(source_quality_rank("c.mp3"), 2);
    assert_eq!(source_quality_rank("noext"), 100);
}

#[test]
fn case_clashes_keep_best_source() {
    let paths = vec!["Song.mp3".to_string(), "song.flac".to_string(), "other.mp3".to_string(), "SONG.m4a".to_string()];
    let kept = dedupe_sources(&paths, "mp3");
    assert_eq!(kept, vec!["song.flac".to_string(), "other.mp3".to_string()]);
}

#[test]
fn converted_file_location() {
    assert_eq!(output_path("/music", "/out", "/music/a/b.flac", "mp3"), "/out/a/b.mp3");
    assert_eq!(output_path("/music", "/out", "/elsewhere/c.flac", "opus"), "/elsewhere/c.opus");
}

#[test]
fn playlist_export() {
    let text = "#EXTM3U\n/music/a/b.flac\nrel.m4a\n/other/x.mp3\n\n";
    assert_eq!(
        export_playlist_text(text, "/music/lists", "/music", "mp3"),
        "#EXTM3U\na/b.mp3\nlists/rel.mp3\n/other/x.mp3\n\n"
    );
}

#[test]
fn duplicate_quality() {
    assert_eq!(quality_rank("FLAC"), 1);
    assert_eq!(quality_rank("wav"), 100);
    assert_eq!(quality_label(2), "M4A");
    assert_eq!(quality_label(7), "OTHER");
    let l = quality_listing("a/x.mp3,b/x.flac,noext,c/x.mp3");
    assert_eq!(l, vec![(1, "b/x.flac".to_string()), (3, "a/x.mp3".to_string()), (3, "c/x.mp3".to_string())]);
    assert!(has_lower_quality(&l));
    let same = quality_listing("a.mp3,b.mp3");
    assert!(!has_lower_quality(&same));
}

#[test]
fn indexing_decisions() {
    assert!(is_audio_extension("flac"));
    assert!(!is_audio_extension("FLAC"));
    assert!(!is_audio_extension("txt"));
    assert_eq!(parse_year("1999"), 1999);
    assert_eq!(parse_year("-5"), -5);
    assert_eq!(parse_year("+7"), 7);
    assert_eq!(parse_year("2001-05-03"), 0);
    assert_eq!(parse_year("99999999999"), 0);
    assert_eq!(parse_year(""), 0);
    assert_eq!(parse_year("-2147483648"), i32::MIN);
    assert_eq!(parse_year("2147483648"), 0);
    assert!(plan_index_entry("/m/a.txt", "txt", "", "", "", "", "/m", None, None).is_none());
    let p = plan_index_entry("/m/x/a.mp3", "mp3", "Art", "", "Alb", "T", "/m", None, None).unwrap();
    assert_eq!(p.rel_path, "x/a.mp3");
    assert!(p.move_to.is_none());
    let mv = plan_index_entry("/m/x/a.mp3", "mp3", "Art", "", "Alb", "T", "/m", Some("{artist}/{title}.{ext}"), None)
        .unwrap();
    assert_eq!(mv.move_to, Some("/m/Art/T.mp3".to_string()));
    assert_eq!(mv.rel_path, "Art/T.mp3");
    let same = plan_index_entry("/m/Art/T.mp3", "mp3", "Art", "", "Alb", "T", "/m", Some("{artist}/{title}.{ext}"), None)
        .unwrap();
    assert!(same.move_to.is_none());
}
