use lyre::lrclib::{
    fetch_query, lyrics_candidate, lyrics_to_write, needs_fallback, resolution_of, resolve_with, retry_delay_ms, search_query,
    LrcLibResult, LyricsCandidate, LyricsResolution,
};

fn entry(plain: Option<&str>, synced: Option<&str>, instrumental: bool) -> LrcLibResult {
    LrcLibResult {
        track_name: "Song".to_string(),
        artist_name: "Band".to_string(),
        plain_lyrics: plain.map(|s| s.to_string()),
        synced_lyrics: synced.map(|s| s.to_string()),
        instrumental,
    }
}

fn pairs(q: Vec<(String, String)>) -> Vec<(String, String)> {
    q
}

#[test]
fn tag_text_and_kind() {
    assert_eq!(LyricsResolution::Synced("[00:01]a".into()).tag_text(), "[00:01]a");
    assert_eq!(LyricsResolution::Instrumental.tag_text(), "[Instrumental]");
    assert_eq!(LyricsResolution::Plain("x".into()).kind(), "plain");
    assert_eq!(LyricsResolution::Instrumental.kind(), "instrumental");
}

#[test]
fn fallback_decision() {
    assert!(needs_fallback(&None));
    assert!(!needs_fallback(&Some(entry(None, None, true))));
    assert!(needs_fallback(&Some(entry(Some("words"), Some("   "), false))));
    assert!(!needs_fallback(&Some(entry(None, Some("[00:01]x"), false))));
}

#[test]
fn synced_beats_plain_beats_instrumental() {
    assert_eq!(resolution_of(entry(Some("p"), Some("s"), false)).kind(), "synced");
    assert_eq!(resolution_of(entry(Some("p"), Some(" "), false)).tag_text(), "p");
    assert_eq!(resolution_of(entry(Some(""), None, false)).tag_text(), "[Instrumental]");
}

#[test]
fn search_replaces_unsynced_lookup() {
    let r = resolve_with(Some(entry(Some("plain"), None, false)), Some(entry(None, Some("[00:01]s"), false)));
    assert_eq!(r.unwrap().tag_text(), "[00:01]s");
    let kept = resolve_with(Some(entry(None, Some("[00:02]t"), false)), Some(entry(Some("other"), None, false)));
    assert_eq!(kept.unwrap().tag_text(), "[00:02]t");
    let plain = resolve_with(Some(entry(Some("plain"), None, false)), None);
    assert_eq!(plain.unwrap().kind(), "plain");
    assert!(resolve_with(None, None).is_none());
    assert_eq!(resolve_with(None, Some(entry(None, None, true))).unwrap().kind(), "instrumental");
}

#[test]
fn lookup_parameters() {
    assert_eq!(
        pairs(fetch_query("Band", "Song", Some("Album"), Some(215))),
        vec![
            ("artist_name".to_string(), "Band".to_string()),
            ("track_name".to_string(), "Song".to_string()),
            ("album_name".to_string(), "Album".to_string()),
            ("duration".to_string(), "215".to_string()),
        ]
    );
    assert_eq!(fetch_query("B", "S", None, None).len(), 2);
    assert_eq!(search_query("B", "S"), vec![("artist_name".to_string(), "B".to_string()), ("track_name".to_string(), "S".to_string())]);
}

#[test]
fn retries() {
    assert_eq!(retry_delay_ms(1, 200), None);
    assert_eq!(retry_delay_ms(1, 404), None);
    assert_eq!(retry_delay_ms(1, 429), Some(1000));
    assert_eq!(retry_delay_ms(2, 503), Some(2000));
    assert_eq!(retry_delay_ms(4, 500), Some(8000));
    assert_eq!(retry_delay_ms(5, 500), None);
}

#[test]
fn candidates() {
    let c = lyrics_candidate("/m/a.flac".into(), "Artist".into(), " ".into(), "Al".into(), "T".into(), 100, None, false)
        .unwrap();
    assert_eq!(c.artist, "Artist");
    assert_eq!(c.reason(), "missing lyrics");
    let c2 = lyrics_candidate("/m/a.flac".into(), "Artist".into(), "AA".into(), "".into(), "Tï".into(), 0, Some("plain words"), true)
        .unwrap();
    assert_eq!(c2.artist, "AA");
    assert_eq!(c2.reason(), "unsynced — will overwrite");
    // ASCII transliteration of the title; no album and no duration are sent.
    assert_eq!(
        c2.lookup_query_params(),
        vec![("artist_name".to_string(), "AA".to_string()), ("track_name".to_string(), "Ti".to_string())]
    );
    assert!(lyrics_candidate("p".into(), "a".into(), "".into(), "".into(), "t".into(), 1, Some("plain"), false).is_none());
    assert!(lyrics_candidate("p".into(), "a".into(), "".into(), "".into(), "t".into(), 1, Some("[00:01]x"), true).is_none());
}

fn candidate(has_lyrics: bool, is_synced: bool) -> LyricsCandidate {
    LyricsCandidate {
        path: "/m/a.mp3".to_string(),
        artist: "Band".to_string(),
        album: "Record".to_string(),
        title: "Song".to_string(),
        duration: 200,
        has_lyrics,
        is_synced,
    }
}

#[test]
fn lyrics_to_write_keeps_unsynced_lyrics_unless_synced_ones_were_found() {
    let unsynced = candidate(true, false);
    assert_eq!(lyrics_to_write(&unsynced, LyricsResolution::Plain("words".to_string())), None);
    assert_eq!(lyrics_to_write(&unsynced, LyricsResolution::Instrumental), None);
    assert_eq!(
        lyrics_to_write(&unsynced, LyricsResolution::Synced("[00:01.00]words".to_string())),
        Some("[00:01.00]words".to_string())
    );
    let missing = candidate(false, false);
    assert_eq!(
        lyrics_to_write(&missing, LyricsResolution::Plain("words".to_string())),
        Some("words".to_string())
    );
    assert_eq!(lyrics_to_write(&missing, LyricsResolution::Instrumental), Some("[Instrumental]".to_string()));
}

#[test]
fn search_query_params_transliterate_artist_and_title() {
    let mut c = candidate(false, false);
    c.artist = "Björk".to_string();
    c.title = "Jóga".to_string();
    assert_eq!(
        c.search_query_params(),
        vec![
            ("artist_name".to_string(), "Bjork".to_string()),
            ("track_name".to_string(), "Joga".to_string()),
        ]
    );
}
