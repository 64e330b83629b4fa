use lyre::lyrics::{
    current_lyric_index, display_compilation, is_synced_lyrics, lrc_parts, lyric_lines, normalize_compilation,
    parse_lyrics,
};
use lyre::types::Lyrics;

// Timestamp keys as a player computes them: the numbers read as `f64`,
// combined as minutes * 60 + seconds, keyed in their order.
fn time_key(t: f64) -> i64 {
    let t = if t == 0.0 { 0.0 } else { t };
    let bits = t.to_bits() as i64;
    if bits < 0 {
        bits ^ i64::MAX
    } else {
        bits
    }
}

fn key_time(k: i64) -> f64 {
    let bits = if k < 0 { k ^ i64::MAX } else { k };
    f64::from_bits(bits as u64)
}

fn stamps(text: &str) -> Vec<Option<i64>> {
    lyric_lines(text)
        .iter()
        .map(|l| {
            let (m, s, _) = lrc_parts(l)?;
            let m: f64 = m.parse().ok()?;
            let s: f64 = s.parse().ok()?;
            Some(time_key(m * 60.0 + s))
        })
        .collect()
}

fn parse(text: &str) -> Lyrics {
    parse_lyrics(text, &stamps(text))
}

fn timed(text: &str) -> Vec<(Option<f64>, String)> {
    match parse(text) {
        Lyrics::Timed(v) => v.into_iter().map(|l| (l.timestamp.map(key_time), l.text)).collect(),
        Lyrics::Plain(_) => panic!("expected timed lyrics"),
    }
}

fn at(secs: i64) -> i64 {
    time_key(secs as f64 + 0.5)
}

#[test]
fn timed_lines_are_sorted_by_time() {
    let v = timed("[00:01.50]Hello\n[00:00.20]World");
    assert_eq!(v, vec![(Some(0.2), "World".to_string()), (Some(1.5), "Hello".to_string())]);
}

#[test]
fn untimed_lines_go_last_in_order() {
    let v = timed("[00:05]a\nplain\n[00:01]b\nother");
    assert_eq!(
        v,
        vec![
            (Some(1.0), "b".to_string()),
            (Some(5.0), "a".to_string()),
            (None, "plain".to_string()),
            (None, "other".to_string()),
        ]
    );
}

#[test]
fn equal_timestamps_keep_their_order() {
    let v = timed("[00:02]first\n[00:02]second");
    assert_eq!(v, vec![(Some(2.0), "first".to_string()), (Some(2.0), "second".to_string())]);
}

#[test]
fn blank_lines_are_dropped_and_text_trimmed() {
    let v = timed("\n  [01:00]  spaced  \n\n");
    assert_eq!(v, vec![(Some(60.0), "spaced".to_string())]);
}

#[test]
fn plain_text_is_kept_as_given() {
    match parse("just words\nmore words") {
        Lyrics::Plain(s) => assert_eq!(s, "just words\nmore words"),
        Lyrics::Timed(_) => panic!("expected plain lyrics"),
    }
}

#[test]
fn active_line_follows_playback() {
    let content = Some(parse("[00:01]a\n[00:03]b\n[00:05]c"));
    assert_eq!(current_lyric_index(&content, at(0)), None);
    assert_eq!(current_lyric_index(&content, at(1)), Some(0));
    assert_eq!(current_lyric_index(&content, at(3)), Some(1));
    assert_eq!(current_lyric_index(&content, at(100)), Some(2));
}

#[test]
fn active_line_looks_half_a_second_ahead() {
    let content = Some(parse("[00:01.40]a\n[00:02]b"));
    assert_eq!(current_lyric_index(&content, at(1)), Some(0));
}

#[test]
fn no_active_line_without_timed_lyrics() {
    assert_eq!(current_lyric_index(&None, at(10)), None);
    let plain = Some(parse("no stamps here"));
    assert_eq!(current_lyric_index(&plain, at(10)), None);
}

#[test]
fn compilation_flag_forms() {
    assert_eq!(normalize_compilation("  YES "), Some("1"));
    assert_eq!(normalize_compilation("t"), Some("1"));
    assert_eq!(normalize_compilation("nope"), Some("0"));
    assert_eq!(normalize_compilation("   "), None);
    assert_eq!(display_compilation("True"), "yes");
    assert_eq!(display_compilation("0"), "no");
    assert_eq!(display_compilation(""), "");
}

#[test]
fn synced_lyrics_detection() {
    assert!(is_synced_lyrics("intro\n  [00:12.00] line"));
    assert!(!is_synced_lyrics("[Chorus]\nla la"));
    assert!(!is_synced_lyrics(""));
}

#[test]
fn timestamps_take_the_float_syntax() {
    let v = timed("[1e1:00]x\n[0:2.5E1]y\n[+0:1.25e-1]z\n[0:5.]w");
    assert_eq!(
        v,
        vec![
            (Some(0.125), "z".to_string()),
            (Some(5.0), "w".to_string()),
            (Some(25.0), "y".to_string()),
            (Some(600.0), "x".to_string()),
        ]
    );
    assert_eq!(timed("[-0:1]n"), vec![(Some(1.0), "n".to_string())]);
    assert_eq!(timed("[0:-1]n"), vec![(Some(-1.0), "n".to_string())]);
}

#[test]
fn infinite_and_sub_millisecond_times_keep_their_order() {
    assert_eq!(timed("[inf:0]a"), vec![(Some(f64::INFINITY), "a".to_string())]);
    let v = timed("[inf:0]a\n[1e400:0]b\n[-infinity:0]c\n[0:0.0002]d\n[0:0.0001]e");
    let texts: Vec<&str> = v.iter().map(|p| p.1.as_str()).collect();
    assert_eq!(texts, vec!["c", "e", "d", "a", "b"]);
}

#[test]
fn lrc_tags_that_do_not_read_are_plain() {
    for text in ["[1e:00]x", "[e1:00]x", "[.:00]x", "[1.2.3:00]x", "[0:1:2]x", "[12]x", "[0:1 x"] {
        match parse(text) {
            Lyrics::Plain(s) => assert_eq!(s, text),
            Lyrics::Timed(_) => panic!("expected plain lyrics for {}", text),
        }
    }
}

#[test]
fn lrc_parts_split_the_tag() {
    assert_eq!(
        lrc_parts("[01:02.5]  hello "),
        Some(("01".to_string(), "02.5".to_string(), "hello".to_string()))
    );
    assert_eq!(lrc_parts("[a:b:c]x"), None);
    assert_eq!(lrc_parts("no tag"), None);
    assert_eq!(lyric_lines("  a \n\n b"), vec!["a", "b"]);
}
