use lyre::text::{int_to_string, is_blank};
use lyre::types::{format_duration, format_relative_at};
use lyre::util::{display_width, expand_tilde_with, pad_to, truncate, truncate_field, wrap_field};

#[test]
fn duration_missing_is_dashes() {
    assert_eq!(format_duration(0), "--:--");
    assert_eq!(format_duration(-5), "--:--");
}

#[test]
fn duration_minutes_and_seconds() {
    assert_eq!(format_duration(59), "00:59");
    assert_eq!(format_duration(61), "01:01");
    assert_eq!(format_duration(3599), "59:59");
}

#[test]
fn duration_with_hours() {
    assert_eq!(format_duration(3600), "01:00:00");
    assert_eq!(format_duration(3725), "01:02:05");
    assert_eq!(format_duration(360_000), "100:00:00");
}

#[test]
fn relative_time_buckets() {
    assert_eq!(format_relative_at(0, 100), "never");
    assert_eq!(format_relative_at(-3, 100), "never");
    assert_eq!(format_relative_at(100, 110), "just now");
    assert_eq!(format_relative_at(100, 220), "2m ago");
    assert_eq!(format_relative_at(1, 1 + 7_200), "2h ago");
    assert_eq!(format_relative_at(1, 1 + 3 * 86_400), "3d ago");
    assert_eq!(format_relative_at(1, 1 + 60 * 86_400), "2mo ago");
    assert_eq!(format_relative_at(1, 1 + 800 * 86_400), "2y ago");
}

#[test]
fn relative_time_in_the_future_is_just_now() {
    assert_eq!(format_relative_at(1_000, 10), "just now");
}

#[test]
fn pad_counts_display_columns() {
    assert_eq!(pad_to("ab", 5), "ab   ");
    assert_eq!(pad_to("abcdef", 3), "abcdef");
    // Wide characters take two columns each.
    assert_eq!(pad_to("日本", 5), "日本 ");
}

#[test]
fn width_of_wide_text() {
    assert_eq!(display_width("abc"), 3);
    assert_eq!(display_width("日本"), 4);
}

#[test]
fn truncate_fits_and_cuts() {
    assert_eq!(truncate_field("hi", 5), "hi   ");
    assert_eq!(truncate_field("hello world", 5), "hell…");
    assert_eq!(truncate_field("anything", 0), "");
}

#[test]
fn truncate_pads_after_wide_cut() {
    assert_eq!(truncate_field("日本語", 4), "日… ");
}

#[test]
fn wrap_on_words() {
    assert_eq!(wrap_field("the quick brown fox", 9), vec!["the quick".to_string(), "brown fox".to_string()]);
}

#[test]
fn wrap_empty_or_zero_width() {
    assert_eq!(wrap_field("", 5), vec![String::new()]);
    assert_eq!(wrap_field("abc", 0), vec![String::new()]);
}

#[test]
fn wrap_breaks_long_words() {
    assert_eq!(
        wrap_field("abcdefghij", 4),
        vec!["abcd".to_string(), "efgh".to_string(), "ij".to_string()]
    );
    assert_eq!(
        wrap_field("a abcdefgh", 4),
        vec!["a".to_string(), "abcd".to_string(), "efgh".to_string()]
    );
}

#[test]
fn tilde_expansion() {
    assert_eq!(expand_tilde_with("~/Music", Some("/home/u")), "/home/u/Music");
    assert_eq!(expand_tilde_with("/abs/path", Some("/home/u")), "/abs/path");
    assert_eq!(expand_tilde_with("~/x", None), "~/x");
    assert_eq!(expand_tilde_with("~user/x", Some("/home/u")), "~user/x");
}

#[test]
fn integers_as_text() {
    assert_eq!(int_to_string(0), "0");
    assert_eq!(int_to_string(-42), "-42");
    assert_eq!(int_to_string(1234567), "1234567");
}

#[test]
fn blank_text() {
    assert!(is_blank(""));
    assert!(is_blank(" \t\n"));
    assert!(!is_blank(" x "));
}

#[test]
fn ascii_fields_have_the_column_width() {
    for max in 1..12usize {
        let t = truncate_field("hello world", max);
        assert_eq!(t.chars().count(), max);
        if max >= 11 {
            assert_eq!(t, format!("hello world{}", " ".repeat(max - 11)));
        } else {
            let kept: String = "hello world".chars().take(max - 1).collect();
            assert_eq!(t, format!("{}…", kept));
        }
    }
    assert_eq!(truncate("hello world", 5), "hell…");
    assert_eq!(truncate("hi", 4), "hi  ");
    assert_eq!(display_width("abc def"), 7);
}

#[test]
fn ascii_wrapped_lines_fit() {
    let text = "a verified\tlibrary wraps\nwords into lines, splitting overlongwordsacrosslines";
    for max in 1..20usize {
        for line in wrap_field(text, max) {
            assert!(line.chars().count() <= max, "{:?} wider than {}", line, max);
        }
    }
}
