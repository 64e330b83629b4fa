use lyre::query::{
    distinct_sorted, export_csv_path, genre_counts, grouped_lines, list_query, paint, track_choice_label, year_line,
};

#[test]
fn listing_queries() {
    let (sql, params) = list_query(None, None);
    assert_eq!(sql, "SELECT artist, album, title FROM tracks ORDER BY artist, album, title");
    assert!(params.is_empty());
    let (sql, params) = list_query(Some("rock"), Some("live"));
    assert_eq!(
        sql,
        "SELECT artist, album, title FROM tracks WHERE genre LIKE ?1 AND (album LIKE ?2 OR artist LIKE ?2 OR title LIKE ?2) ORDER BY artist, album, title"
    );
    assert_eq!(params, vec!["%rock%".to_string(), "%live%".to_string()]);
    let (_, params) = list_query(None, Some("x"));
    assert_eq!(params, vec!["%x%".to_string()]);
}

#[test]
fn grouping_by_artist_and_album() {
    let rows = vec![
        ("A".to_string(), "X".to_string(), "t1".to_string()),
        ("A".to_string(), "X".to_string(), "t2".to_string()),
        ("A".to_string(), "Y".to_string(), "t3".to_string()),
        ("B".to_string(), "X".to_string(), "t4".to_string()),
    ];
    let lines = grouped_lines(&rows);
    assert_eq!(
        lines,
        vec![
            format!("\n{}:", paint("1", "A")),
            format!("  {}:", paint("36", "X")),
            "    t1".to_string(),
            "    t2".to_string(),
            format!("  {}:", paint("36", "Y")),
            "    t3".to_string(),
            format!("\n{}:", paint("1", "B")),
            format!("  {}:", paint("36", "X")),
            "    t4".to_string(),
        ]
    );
    assert_eq!(grouped_lines(&Vec::new()), vec!["\x1b[33mNo tracks found.\x1b[0m".to_string()]);
}

#[test]
fn genres_counted_and_sorted() {
    let rows = vec!["Rock, Pop".to_string(), "pop".to_string(), "Rock".to_string(), " , Jazz ".to_string()];
    assert_eq!(
        genre_counts(&rows),
        vec![("Jazz".to_string(), 1), ("Pop".to_string(), 1), ("Rock".to_string(), 2), ("pop".to_string(), 1)]
    );
    assert!(genre_counts(&Vec::new()).is_empty());
}

#[test]
fn distinct_values_sorted() {
    let v = vec!["b".to_string(), "a".to_string(), "b".to_string(), "B".to_string()];
    assert_eq!(distinct_sorted(&v), vec!["B".to_string(), "a".to_string(), "b".to_string()]);
}

#[test]
fn histogram_lines() {
    assert_eq!(year_line(1999, 5, 10), "1999:    5 ████████████████████");
    assert_eq!(year_line(2001, 10, 10), format!("2001:   10 {}", "█".repeat(40)));
    assert_eq!(year_line(7, 0, 0), "   7:    0 ");
}

#[test]
fn small_formats() {
    assert_eq!(track_choice_label("Art", "Alb", "Song"), "Art - Song  [Alb]");
    assert_eq!(export_csv_path("/home/u/Music/lib.db"), "/home/u/Music/tracks_export.csv");
    assert_eq!(paint("31", "x"), "\x1b[31mx\x1b[0m");
}
