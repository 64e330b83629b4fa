use std::sync::Arc;

use lyre::geometry::{center_vertically, centered, help_popup, info_popup, name_popup, picker_popup, setup_popup, Area};
use lyre::help_view::{help_footer, help_lines, help_offset, HelpKind};
use lyre::info_panel::{info_footer, info_has_track, info_lines, info_scroll, info_title, InfoStyle};
use lyre::dedupe::{dup_decision, dup_heading, dup_options, offers_fix, DupDecision};
use lyre::layout::{banner_text, genre_header_line, playlist_title, position_indicator, search_box_text, search_box_title};
use lyre::library::SidebarExpanded;
use lyre::lyrics_panel::{lyrics_title, placeholder, timed_scroll, Tone};
use lyre::metadata::{tag_edits, FieldValues};
use lyre::now_playing::{controls_hint, meta_line, player_lines, shuffle_indicator, state_icon, time_line};
use lyre::overlay::{picker_row, picker_title, with_cursor};
use lyre::queue_panel::{queue_empty_text, queue_look, queue_row, queue_title, QueueLook};
use lyre::search_panel::{result_label, result_row, search_content, search_popup, search_scroll, selected_line};
use lyre::sidebar_panel::{sidebar_layout, sidebar_offset, sidebar_row};
use lyre::util::truncate;
use lyre::types::{
    EditField, GlobalSearchResult, LyricsFetchStatus, Panel, PlayerState, SidebarItem, SidebarSection, Track,
    TrackColumn,
};

fn song(title: &str, artist: &str, duration: i64, year: i32, genre: &str) -> Track {
    Track {
        path: "/m/a.mp3".to_string(),
        artist: artist.to_string(),
        album: "LP".to_string(),
        albumartist: String::new(),
        title: title.to_string(),
        duration,
        year,
        genre: genre.to_string(),
        added_at: 0,
        favorite: false,
        play_count: 0,
        last_played: 0,
    }
}

fn area(x: u16, y: u16, width: u16, height: u16) -> Area {
    Area { x, y, width, height }
}

// ----- now playing -----

#[test]
fn player_lines_for_a_track() {
    let t = song("Song", "Band", 180, 1999, "Rock, Pop");
    let (a, b, c) = player_lines(Some(&t), PlayerState::Playing, 14, "space", "?");
    assert_eq!(a, "▶ Song      ");
    assert_eq!(b, "  Band — LP");
    assert_eq!(c, "  1999 · Rock");
}

#[test]
fn player_lines_cut_long_titles() {
    let t = song("A very long title", "Band", 180, 0, "");
    let (a, _, c) = player_lines(Some(&t), PlayerState::Stopped, 10, "space", "?");
    assert_eq!(a, "■ A ver…");
    assert_eq!(c, "  Unknown Year · Unknown Genre");
}

#[test]
fn player_lines_when_idle() {
    let (a, b, c) = player_lines(None, PlayerState::Stopped, 0, "space", "?");
    assert_eq!(a, "■ lyre — no track playing");
    assert_eq!(b, "  Press [space] to play");
    assert_eq!(c, "  Press [?] for help");
}

#[test]
fn meta_line_takes_first_genre_trimmed() {
    let t = song("S", "B", 1, 2020, "  Jazz ,Blues");
    assert_eq!(meta_line(&t), "  2020 · Jazz");
}

#[test]
fn bar_texts() {
    assert_eq!(controls_hint("a", "b", "c", "d", "e"), "[a] play/pause  [b] next  [c] prev  [d] shuffle  [e] loop");
    assert_eq!(time_line(65, 3725), "01:05 / 01:02:05");
    assert_eq!(time_line(0, 0), "--:-- / --:--");
    assert_eq!(shuffle_indicator(true), "⤮");
    assert_eq!(shuffle_indicator(false), "⇉");
    assert_eq!(state_icon(PlayerState::Paused), "⏸");
}

// ----- track information -----

#[test]
fn info_lines_mark_the_edited_field() {
    let fields = EditField::simple();
    let mut values = FieldValues::new();
    values.set(EditField::Title, "Song".to_string());
    values.set(EditField::Artist, String::new());
    let ro = vec![("Bitrate".to_string(), "320".to_string())];
    let (lines, active) = info_lines(&fields, &values, true, EditField::Artist, "/m/a.mp3", "03:00", &ro);
    let got: Vec<(InfoStyle, String)> = lines.into_iter().map(|l| (l.style, l.text)).collect();
    let want: Vec<(InfoStyle, &str)> = vec![
        (InfoStyle::Blank, ""),
        (InfoStyle::Label, "Title"),
        (InfoStyle::Title, "Song"),
        (InfoStyle::Label, "▶ Artist"),
        (InfoStyle::Active, "▏"),
        (InfoStyle::Label, "Album"),
        (InfoStyle::Value, "—"),
        (InfoStyle::Label, "Year"),
        (InfoStyle::Value, "—"),
        (InfoStyle::Label, "Genre"),
        (InfoStyle::Value, "—"),
        (InfoStyle::Label, "File Path"),
        (InfoStyle::Dim, "/m/a.mp3"),
        (InfoStyle::Label, "Duration"),
        (InfoStyle::Value, "03:00"),
        (InfoStyle::Label, "Bitrate"),
        (InfoStyle::Value, "320"),
    ];
    assert_eq!(got.len(), want.len());
    for (g, w) in got.iter().zip(want.iter()) {
        assert_eq!(g.0, w.0);
        assert_eq!(g.1, w.1);
    }
    assert_eq!(active, Some(3));
}

#[test]
fn info_lines_without_editing_have_no_active_line() {
    let fields = EditField::simple();
    let values = FieldValues::new();
    let (lines, active) = info_lines(&fields, &values, false, EditField::Title, "/p", "--:--", &[]);
    assert_eq!(lines.len(), 15);
    assert_eq!(active, None);
    assert_eq!(lines[1].text, "Title");
    assert_eq!(lines[2].style, InfoStyle::Title);
    assert_eq!(lines[2].text, "—");
}

#[test]
fn info_scroll_follows_the_edited_field() {
    assert_eq!(info_scroll(17, 5, 0, Some(3)), (0, 12));
    assert_eq!(info_scroll(17, 5, 10, Some(3)), (2, 12));
    assert_eq!(info_scroll(17, 5, 0, Some(9)), (6, 12));
    assert_eq!(info_scroll(17, 5, 20, None), (12, 12));
    assert_eq!(info_scroll(3, 10, 4, None), (0, 0));
}

#[test]
fn info_footer_and_title() {
    assert_eq!(info_footer(false, false, 2, 12), "[↑↓] scroll [e] edit [d] detailed view [i] close  [3/13]");
    assert_eq!(info_footer(true, true, 0, 0), "[Tab/↑↓] field [Enter] save [Esc] cancel [d] simple");
    assert_eq!(info_footer(false, true, 0, 0), "[↑↓] scroll [e] edit [d] simple view [i] close");
    assert_eq!(info_title(true), " ♫ Track Information (detailed) ");
    assert_eq!(info_title(false), " ♫ Track Information ");
}

#[test]
fn info_needs_a_track_in_the_focused_list() {
    assert!(!info_has_track(Panel::Queue, 0, 5));
    assert!(info_has_track(Panel::Queue, 2, 0));
    assert!(info_has_track(Panel::TrackList, 0, 5));
    assert!(!info_has_track(Panel::Sidebar, 3, 0));
}

// ----- popups -----

#[test]
fn popups_are_centred() {
    assert_eq!(centered(area(0, 0, 200, 50), 100, 22), area(50, 14, 100, 22));
    assert_eq!(info_popup(area(0, 0, 80, 20)), area(0, 2, 80, 16));
    assert_eq!(info_popup(area(0, 0, 200, 60)), area(50, 19, 100, 22));
    assert_eq!(help_popup(area(0, 0, 120, 40)), area(15, 2, 90, 36));
    assert_eq!(center_vertically(area(5, 10, 30, 20), 4), area(5, 18, 30, 4));
    assert_eq!(name_popup(area(0, 0, 100, 3)), area(25, 0, 50, 5));
    assert_eq!(setup_popup(area(0, 0, 100, 30)), area(10, 9, 80, 11));
    assert_eq!(picker_popup(area(0, 0, 100, 30), 3), area(25, 11, 50, 7));
}

// ----- library search -----

#[test]
fn search_labels_and_content() {
    let t = song("Song", "Band", 1, 0, "");
    assert_eq!(result_label(&GlobalSearchResult::Track(Arc::new(t.clone()))), "🎵 Song — Band");
    assert_eq!(result_label(&GlobalSearchResult::Album("LP".to_string())), "💿 LP");
    assert_eq!(result_label(&GlobalSearchResult::Artist("Band".to_string())), "🎤 Band");
    assert_eq!(result_label(&GlobalSearchResult::Playlist("Mix".to_string())), "📋 Mix");
    assert_eq!(result_label(&GlobalSearchResult::Genre("Rock".to_string())), "🎸 Rock");

    let none = search_content(&[], false);
    assert_eq!(none.len(), 1);
    assert_eq!(none[0].text, "No results found.");
    assert_eq!(none[0].index, None);
    assert!(search_content(&[], true).is_empty());

    let hits = vec![GlobalSearchResult::Album("LP".to_string()), GlobalSearchResult::Genre("Rock".to_string())];
    let lines = search_content(&hits, false);
    assert_eq!(lines.len(), 2);
    assert_eq!(lines[1].text, "🎸 Rock");
    assert_eq!(lines[1].index, Some(1));
}

#[test]
fn search_popup_size() {
    assert_eq!(search_popup(area(0, 0, 100, 40), 2, true), area(25, 6, 50, 8));
    assert_eq!(search_popup(area(0, 0, 60, 10), 20, true), area(10, 1, 40, 8));
    assert_eq!(search_popup(area(0, 0, 100, 40), 0, false), area(25, 6, 50, 5));
}

#[test]
fn search_scroll_keeps_choice_in_view() {
    assert_eq!(selected_line(3, 5), 0);
    assert_eq!(selected_line(3, 2), 2);
    assert_eq!(search_scroll(10, 4, 7), 5);
    assert_eq!(search_scroll(10, 4, 9), 6);
    assert_eq!(search_scroll(3, 4, 2), 0);
    assert_eq!(search_scroll(10, 4, 1), 0);
}

#[test]
fn search_rows() {
    assert_eq!(result_row("abcdef", true, 4), " • abc…");
    assert_eq!(result_row("ab", false, 4), "   ab");
    assert_eq!(result_row("abcd", false, 4), "   abcd");
}

// ----- help -----

#[test]
fn help_lines_pad_keys() {
    let sections = vec![("Nav", vec![("Tab".to_string(), "Cycle")])];
    let lines = help_lines(&sections);
    assert_eq!(lines.len(), 3);
    assert_eq!(lines[0].kind, HelpKind::Section);
    assert_eq!(lines[0].text, "Nav");
    assert_eq!(lines[1].kind, HelpKind::Entry);
    assert_eq!(lines[1].keys, format!("  {:28}", "Tab"));
    assert_eq!(lines[1].text, "Cycle");
    assert_eq!(lines[2].kind, HelpKind::Blank);
}

#[test]
fn help_scroll_and_footer() {
    assert_eq!(help_offset(30, 10, 25), 20);
    assert_eq!(help_offset(5, 10, 3), 0);
    assert_eq!(help_offset(30, 10, 4), 4);
    assert_eq!(help_footer(30, 10, 4), "↑/↓ to scroll (5/21) · Esc to close");
    assert_eq!(help_footer(5, 10, 0), "Esc or ? to close");
}

// ----- queue -----

#[test]
fn queue_title_sums_durations() {
    let q = vec![song("A", "B", 180, 0, ""), song("C", "D", 65, 0, "")];
    assert_eq!(queue_title("q", &q), "Queue [q] (2 tracks, 04:05)");
    assert_eq!(queue_title("q", &[]), "Queue [q] (0 tracks, --:--)");
    assert_eq!(queue_empty_text("a", "A"), "No tracks in queue\n\nPress [a] on a track\nor [A] to add all");
}

#[test]
fn queue_rows() {
    let t = song("Song", "Band", 65, 0, "");
    assert_eq!(queue_row(&t, true, PlayerState::Playing, 20), ("▶ Song - Band ".to_string(), " 01:05".to_string()));
    assert_eq!(queue_row(&t, true, PlayerState::Stopped, 20), ("  Song - Band ".to_string(), " 01:05".to_string()));
    assert_eq!(queue_row(&t, false, PlayerState::Paused, 13), ("  Song…".to_string(), " 01:05".to_string()));
    assert_eq!(queue_look(false, false, true, PlayerState::Paused), QueueLook::Playing);
    assert_eq!(queue_look(true, true, true, PlayerState::Playing), QueueLook::Focused);
    assert_eq!(queue_look(true, false, false, PlayerState::Playing), QueueLook::Selected);
    assert_eq!(queue_look(false, true, true, PlayerState::Stopped), QueueLook::Normal);
}

// ----- lyrics -----

#[test]
fn lyrics_placeholders() {
    let idle = placeholder(false, &LyricsFetchStatus::Idle);
    assert_eq!(idle, vec![vec![(Tone::Dim, "No track is currently playing.".to_string())]]);
    let err = placeholder(true, &LyricsFetchStatus::Error("timeout".to_string()));
    assert_eq!(err.len(), 5);
    assert_eq!(err[0], vec![(Tone::Normal, "No lyrics detected".to_string())]);
    assert!(err[1].is_empty());
    assert_eq!(err[2], vec![(Tone::Dim, "Error fetching lyrics: timeout".to_string())]);
    assert_eq!(err[4], vec![(Tone::Dim, "Press [Enter] to retry.".to_string())]);
    let fetching = placeholder(true, &LyricsFetchStatus::Fetching);
    assert_eq!(fetching, vec![vec![(Tone::Normal, "Fetching lyrics from lrclib…".to_string())]]);
    let ask = placeholder(true, &LyricsFetchStatus::Idle);
    assert_eq!(ask[2][1], (Tone::Accent, "[Enter]".to_string()));
    assert_eq!(placeholder(true, &LyricsFetchStatus::NotFound).len(), 3);
}

#[test]
fn lyrics_scroll_follows_song() {
    assert_eq!(lyrics_title("l"), "Lyrics [l]");
    assert_eq!(timed_scroll(0, false, Some(3), 20, 10, 50), 15);
    assert_eq!(timed_scroll(0, true, Some(3), 20, 10, 50), 0);
    assert_eq!(timed_scroll(40, true, Some(1), 0, 10, 30), 30);
    assert_eq!(timed_scroll(7, false, None, 20, 10, 30), 7);
    assert_eq!(timed_scroll(0, false, Some(9), 100, 10, 30), 30);
}

// ----- sidebar -----

#[test]
fn sidebar_rows_and_filter_box() {
    let items = vec![
        SidebarItem::AllTracks,
        SidebarItem::Artists,
        SidebarItem::Artist("Abba".to_string()),
        SidebarItem::Albums,
    ];
    let mut open = SidebarExpanded::new();
    open.artists = true;
    let l = sidebar_layout(&items, &open, Some(SidebarSection::Artists), true, 2);
    assert_eq!(l.rows, vec!["♫ All Tracks", "▼ Artists", " Abba", "▶ Albums"]);
    assert_eq!(l.box_above, vec![false, false, true, false]);
    assert_eq!(l.selected_line, 5);
    assert_eq!(l.total, 7);

    let plain = sidebar_layout(&items, &open, Some(SidebarSection::Artists), false, 2);
    assert_eq!(plain.selected_line, 2);
    assert_eq!(plain.total, 4);
    let past = sidebar_layout(&items, &open, None, true, 9);
    assert_eq!(past.selected_line, 0);
    assert_eq!(sidebar_row(&SidebarItem::Genres, &open), "▶ Genres");
}

#[test]
fn sidebar_offset_keeps_cursor_in_view() {
    assert_eq!(sidebar_offset(0, 20, 15, 10), 6);
    assert_eq!(sidebar_offset(8, 5, 1, 10), 0);
    assert_eq!(sidebar_offset(30, 20, 12, 5), 12);
    assert_eq!(sidebar_offset(3, 20, 5, 5), 3);
}

// ----- small texts -----

#[test]
fn box_titles_and_banner() {
    assert_eq!(search_box_title(false, true, Some(1)), " search  1 result ");
    assert_eq!(search_box_title(false, true, Some(3)), " search  3 results ");
    assert_eq!(search_box_title(true, true, Some(3)), " search ");
    assert_eq!(search_box_title(false, true, None), " search ");
    assert_eq!(search_box_title(false, false, Some(3)), " search ");
    assert_eq!(banner_text("?"), " lyre v0.1.0 ─ a music player & library manager. press [?] for help.");
    assert_eq!(picker_title(1), " Add to Playlist ");
    assert_eq!(picker_title(3), " Add 3 tracks to Playlist ");
    assert_eq!(picker_row("Mix", true), "▶ Mix");
    assert_eq!(picker_row("Mix", false), "  Mix");
    assert_eq!(with_cursor("ab"), "ab█");
}

// ----- duplicates -----

#[test]
fn duplicate_choices() {
    let copies = vec![(1i64, "a/x.mp3".to_string()), (2i64, "b/x.flac".to_string()), (3i64, "c/x.m4a".to_string())];
    assert_eq!(dup_heading("Band", "Song", 3), "Band - Song (x3)");
    assert_eq!(dup_options(&copies), vec!["Skip", "Keep both", "a/x.mp3", "b/x.flac", "c/x.m4a"]);
    assert!(offers_fix(true, 2, false));
    assert!(!offers_fix(true, 1, false));
    assert!(!offers_fix(true, 2, true));
    assert!(!offers_fix(false, 2, false));
    assert_eq!(dup_decision(None, &copies), DupDecision::Skip);
    assert_eq!(dup_decision(Some("Skip"), &copies), DupDecision::Skip);
    assert_eq!(dup_decision(Some("Keep both"), &copies), DupDecision::KeepAll);
    assert_eq!(
        dup_decision(Some("b/x.flac"), &copies),
        DupDecision::Remove(vec![(1, "a/x.mp3".to_string()), (3, "c/x.m4a".to_string())])
    );
}

#[test]
fn search_box_texts() {
    assert_eq!(search_box_text(true, "ab"), "ab█");
    assert_eq!(search_box_text(false, "ab"), "ab");
    assert_eq!(search_box_text(false, ""), "press / to search…");
    assert_eq!(search_box_text(true, ""), "█");
}

#[test]
fn row_truncate_backs_off_for_the_ellipsis() {
    assert_eq!(truncate("Hello", 8), "Hello   ");
    assert_eq!(truncate("Hello World", 8), "Hello W…");
    assert_eq!(truncate("", 3), "   ");
    assert_eq!(truncate("x", 0), "");
    assert_eq!(truncate("a日b", 3), "a… ");
    assert_eq!(truncate("日本語テキスト", 5), "日本…");
}

#[test]
fn playlist_mode_texts() {
    assert_eq!(
        playlist_title("Mix", "K", "J", "x", "a"),
        " ♪ Mix [playlist]  K/J:move  x:remove  a:add-to "
    );
    assert_eq!(position_indicator(0, 12), " 1/12 ");
    assert_eq!(
        genre_header_line(100),
        format!("{:<28}  {:<22}  {:<22}  {:<16}  {:>4}", "Title", "Artist", "Album", "Genre", "Dur")
    );
    assert_eq!(genre_header_line(10), format!("{:<2}  {:<2}  {:<2}  {:<1}  {:>4}", "Title", "Artist", "Album", "Genre", "Dur"));
}

#[test]
fn stored_paths_are_relative_to_the_music_directory() {
    assert_eq!(lyre::paths::to_relative("/music", "/music/a/b.mp3"), "a/b.mp3");
    assert_eq!(lyre::paths::to_relative("/music", "/other/b.mp3"), "/other/b.mp3");
    assert_eq!(lyre::paths::to_relative("/music", "/musical/b.mp3"), "/musical/b.mp3");
}

#[test]
fn saved_queue_maps_to_library_positions() {
    let mut a = song("A", "X", 1, 0, "");
    a.path = "/m/a.mp3".to_string();
    let mut b = song("B", "X", 1, 0, "");
    b.path = "/m/b.mp3".to_string();
    let mut b2 = song("B2", "X", 1, 0, "");
    b2.path = "/m/b.mp3".to_string();
    let all = vec![Arc::new(a), Arc::new(b), Arc::new(b2)];
    let saved = vec!["/m/b.mp3".to_string(), "/m/gone.mp3".to_string(), "/m/a.mp3".to_string()];
    assert_eq!(lyre::startup::restored_queue_positions(&saved, &all), vec![2, 0]);
    assert!(lyre::startup::restored_queue_positions(&[], &all).is_empty());
}

#[test]
fn numeric_cells_fit_their_column() {
    let long = song("S", "B", 3725, 1999, "");
    let short = song("S", "B", 65, 0, "");
    assert_eq!(TrackColumn::Duration.value_cell(&long), "01:0…");
    assert_eq!(TrackColumn::Duration.value_cell(&short), "01:05");
    assert_eq!(TrackColumn::Year.value_cell(&long), "1999");
    assert_eq!(TrackColumn::Year.value_cell(&short), "   -");
    assert_eq!(TrackColumn::Duration.header_cell(), "  Dur");
    let mut played = song("S", "B", 1, 0, "");
    played.play_count = 1234567;
    assert_eq!(TrackColumn::PlayCount.value_cell(&played), "1234…");
    played.play_count = 7;
    assert_eq!(TrackColumn::PlayCount.value_cell(&played), "    7");
}

#[test]
fn tag_edits_trim_clear_and_normalise() {
    let values = vec![
        (EditField::Title, "  Song ".to_string()),
        (EditField::Genre, String::new()),
        (EditField::Compilation, " Yes ".to_string()),
        (EditField::Compilation, "".to_string()),
        (EditField::Compilation, "nope".to_string()),
        (EditField::Comment, "   ".to_string()),
    ];
    assert_eq!(
        tag_edits(&values),
        vec![
            (EditField::Title, Some("Song".to_string())),
            (EditField::Genre, None),
            (EditField::Compilation, Some("1".to_string())),
            (EditField::Compilation, None),
            (EditField::Compilation, Some("0".to_string())),
            (EditField::Comment, None),
        ]
    );
}

#[test]
fn field_labels_are_distinct() {
    assert_eq!(EditField::TrackNumber.label(), "Track #");
    assert_eq!(EditField::ContentGroup.label(), "Grouping");
    assert_eq!(EditField::Copyright.label(), "Copyright");
    let fields = EditField::detailed();
    for (i, a) in fields.iter().enumerate() {
        for b in fields.iter().skip(i + 1) {
            assert_ne!(a.label(), b.label());
        }
    }
}
