use lyre::keybindings::{Action, Keybindings};
use lyre::keys::{KeyCode, KeyModifiers};
use lyre::types::{EditField, LyricsFetchStatus, Overlay, Panel, SidebarItem, SidebarSection, SortField, SortOrder};
use lyre::view::{Effect, ViewContext, ViewState};

fn ctx() -> ViewContext {
    ViewContext {
        sidebar_items: vec![
            SidebarItem::AllTracks,
            SidebarItem::Favorites,
            SidebarItem::RecentlyAdded,
            SidebarItem::Artists,
            SidebarItem::Artist("Abba".to_string()),
            SidebarItem::Albums,
            SidebarItem::Genres,
            SidebarItem::Playlists,
            SidebarItem::Playlist("Mix".to_string()),
        ],
        track_count: 5,
        queue_len: 3,
        in_playlist: false,
        player_stopped: true,
        has_current_track: false,
        global_result_count: 4,
    }
}

fn press(v: &mut ViewState, kb: &Keybindings, key: KeyCode) -> Effect {
    v.handle_key(&ctx(), kb, key, KeyModifiers::none())
}

#[test]
fn new_view_defaults() {
    let v = ViewState::new(Overlay::Hidden);
    assert_eq!(v.active_panel, Panel::Sidebar);
    assert_eq!(v.sort_field, SortField::Artist);
    assert_eq!(v.sort_order, SortOrder::Asc);
    assert!(!v.show_help && !v.search_mode && v.selection_anchor.is_none());
}

#[test]
fn quit_key_quits_and_changes_nothing() {
    let kb = Keybindings::new();
    let mut v = ViewState::new(Overlay::Hidden);
    assert_eq!(press(&mut v, &kb, KeyCode::Char('q')), Effect::Quit);
    assert_eq!(v.active_panel, Panel::Sidebar);
}

#[test]
fn tab_cycles_panels_and_back() {
    let kb = Keybindings::new();
    let mut v = ViewState::new(Overlay::Hidden);
    assert_eq!(press(&mut v, &kb, KeyCode::Tab), Effect::Nothing);
    assert_eq!(v.active_panel, Panel::TrackList);
    press(&mut v, &kb, KeyCode::Tab);
    assert_eq!(v.active_panel, Panel::Queue);
    press(&mut v, &kb, KeyCode::Tab);
    assert_eq!(v.active_panel, Panel::Sidebar);
    press(&mut v, &kb, KeyCode::BackTab);
    assert_eq!(v.active_panel, Panel::Queue);
    press(&mut v, &kb, KeyCode::Tab);
    assert_eq!(v.active_panel, Panel::Sidebar);
}

#[test]
fn cycling_into_shown_lyrics_loads_them() {
    let mut v = ViewState::new(Overlay::Hidden);
    v.lyrics.visible = true;
    v.active_panel = Panel::Queue;
    assert_eq!(v.execute(&ctx(), Action::CycleForward), Effect::LoadLyrics);
    assert_eq!(v.active_panel, Panel::Lyrics);
    v.lyrics.manual_scroll = true;
    assert_eq!(v.execute(&ctx(), Action::CycleForward), Effect::Nothing);
    assert_eq!(v.active_panel, Panel::Sidebar);
    assert!(!v.lyrics.manual_scroll);
}

#[test]
fn sidebar_navigation_wraps_and_shows_entries() {
    let kb = Keybindings::new();
    let mut v = ViewState::new(Overlay::Hidden);
    assert_eq!(press(&mut v, &kb, KeyCode::Up), Effect::ShowSidebarEntry);
    assert_eq!(v.sidebar_index, 8);
    assert_eq!(press(&mut v, &kb, KeyCode::Down), Effect::ShowSidebarEntry);
    assert_eq!(v.sidebar_index, 0);
}

#[test]
fn sidebar_right_opens_closed_section_then_moves_on() {
    let kb = Keybindings::new();
    let mut v = ViewState::new(Overlay::Hidden);
    v.sidebar_index = 3;
    assert_eq!(press(&mut v, &kb, KeyCode::Right), Effect::RebuildSidebar);
    assert!(v.sidebar_expanded.artists);
    assert_eq!(v.active_panel, Panel::Sidebar);
    assert_eq!(press(&mut v, &kb, KeyCode::Right), Effect::Nothing);
    assert_eq!(v.active_panel, Panel::TrackList);
}

#[test]
fn sidebar_left_on_entry_jumps_to_header() {
    let kb = Keybindings::new();
    let mut v = ViewState::new(Overlay::Hidden);
    v.sidebar_index = 4;
    assert_eq!(press(&mut v, &kb, KeyCode::Left), Effect::ShowSidebarEntry);
    assert_eq!(v.sidebar_index, 3);
    assert_eq!(press(&mut v, &kb, KeyCode::Left), Effect::RebuildSidebar);
    assert!(v.sidebar_expanded.artists);
}

#[test]
fn new_playlist_key_on_playlists() {
    let kb = Keybindings::new();
    let mut v = ViewState::new(Overlay::Hidden);
    v.sidebar_index = 8;
    assert_eq!(press(&mut v, &kb, KeyCode::Char('N')), Effect::Nothing);
    assert!(matches!(&v.overlay, Overlay::NewPlaylist { name, pending_tracks } if name.is_empty() && pending_tracks.is_empty()));
    let mut w = ViewState::new(Overlay::Hidden);
    w.sidebar_index = 0;
    press(&mut w, &kb, KeyCode::Char('N'));
    assert_eq!(w.overlay, Overlay::Hidden);
}

#[test]
fn track_list_navigation_drops_selection() {
    let kb = Keybindings::new();
    let mut v = ViewState::new(Overlay::Hidden);
    v.active_panel = Panel::TrackList;
    v.selection_anchor = Some(2);
    v.track_list_index = 2;
    press(&mut v, &kb, KeyCode::Char('j'));
    assert_eq!(v.track_list_index, 3);
    assert_eq!(v.selection_anchor, None);
    press(&mut v, &kb, KeyCode::End);
    assert_eq!(v.track_list_index, 4);
    press(&mut v, &kb, KeyCode::Down);
    assert_eq!(v.track_list_index, 0);
}

#[test]
fn shift_selection_and_selected_rows() {
    let kb = Keybindings::new();
    let mut v = ViewState::new(Overlay::Hidden);
    v.active_panel = Panel::TrackList;
    v.track_list_index = 1;
    v.handle_key(&ctx(), &kb, KeyCode::Down, KeyModifiers::shift());
    v.handle_key(&ctx(), &kb, KeyCode::Down, KeyModifiers::shift());
    assert_eq!(v.selection_anchor, Some(1));
    assert_eq!(v.track_list_index, 3);
    assert_eq!(v.selected_rows(), vec![1, 2, 3]);
}

#[test]
fn play_pause_depends_on_player_and_panel() {
    let mut v = ViewState::new(Overlay::Hidden);
    v.active_panel = Panel::Queue;
    assert_eq!(v.execute(&ctx(), Action::PlayPause), Effect::PlayQueueSelected);
    v.active_panel = Panel::TrackList;
    assert_eq!(v.execute(&ctx(), Action::PlayPause), Effect::PlaySelected);
    let mut c = ctx();
    c.player_stopped = false;
    assert_eq!(v.execute(&c, Action::PlayPause), Effect::TogglePause);
}

#[test]
fn search_typing_and_deleting() {
    let kb = Keybindings::new();
    let mut v = ViewState::new(Overlay::Hidden);
    v.active_panel = Panel::TrackList;
    assert_eq!(press(&mut v, &kb, KeyCode::Char('/')), Effect::StartSearch);
    assert!(v.search_mode);
    assert_eq!(press(&mut v, &kb, KeyCode::Char('a')), Effect::Research);
    assert_eq!(press(&mut v, &kb, KeyCode::Char('b')), Effect::Research);
    assert_eq!(v.search_query, "ab");
    assert_eq!(press(&mut v, &kb, KeyCode::Backspace), Effect::Research);
    assert_eq!(v.search_query, "a");
    assert_eq!(press(&mut v, &kb, KeyCode::Enter), Effect::Nothing);
    assert!(!v.search_mode);
    assert_eq!(v.track_list_index, 0);
}

#[test]
fn leaving_an_empty_search_restores_the_list() {
    let mut v = ViewState::new(Overlay::Hidden);
    v.search_mode = true;
    assert_eq!(v.execute(&ctx(), Action::SearchExit), Effect::EndSearch { resort: true });
    let mut c = ctx();
    c.in_playlist = true;
    v.search_mode = true;
    assert_eq!(v.execute(&c, Action::SearchExit), Effect::EndSearch { resort: false });
    v.search_query = "x".to_string();
    assert_eq!(v.execute(&c, Action::SearchExit), Effect::Nothing);
}

#[test]
fn sidebar_search_only_in_open_sections() {
    let kb = Keybindings::new();
    let mut v = ViewState::new(Overlay::Hidden);
    v.sidebar_index = 3;
    press(&mut v, &kb, KeyCode::Char('/'));
    assert!(!v.sidebar_search_mode);
    v.sidebar_expanded.artists = true;
    press(&mut v, &kb, KeyCode::Char('/'));
    assert!(v.sidebar_search_mode);
    assert_eq!(v.sidebar_search_section, Some(SidebarSection::Artists));
    assert_eq!(press(&mut v, &kb, KeyCode::Char('b')), Effect::FilterSidebar(SidebarSection::Artists));
    assert_eq!(v.sidebar_search_query, "b");
    assert_eq!(press(&mut v, &kb, KeyCode::Enter), Effect::Nothing);
    assert!(!v.sidebar_search_mode);
    assert_eq!(press(&mut v, &kb, KeyCode::Esc), Effect::FilterSidebar(SidebarSection::Artists));
    assert_eq!(v.sidebar_search_query, "");
    assert_eq!(v.sidebar_search_section, None);
}

#[test]
fn help_opens_scrolls_and_closes() {
    let kb = Keybindings::new();
    let mut v = ViewState::new(Overlay::Hidden);
    press(&mut v, &kb, KeyCode::Char('?'));
    assert!(v.show_help);
    press(&mut v, &kb, KeyCode::PageDown);
    assert_eq!(v.help_scroll, 10);
    press(&mut v, &kb, KeyCode::Up);
    assert_eq!(v.help_scroll, 9);
    press(&mut v, &kb, KeyCode::Esc);
    assert!(!v.show_help);
    assert_eq!(v.help_scroll, 0);
}

#[test]
fn help_scroll_saturates() {
    let mut v = ViewState::new(Overlay::Hidden);
    v.execute(&ctx(), Action::HelpScroll(-10));
    assert_eq!(v.help_scroll, 0);
    v.help_scroll = usize::MAX - 1;
    v.execute(&ctx(), Action::HelpScroll(10));
    assert_eq!(v.help_scroll, usize::MAX);
}

#[test]
fn queue_cursor_after_removal() {
    let mut v = ViewState::new(Overlay::Hidden);
    v.queue_index = 2;
    assert_eq!(v.execute(&ctx(), Action::RemoveFromQueue), Effect::RemoveFromQueue(2));
    assert_eq!(v.queue_index, 1);
    v.queue_index = 0;
    v.execute(&ctx(), Action::RemoveFromQueue);
    assert_eq!(v.queue_index, 0);
}

#[test]
fn adding_selection_to_queue_points_at_first_added() {
    let mut v = ViewState::new(Overlay::Hidden);
    v.track_list_index = 3;
    v.selection_anchor = Some(1);
    assert_eq!(v.execute(&ctx(), Action::AddToQueue), Effect::AddToQueue);
    assert_eq!(v.queue_index, 3);
    assert_eq!(v.selection_anchor, None);
    let mut w = ViewState::new(Overlay::Hidden);
    w.track_list_index = 4;
    w.execute(&ctx(), Action::AddToQueue);
    assert_eq!(w.queue_index, 3);
}

#[test]
fn sort_keys_change_field_and_order() {
    let mut v = ViewState::new(Overlay::Hidden);
    assert_eq!(v.execute(&ctx(), Action::CycleSort), Effect::Resort);
    assert_ne!(v.sort_field, SortField::Artist);
    assert_eq!(v.execute(&ctx(), Action::ToggleSortOrder), Effect::Resort);
    assert_eq!(v.sort_order, SortOrder::Desc);
}

#[test]
fn lyrics_panel_toggle_and_enter_fetches() {
    let mut v = ViewState::new(Overlay::Hidden);
    assert_eq!(v.execute(&ctx(), Action::ToggleLyrics), Effect::LoadLyrics);
    assert_eq!(v.active_panel, Panel::Lyrics);
    assert_eq!(v.execute(&ctx(), Action::Enter), Effect::Nothing);
    let mut c = ctx();
    c.has_current_track = true;
    assert_eq!(v.execute(&c, Action::Enter), Effect::FetchLyrics);
    v.lyrics.fetch_status = LyricsFetchStatus::Fetching;
    assert_eq!(v.execute(&c, Action::Enter), Effect::Nothing);
    assert_eq!(v.execute(&c, Action::ToggleLyrics), Effect::Nothing);
    assert!(!v.lyrics.visible);
    assert_eq!(v.active_panel, Panel::Queue);
}

#[test]
fn lyrics_scroll_keys() {
    let kb = Keybindings::new();
    let mut v = ViewState::new(Overlay::Hidden);
    v.lyrics.visible = true;
    v.active_panel = Panel::Lyrics;
    press(&mut v, &kb, KeyCode::PageDown);
    assert_eq!(v.lyrics.scroll, 10);
    assert!(v.lyrics.manual_scroll);
    press(&mut v, &kb, KeyCode::Up);
    assert_eq!(v.lyrics.scroll, 9);
    press(&mut v, &kb, KeyCode::End);
    assert_eq!(v.lyrics.scroll, usize::MAX);
    assert_eq!(press(&mut v, &kb, KeyCode::Char('r')), Effect::LoadLyrics);
    press(&mut v, &kb, KeyCode::Left);
    assert_eq!(v.active_panel, Panel::Queue);
    assert!(!v.lyrics.manual_scroll);
}

#[test]
fn info_popup_keys() {
    let kb = Keybindings::new();
    let mut v = ViewState::new(Overlay::Hidden);
    v.execute(&ctx(), Action::ToggleInfo);
    assert!(v.show_info);
    v.info_max_scroll = 5;
    press(&mut v, &kb, KeyCode::PageDown);
    assert_eq!(v.info_scroll, 5);
    press(&mut v, &kb, KeyCode::Up);
    assert_eq!(v.info_scroll, 4);
    assert_eq!(press(&mut v, &kb, KeyCode::Char('e')), Effect::EnterInfoEdit);
    v.start_info_edit();
    assert!(v.info_editing);
    assert_eq!(v.info_edit_field, EditField::Title);
    press(&mut v, &kb, KeyCode::BackTab);
    assert_eq!(v.info_edit_field, EditField::Genre);
    press(&mut v, &kb, KeyCode::Tab);
    assert_eq!(v.info_edit_field, EditField::Title);
    press(&mut v, &kb, KeyCode::Down);
    press(&mut v, &kb, KeyCode::Down);
    press(&mut v, &kb, KeyCode::Down);
    assert_eq!(v.info_edit_field, EditField::Year);
    assert_eq!(press(&mut v, &kb, KeyCode::Char('x')), Effect::Nothing);
    assert_eq!(press(&mut v, &kb, KeyCode::Char('7')), Effect::InfoChar(EditField::Year, '7'));
    assert_eq!(press(&mut v, &kb, KeyCode::Enter), Effect::SaveInfo);
    assert!(!v.info_editing);
    assert_eq!(v.execute(&ctx(), Action::InfoClose), Effect::ClearInfo);
    assert!(!v.show_info);
    assert_eq!(v.info_scroll, 0);
}

#[test]
fn detailed_view_keeps_or_snaps_field() {
    let kb = Keybindings::new();
    let mut v = ViewState::new(Overlay::Hidden);
    v.show_info = true;
    v.info_edit_field = EditField::Composer;
    press(&mut v, &kb, KeyCode::Char('d'));
    assert!(v.info_detailed);
    assert_eq!(v.info_edit_field, EditField::Composer);
    press(&mut v, &kb, KeyCode::Char('d'));
    assert!(!v.info_detailed);
    assert_eq!(v.info_edit_field, EditField::Title);
}

#[test]
fn global_search_overlay_keys() {
    let kb = Keybindings::new();
    let mut v = ViewState::new(Overlay::Hidden);
    assert_eq!(v.execute(&ctx(), Action::GlobalSearch), Effect::ClearGlobalResults);
    assert_eq!(v.overlay, Overlay::GlobalSearch);
    assert_eq!(press(&mut v, &kb, KeyCode::Char('q')), Effect::RecomputeGlobalSearch);
    assert_eq!(v.global_search_query, "q");
    press(&mut v, &kb, KeyCode::Up);
    assert_eq!(v.global_search_selected, 3);
    press(&mut v, &kb, KeyCode::Down);
    assert_eq!(v.global_search_selected, 0);
    press(&mut v, &kb, KeyCode::PageDown);
    assert_eq!(v.global_search_selected, 3);
    assert_eq!(press(&mut v, &kb, KeyCode::Enter), Effect::OpenGlobalResult(3));
    assert_eq!(v.overlay, Overlay::Hidden);
    assert_eq!(v.global_search_query, "");
    assert_eq!(v.global_search_selected, 0);
}

#[test]
fn overlay_typing_goes_into_playlist_name() {
    let kb = Keybindings::new();
    let mut v = ViewState::new(Overlay::NewPlaylist { name: String::new(), pending_tracks: vec![] });
    press(&mut v, &kb, KeyCode::Char('q'));
    press(&mut v, &kb, KeyCode::Char('z'));
    press(&mut v, &kb, KeyCode::Backspace);
    assert!(matches!(&v.overlay, Overlay::NewPlaylist { name, .. } if name == "q"));
    assert_eq!(press(&mut v, &kb, KeyCode::Enter), Effect::ConfirmOverlay);
    press(&mut v, &kb, KeyCode::Esc);
    assert_eq!(v.overlay, Overlay::Hidden);
}

#[test]
fn overlay_navigation_switches_setup_field() {
    let mut v = ViewState::new(Overlay::SetupDatabase {
        database_name: "db".to_string(),
        music_directory: "~/Music".to_string(),
        active_field: lyre::types::SetupField::DatabaseName,
    });
    v.execute(&ctx(), Action::OverlayNavigate(1));
    assert!(matches!(v.overlay, Overlay::SetupDatabase { active_field: lyre::types::SetupField::MusicDirectory, .. }));
    let mut w = ViewState::new(Overlay::AddToPlaylist { track_paths: vec!["/a".to_string()] });
    assert_eq!(w.execute(&ctx(), Action::OverlayNavigate(-1)), Effect::ChoosePlaylist(-1));
}

#[test]
fn jumping_to_a_sidebar_entry() {
    let mut v = ViewState::new(Overlay::Hidden);
    v.sidebar_search_mode = true;
    v.sidebar_search_query = "ab".to_string();
    let item = SidebarItem::Playlist("Mix".to_string());
    v.start_jump(&item);
    assert!(!v.sidebar_search_mode);
    assert_eq!(v.sidebar_search_query, "");
    assert!(v.sidebar_expanded.playlists);
    assert!(v.finish_jump(&ctx().sidebar_items, &item));
    assert_eq!(v.sidebar_index, 8);
    assert_eq!(v.active_panel, Panel::TrackList);
    assert!(!v.finish_jump(&ctx().sidebar_items, &SidebarItem::Genre("Jazz".to_string())));
    assert_eq!(v.sidebar_index, 8);
}

#[test]
fn showing_an_entry_resets_search_and_sort() {
    let mut v = ViewState::new(Overlay::Hidden);
    v.search_query = "x".to_string();
    v.track_list_index = 3;
    v.show_entry(&SidebarItem::RecentlyAdded);
    assert_eq!(v.search_query, "");
    assert_eq!(v.track_list_index, 0);
    assert_eq!(v.sort_field, SortField::DateAdded);
    assert_eq!(v.sort_order, SortOrder::Desc);
    v.track_list_index = 2;
    v.show_entry(&SidebarItem::Artists);
    assert_eq!(v.track_list_index, 2);
}
