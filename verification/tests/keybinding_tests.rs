use lyre::keybindings::{format_keys, key_to_code, Action, Keybindings};
use lyre::keys::{KeyCode, KeyModifiers};
use lyre::types::Panel;

fn none() -> KeyModifiers {
    KeyModifiers::none()
}

#[test]
fn global_keys() {
    let kb = Keybindings::new();
    assert_eq!(kb.lookup(KeyCode::Char('q'), none(), Panel::Sidebar, false, false, false), Some(Action::Quit));
    assert_eq!(kb.lookup(KeyCode::Char(' '), none(), Panel::Queue, false, false, false), Some(Action::PlayPause));
    assert_eq!(kb.lookup(KeyCode::Down, none(), Panel::TrackList, false, false, false), Some(Action::MoveDown));
    assert_eq!(kb.lookup(KeyCode::Char('Z'), none(), Panel::TrackList, false, false, false), None);
}

#[test]
fn panel_bindings_take_priority() {
    let kb = Keybindings::new();
    assert_eq!(kb.lookup(KeyCode::Char('x'), none(), Panel::Queue, false, false, false), Some(Action::RemoveFromQueue));
    assert_eq!(kb.lookup(KeyCode::Char('x'), none(), Panel::TrackList, false, false, false), Some(Action::RemoveFromPlaylist));
    assert_eq!(kb.lookup(KeyCode::Char('x'), none(), Panel::Sidebar, false, false, false), None);
}

#[test]
fn shift_arrows_extend_selection_in_track_list() {
    let kb = Keybindings::new();
    assert_eq!(kb.lookup(KeyCode::Up, KeyModifiers::shift(), Panel::TrackList, false, false, false), Some(Action::ExtendSelectionUp));
    assert_eq!(kb.lookup(KeyCode::Up, KeyModifiers::shift(), Panel::Queue, false, false, false), None);
}

#[test]
fn shift_is_ignored_on_characters() {
    let kb = Keybindings::new();
    assert_eq!(kb.lookup(KeyCode::Char('G'), KeyModifiers::shift(), Panel::Sidebar, false, false, false), Some(Action::GoToBottom));
    assert_eq!(
        kb.lookup(KeyCode::Char('q'), KeyModifiers::shift(), Panel::Sidebar, false, false, false),
        kb.lookup(KeyCode::Char('q'), none(), Panel::Sidebar, false, false, false)
    );
    assert_eq!(kb.lookup(KeyCode::Char('q'), KeyModifiers::control(), Panel::Sidebar, false, false, false), None);
}

#[test]
fn modes_take_keys_first() {
    let kb = Keybindings::new();
    assert_eq!(kb.lookup(KeyCode::Char('q'), none(), Panel::Sidebar, true, false, false), Some(Action::SearchChar('q')));
    assert_eq!(kb.lookup(KeyCode::Esc, none(), Panel::Sidebar, true, false, false), Some(Action::SearchExit));
    assert_eq!(kb.lookup(KeyCode::Char('j'), none(), Panel::Sidebar, true, true, false), Some(Action::HelpScroll(1)));
    assert_eq!(kb.lookup(KeyCode::Char('q'), none(), Panel::Sidebar, true, true, false), None);
    assert_eq!(kb.lookup(KeyCode::Char('k'), none(), Panel::Sidebar, true, true, true), Some(Action::OverlayNavigate(-1)));
    assert_eq!(kb.lookup(KeyCode::Char('z'), none(), Panel::Sidebar, false, false, true), Some(Action::OverlayChar('z')));
    assert_eq!(kb.lookup(KeyCode::Tab, none(), Panel::Sidebar, false, false, true), None);
}

#[test]
fn key_names() {
    assert_eq!(format_keys(&[KeyCode::Char('j'), KeyCode::Down]), "j  or  ↓");
    assert_eq!(format_keys(&[KeyCode::Char(' ')]), "space");
    assert_eq!(format_keys(&[KeyCode::BackTab, KeyCode::PageDown, KeyCode::F(5)]), "Shift-Tab  or  PgDn  or  F(5)");
    assert_eq!(format_keys(&[]), "");
}

#[test]
fn keys_of_actions() {
    let kb = Keybindings::new();
    assert_eq!(kb.keys_for_action(Action::MoveDown), "j  or  ↓");
    assert_eq!(kb.keys_for_action(Action::SearchChar('a')), "");
    assert_eq!(kb.keys_for_actions(&[Action::CycleForward, Action::CycleBackward]), "Tab / Shift-Tab");
    assert_eq!(kb.keys_for_actions(&[Action::SearchChar('a'), Action::Quit]), "q");
}

#[test]
fn help_screen() {
    let kb = Keybindings::new();
    let s = kb.help_sections();
    let titles: Vec<&str> = s.iter().map(|x| x.0).collect();
    assert_eq!(titles, vec!["Navigation", "Playback", "Queue", "Library", "Playlists", "Other"]);
    assert_eq!(s[0].1[0], ("Tab / Shift-Tab".to_string(), "Cycle panels"));
    assert_eq!(s[0].1[8], ("l  or  →  on section header".to_string(), "Expand  (or focus tracks if open)"));
    assert_eq!(s[2].1[4], ("Shift+↑ / Shift+↓".to_string(), "Multi-select tracks (in track list)"));
    assert_eq!(s[5].1[1], ("q".to_string(), "Quit"));
}

#[test]
fn movement_actions_as_keys() {
    assert_eq!(key_to_code(Action::MoveUp), KeyCode::Up);
    assert_eq!(key_to_code(Action::GoToBottom), KeyCode::End);
    assert_eq!(key_to_code(Action::Quit), KeyCode::Null);
}
