use lyre::mpris::{command_effect, MprisCommand, MprisEffect, MprisPlaybackStatus};
use lyre::overlay::OverlayOutcome;
use lyre::types::{LoopMode, Overlay, PlayerState, SetupField, SortField};

#[test]
fn mpris_status_names() {
    assert_eq!(MprisPlaybackStatus::Playing.as_str(), "Playing");
    assert_eq!(MprisPlaybackStatus::of_player_state(PlayerState::Paused).as_str(), "Paused");
    assert_eq!(MprisPlaybackStatus::of_player_state(PlayerState::Stopped), MprisPlaybackStatus::Stopped);
}

#[test]
fn mpris_commands() {
    assert_eq!(command_effect(MprisCommand::Play, PlayerState::Stopped), MprisEffect::Nothing);
    assert_eq!(command_effect(MprisCommand::PlayPause, PlayerState::Paused), MprisEffect::TogglePause);
    assert_eq!(command_effect(MprisCommand::Pause, PlayerState::Paused), MprisEffect::Nothing);
    assert_eq!(command_effect(MprisCommand::Pause, PlayerState::Playing), MprisEffect::TogglePause);
    assert_eq!(command_effect(MprisCommand::Next, PlayerState::Stopped), MprisEffect::Next);
}

#[test]
fn new_playlist_overlay_editing() {
    let mut o = Overlay::NewPlaylist { name: "ab".into(), pending_tracks: vec!["/t".into()] };
    o.type_char('c');
    o.backspace();
    o.backspace();
    o.type_char(' ');
    match o.confirm() {
        OverlayOutcome::CreatePlaylist { name, tracks } => {
            assert_eq!(name, "a");
            assert_eq!(tracks, vec!["/t".to_string()]);
        }
        _ => panic!("expected a playlist"),
    }
    let blank = Overlay::NewPlaylist { name: "  ".into(), pending_tracks: vec![] };
    assert!(matches!(blank.confirm(), OverlayOutcome::Nothing));
}

#[test]
fn setup_overlay_fields() {
    let mut o = Overlay::SetupDatabase {
        database_name: "db".into(),
        music_directory: "m".into(),
        active_field: SetupField::DatabaseName,
    };
    o.type_char('x');
    o.switch_field();
    o.type_char('y');
    o.backspace();
    o.backspace();
    match o.confirm() {
        OverlayOutcome::SetupDatabase { database_name, music_directory } => {
            assert_eq!(database_name, "dbx");
            assert_eq!(music_directory, "");
        }
        _ => panic!("expected setup"),
    }
    let mut g = Overlay::GlobalSearch;
    g.type_char('x');
    assert_eq!(g, Overlay::GlobalSearch);
    assert!(matches!(Overlay::Hidden.confirm(), OverlayOutcome::Nothing));
}

#[test]
fn cycles_come_back() {
    let m = LoopMode::Off;
    assert_eq!(m.next().next().next(), m);
    assert_eq!(LoopMode::from_label("one"), LoopMode::One);
    assert_eq!(LoopMode::from_label("bogus"), LoopMode::Off);
    let mut f = SortField::Title;
    for _ in 0..9 {
        f = f.next();
    }
    assert_eq!(f, SortField::Title);
}
