//! Desktop media-control integration: the playback status reported to the
//! desktop, and what a command from the desktop does to playback.

use vstd::prelude::*;
use crate::types::PlayerState;

verus! {

/// Playback status as the media-control interface names it.
#[derive(Debug, Clone, Copy, PartialEq, Eq, Structural)]
pub enum MprisPlaybackStatus {
    Playing,
    Paused,
    Stopped,
}

impl MprisPlaybackStatus {
    pub open spec fn name(self) -> Seq<char> {
        match self {
            MprisPlaybackStatus::Playing => "Playing"@,
            MprisPlaybackStatus::Paused => "Paused"@,
            MprisPlaybackStatus::Stopped => "Stopped"@,
        }
    }

    /// The status as the interface spells it.
    pub fn as_str(&self) -> (r: &'static str)
        ensures
            r@ == self.name(),
    {
        match self {
            MprisPlaybackStatus::Playing => "Playing",
            MprisPlaybackStatus::Paused => "Paused",
            MprisPlaybackStatus::Stopped => "Stopped",
        }
    }

    /// The status reported for a player state.
    pub fn of_player_state(state: PlayerState) -> (r: MprisPlaybackStatus)
        ensures
            r == match state {
                PlayerState::Playing => MprisPlaybackStatus::Playing,
                PlayerState::Paused => MprisPlaybackStatus::Paused,
                PlayerState::Stopped => MprisPlaybackStatus::Stopped,
            },
    {
        match state {
            PlayerState::Playing => MprisPlaybackStatus::Playing,
            PlayerState::Paused => MprisPlaybackStatus::Paused,
            PlayerState::Stopped => MprisPlaybackStatus::Stopped,
        }
    }
}

/// A command sent from the desktop.
#[derive(Debug, Clone, Copy, PartialEq, Eq, Structural)]
pub enum MprisCommand {
    Play,
    Pause,
    PlayPause,
    Stop,
    Next,
    Previous,
}

/// What the player does for a desktop command.
#[derive(Debug, Clone, Copy, PartialEq, Eq, Structural)]
pub enum MprisEffect {
    TogglePause,
    Stop,
    Next,
    Previous,
    Nothing,
}

/// The effect of a desktop command in a player state: play and play-pause
/// toggle pause unless stopped, pause toggles only while playing.
pub fn command_effect(cmd: MprisCommand, state: PlayerState) -> (r: MprisEffect)
    ensures
        r == match cmd {
            MprisCommand::Play | MprisCommand::PlayPause => if state != PlayerState::Stopped {
                MprisEffect::TogglePause
            } else {
                MprisEffect::Nothing
            },
            MprisCommand::Pause => if state == PlayerState::Playing {
                MprisEffect::TogglePause
            } else {
                MprisEffect::Nothing
            },
            MprisCommand::Stop => MprisEffect::Stop,
            MprisCommand::Next => MprisEffect::Next,
            MprisCommand::Previous => MprisEffect::Previous,
        },
{
    match cmd {
        MprisCommand::Play | MprisCommand::PlayPause => {
            if state != PlayerState::Stopped {
                MprisEffect::TogglePause
            } else {
                MprisEffect::Nothing
            }
        },
        MprisCommand::Pause => {
            if state == PlayerState::Playing {
                MprisEffect::TogglePause
            } else {
                MprisEffect::Nothing
            }
        },
        MprisCommand::Stop => MprisEffect::Stop,
        MprisCommand::Next => MprisEffect::Next,
        MprisCommand::Previous => MprisEffect::Previous,
    }
}

} // verus!
