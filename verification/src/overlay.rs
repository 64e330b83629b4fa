//! Editing inside the modal overlays: typing into the playlist-name and
//! setup fields, switching the setup field, and what confirming an overlay
//! asks the player to do.

use vstd::prelude::*;
use crate::text::{chars_of, decimal, push_char, push_decimal, push_str, string_of, trim, trim_chars};
use crate::types::{Overlay, SetupField};

verus! {

/// Text without its last character (unchanged when empty).
pub open spec fn without_last(s: Seq<char>) -> Seq<char> {
    if s.len() == 0 {
        s
    } else {
        s.drop_last()
    }
}

/// Deletes the last character of `s`, if any.
pub fn pop_char(s: &mut String)
    ensures
        final(s)@ == without_last(old(s)@),
{
    let cs = chars_of(s.as_str());
    if cs.len() > 0 {
        let mut v = cs;
        v.pop();
        *s = string_of(&v);
    }
}

/// The other field of the setup overlay.
pub open spec fn other_field(f: SetupField) -> SetupField {
    match f {
        SetupField::DatabaseName => SetupField::MusicDirectory,
        SetupField::MusicDirectory => SetupField::DatabaseName,
    }
}

/// `after` is the overlay `before` with `c` typed into its text field: the
/// playlist name, or the active field of the setup overlay.  Overlays
/// without a text field do not change.
pub open spec fn typed_into(before: Overlay, c: char, after: Overlay) -> bool {
    match before {
        Overlay::NewPlaylist { name, pending_tracks } => after matches Overlay::NewPlaylist {
            name: n,
            pending_tracks: p,
        } && n@ == name@.push(c) && p@ == pending_tracks@,
        Overlay::SetupDatabase { database_name, music_directory, active_field } => after matches Overlay::SetupDatabase {
            database_name: d,
            music_directory: m,
            active_field: f,
        } && f == active_field && (active_field == SetupField::DatabaseName ==> d@
            == database_name@.push(c) && m@ == music_directory@) && (active_field
            == SetupField::MusicDirectory ==> m@ == music_directory@.push(c) && d@
            == database_name@),
        _ => after == before,
    }
}

/// `after` is the overlay `before` with the last character of its text
/// field deleted.
pub open spec fn backspaced(before: Overlay, after: Overlay) -> bool {
    match before {
        Overlay::NewPlaylist { name, pending_tracks } => after matches Overlay::NewPlaylist {
            name: n,
            pending_tracks: p,
        } && n@ == without_last(name@) && p@ == pending_tracks@,
        Overlay::SetupDatabase { database_name, music_directory, active_field } => after matches Overlay::SetupDatabase {
            database_name: d,
            music_directory: m,
            active_field: f,
        } && f == active_field && (active_field == SetupField::DatabaseName ==> d@
            == without_last(database_name@) && m@ == music_directory@) && (active_field
            == SetupField::MusicDirectory ==> m@ == without_last(music_directory@) && d@
            == database_name@),
        _ => after == before,
    }
}

/// `after` is the setup overlay `before` with the other field active; other
/// overlays do not change.
pub open spec fn switched(before: Overlay, after: Overlay) -> bool {
    match before {
        Overlay::SetupDatabase { database_name, music_directory, active_field } => after matches Overlay::SetupDatabase {
            database_name: d,
            music_directory: m,
            active_field: f,
        } && f == other_field(active_field) && d@ == database_name@ && m@ == music_directory@,
        _ => after == before,
    }
}

/// What confirming an overlay asks for.
#[derive(Debug, Clone)]
pub enum OverlayOutcome {
    /// Create a playlist with this (trimmed) name and these tracks.
    CreatePlaylist { name: String, tracks: Vec<String> },
    /// Add these tracks to the chosen playlist.
    AddToPlaylist { track_paths: Vec<String> },
    /// Set up the library with this database and music directory.
    SetupDatabase { database_name: String, music_directory: String },
    /// Nothing.
    Nothing,
}

impl Overlay {
    /// Types a character into the overlay's text field, if it has one.
    pub fn type_char(&mut self, c: char)
        ensures
            typed_into(*old(self), c, *final(self)),
    {
        match self {
            Overlay::NewPlaylist { name, .. } => push_char(name, c),
            Overlay::SetupDatabase { database_name, music_directory, active_field } => {
                match active_field {
                    SetupField::DatabaseName => push_char(database_name, c),
                    SetupField::MusicDirectory => push_char(music_directory, c),
                }
            },
            _ => {},
        }
    }

    /// Deletes the last character of the overlay's text field, if any.
    pub fn backspace(&mut self)
        ensures
            backspaced(*old(self), *final(self)),
    {
        match self {
            Overlay::NewPlaylist { name, .. } => pop_char(name),
            Overlay::SetupDatabase { database_name, music_directory, active_field } => {
                match active_field {
                    SetupField::DatabaseName => pop_char(database_name),
                    SetupField::MusicDirectory => pop_char(music_directory),
                }
            },
            _ => {},
        }
    }

    /// Moves to the other field of the setup overlay; other overlays do not
    /// change.
    pub fn switch_field(&mut self)
        ensures
            switched(*old(self), *final(self)),
    {
        match self {
            Overlay::SetupDatabase { active_field, .. } => {
                *active_field = match *active_field {
                    SetupField::DatabaseName => SetupField::MusicDirectory,
                    SetupField::MusicDirectory => SetupField::DatabaseName,
                };
            },
            _ => {},
        }
    }

    /// What confirming the overlay does: a non-blank playlist name creates
    /// the playlist (named without surrounding whitespace); the other
    /// overlays hand over what they hold.
    pub fn confirm(&self) -> (r: OverlayOutcome)
        ensures
            match *self {
                Overlay::NewPlaylist { name, pending_tracks } => if trim(name@).len() == 0 {
                    r is Nothing
                } else {
                    r matches OverlayOutcome::CreatePlaylist { name: n, tracks: t } && n@ == trim(
                        name@,
                    ) && t@ == pending_tracks@
                },
                Overlay::AddToPlaylist { track_paths } => r matches OverlayOutcome::AddToPlaylist {
                    track_paths: t,
                } && t@ == track_paths@,
                Overlay::SetupDatabase { database_name, music_directory, .. } => r matches OverlayOutcome::SetupDatabase {
                    database_name: d,
                    music_directory: m,
                } && d@ == database_name@ && m@ == music_directory@,
                _ => r is Nothing,
            },
    {
        match self {
            Overlay::NewPlaylist { name, pending_tracks } => {
                let t = trim_chars(chars_of(name.as_str()).as_slice());
                if t.len() == 0 {
                    OverlayOutcome::Nothing
                } else {
                    OverlayOutcome::CreatePlaylist { name: string_of(&t), tracks: pending_tracks.clone() }
                }
            },
            Overlay::AddToPlaylist { track_paths } => OverlayOutcome::AddToPlaylist {
                track_paths: track_paths.clone(),
            },
            Overlay::SetupDatabase { database_name, music_directory, .. } => OverlayOutcome::SetupDatabase {
                database_name: database_name.clone(),
                music_directory: music_directory.clone(),
            },
            _ => OverlayOutcome::Nothing,
        }
    }
}

} // verus!

verus! {

/// Deleting right after typing a character restores the field.
pub proof fn lemma_type_then_backspace(s: Seq<char>, c: char)
    ensures
        without_last(s.push(c)) == s,
{
    assert(s.push(c).drop_last() =~= s);
}


/// The title of the playlist picker: how many tracks it adds.
pub open spec fn picker_title_text(count: nat) -> Seq<char> {
    if count == 1 {
        " Add to Playlist "@
    } else {
        " Add "@ + decimal(count) + " tracks to Playlist "@
    }
}

pub fn picker_title(count: usize) -> (r: String)
    ensures
        r@ == picker_title_text(count as nat),
{
    if count == 1 {
        return " Add to Playlist ".to_owned();
    }
    let mut r = String::new();
    push_str(&mut r, " Add ");
    push_decimal(&mut r, count as u64);
    push_str(&mut r, " tracks to Playlist ");
    r
}

/// A row of the playlist picker: a marker on the chosen one, then the
/// playlist's name.
pub fn picker_row(name: &str, selected: bool) -> (r: String)
    ensures
        r@ == (if selected {
            "▶ "@
        } else {
            "  "@
        }) + name@,
{
    let mut r = String::new();
    push_str(&mut r, if selected {
        "▶ "
    } else {
        "  "
    });
    push_str(&mut r, name);
    r
}

/// A text field while it is being typed into: its text and a block cursor.
pub fn with_cursor(text: &str) -> (r: String)
    ensures
        r@ == text@ + "█"@,
{
    let mut r = String::new();
    push_str(&mut r, text);
    push_str(&mut r, "█");
    r
}

} // verus!
