//! The library's data types: tracks, list columns, sort fields, sidebar
//! entries, playback and lyrics state, and their display text.

use std::sync::Arc;
use vstd::prelude::*;
use crate::text::{
    decimal, int_to_string, push_decimal, push_signed, push_str, push_two_digits, signed_decimal,
    two_digits,
};
use crate::util::{spaces, text_width, truncate_field, truncated};

verus! {

/// An entry in the "Add to playlist" picker: the synthetic "+ New Playlist"
/// row, or an existing playlist by its index.
#[derive(Debug, Clone, Copy, PartialEq, Eq, Structural)]
pub enum AddToPlaylistItem {
    NewPlaylist,
    Existing(usize),
}

/// One hit of the global search overlay.
#[derive(Debug, Clone)]
pub enum GlobalSearchResult {
    Track(Arc<Track>),
    Album(String),
    Artist(String),
    Playlist(String),
    Genre(String),
}

/// A track of the library.
#[derive(Debug, Clone)]
pub struct Track {
    pub path: String,
    pub artist: String,
    pub album: String,
    pub albumartist: String,
    pub title: String,
    pub duration: i64,
    pub year: i32,
    pub genre: String,
    pub added_at: i64,
    pub favorite: bool,
    pub play_count: i64,
    pub last_played: i64,
}

impl Track {
    /// The title shown for the track: its title, or its path when untitled.
    pub open spec fn shown_title(&self) -> Seq<char> {
        if self.title@.len() == 0 {
            self.path@
        } else {
            self.title@
        }
    }

    /// The artist shown for the track: album artist, else artist, else
    /// "Unknown Artist".
    pub open spec fn shown_artist(&self) -> Seq<char> {
        if self.albumartist@.len() != 0 {
            self.albumartist@
        } else if self.artist@.len() != 0 {
            self.artist@
        } else {
            "Unknown Artist"@
        }
    }

    /// The album shown for the track, or "Unknown Album".
    pub open spec fn shown_album(&self) -> Seq<char> {
        if self.album@.len() == 0 {
            "Unknown Album"@
        } else {
            self.album@
        }
    }

    pub fn display_title(&self) -> (r: &str)
        ensures
            r@ == self.shown_title(),
    {
        if self.title.as_str().is_empty() {
            self.path.as_str()
        } else {
            self.title.as_str()
        }
    }

    pub fn display_artist(&self) -> (r: &str)
        ensures
            r@ == self.shown_artist(),
    {
        if !self.albumartist.as_str().is_empty() {
            self.albumartist.as_str()
        } else if !self.artist.as_str().is_empty() {
            self.artist.as_str()
        } else {
            "Unknown Artist"
        }
    }

    pub fn display_album(&self) -> (r: &str)
        ensures
            r@ == self.shown_album(),
    {
        if self.album.as_str().is_empty() {
            "Unknown Album"
        } else {
            self.album.as_str()
        }
    }

    pub fn duration_str(&self) -> (r: String)
        ensures
            r@ == duration_text(self.duration as int),
    {
        format_duration(self.duration)
    }
}

/// `mm:ss`, or `hh:mm:ss` from one hour on, each part at least two digits;
/// `--:--` for a missing (non-positive) duration.
pub open spec fn duration_text(secs: int) -> Seq<char> {
    if secs <= 0 {
        "--:--"@
    } else {
        let h = secs / 3600;
        let m = (secs % 3600) / 60;
        let s = secs % 60;
        if h > 0 {
            two_digits(h as nat) + seq![':'] + two_digits(m as nat) + seq![':'] + two_digits(
                s as nat,
            )
        } else {
            two_digits(m as nat) + seq![':'] + two_digits(s as nat)
        }
    }
}

/// Formats a duration in seconds as `mm:ss` or `hh:mm:ss`.
pub fn format_duration(secs: i64) -> (r: String)
    ensures
        r@ == duration_text(secs as int),
{
    if secs <= 0 {
        return "--:--".to_owned();
    }
    let h = secs / 3600;
    let m = (secs % 3600) / 60;
    let s = secs % 60;
    let mut r = String::new();
    if h > 0 {
        push_two_digits(&mut r, h as u64);
        push_str(&mut r, ":");
        push_two_digits(&mut r, m as u64);
        push_str(&mut r, ":");
        push_two_digits(&mut r, s as u64);
    } else {
        push_two_digits(&mut r, m as u64);
        push_str(&mut r, ":");
        push_two_digits(&mut r, s as u64);
    }
    proof {
        reveal_strlit(":");
    }
    r
}

/// A short relative time for a unix timestamp seen at time `now`:
/// "never" for the unset sentinel (`ts <= 0`), else "just now", "Nm ago",
/// "Nh ago", "Nd ago", "Nmo ago" (30-day months) or "Ny ago" (365-day years).
pub open spec fn relative_text(ts: int, now: int) -> Seq<char> {
    if ts <= 0 {
        "never"@
    } else {
        let delta: int = if now - ts > 0 {
            now - ts
        } else {
            0
        };
        if delta < 60 {
            "just now"@
        } else if delta < 3600 {
            decimal((delta / 60) as nat) + "m ago"@
        } else if delta < 86_400 {
            decimal((delta / 3600) as nat) + "h ago"@
        } else if delta < 86_400 * 30 {
            decimal((delta / 86_400) as nat) + "d ago"@
        } else if delta < 86_400 * 365 {
            decimal((delta / (86_400int * 30)) as nat) + "mo ago"@
        } else {
            decimal((delta / (86_400int * 365)) as nat) + "y ago"@
        }
    }
}

/// Formats `ts` relative to the time `now` (both unix seconds).
pub fn format_relative_at(ts: i64, now: i64) -> (r: String)
    ensures
        r@ == relative_text(ts as int, now as int),
{
    if ts <= 0 {
        return "never".to_owned();
    }
    let d: i128 = (now as i128) - (ts as i128);
    let delta: i128 = if d > 0 {
        d
    } else {
        0
    };
    if delta < 60 {
        return "just now".to_owned();
    }
    let mut r = String::new();
    if delta < 3600 {
        push_decimal(&mut r, (delta / 60) as u64);
        push_str(&mut r, "m ago");
    } else if delta < 86_400 {
        push_decimal(&mut r, (delta / 3600) as u64);
        push_str(&mut r, "h ago");
    } else if delta < 86_400 * 30 {
        push_decimal(&mut r, (delta / 86_400) as u64);
        push_str(&mut r, "d ago");
    } else if delta < 86_400 * 365 {
        push_decimal(&mut r, (delta / (86_400 * 30)) as u64);
        push_str(&mut r, "mo ago");
    } else {
        push_decimal(&mut r, (delta / (86_400 * 365)) as u64);
        push_str(&mut r, "y ago");
    }
    r
}

/// The current unix time in seconds; `None` when the clock reads before the
/// epoch.  Nothing is claimed of the value: it is the machine's clock.
#[verifier::external_body]
pub fn unix_time_now() -> (r: Option<i64>) {
    std::time::SystemTime::now().duration_since(std::time::UNIX_EPOCH).ok().map(
        |d| d.as_secs() as i64,
    )
}

/// The time a relative timestamp is measured against: the clock reading,
/// or `ts` itself when the clock gave nothing.
pub open spec fn clock_or(now: Option<i64>, ts: int) -> int {
    match now {
        Some(n) => n as int,
        None => ts,
    }
}

/// Renders a unix timestamp as a short relative time ("3d ago"), or "never"
/// for tracks that were never played / have no date.
pub fn format_relative(ts: i64) -> (r: String)
    ensures
        ts <= 0 ==> r@ == "never"@,
        exists|now: Option<i64>| r@ == relative_text(ts as int, clock_or(now, ts as int)),
{
    let now = unix_time_now();
    let n = match now {
        Some(n) => n,
        None => ts,
    };
    let r = format_relative_at(ts, n);
    assert(r@ == relative_text(ts as int, clock_or(now, ts as int)));
    r
}

} // verus!

verus! {

/// An optional column of the track list.  Artist and Album are "wrap"
/// columns (proportional width, word-wrapped when selected); the others are
/// fixed-width, single-line "flat" columns.
#[derive(Debug, Clone, Copy, PartialEq, Eq, Structural)]
pub enum TrackColumn {
    Artist,
    Album,
    Duration,
    Year,
    Genre,
    PlayCount,
    DateAdded,
    LastPlayed,
}

impl TrackColumn {
    /// Every column, in settings-checklist and on-screen order.
    pub fn all() -> (r: Vec<TrackColumn>)
        ensures
            r@ == seq![
                TrackColumn::Artist,
                TrackColumn::Album,
                TrackColumn::Duration,
                TrackColumn::Year,
                TrackColumn::Genre,
                TrackColumn::PlayCount,
                TrackColumn::DateAdded,
                TrackColumn::LastPlayed,
            ],
    {
        let mut v = Vec::new();
        v.push(TrackColumn::Artist);
        v.push(TrackColumn::Album);
        v.push(TrackColumn::Duration);
        v.push(TrackColumn::Year);
        v.push(TrackColumn::Genre);
        v.push(TrackColumn::PlayCount);
        v.push(TrackColumn::DateAdded);
        v.push(TrackColumn::LastPlayed);
        v
    }

    pub open spec fn wraps(self) -> bool {
        self is Artist || self is Album
    }

    pub fn is_wrap(self) -> (b: bool)
        ensures
            b == self.wraps(),
    {
        match self {
            TrackColumn::Artist | TrackColumn::Album => true,
            _ => false,
        }
    }

    pub open spec fn label_text(self) -> Seq<char> {
        match self {
            TrackColumn::Artist => "Artist"@,
            TrackColumn::Album => "Album"@,
            TrackColumn::Duration => "Duration"@,
            TrackColumn::Year => "Year"@,
            TrackColumn::Genre => "Genre"@,
            TrackColumn::PlayCount => "Plays"@,
            TrackColumn::DateAdded => "Added"@,
            TrackColumn::LastPlayed => "Last Played"@,
        }
    }

    pub fn label(self) -> (r: &'static str)
        ensures
            r@ == self.label_text(),
    {
        match self {
            TrackColumn::Artist => "Artist",
            TrackColumn::Album => "Album",
            TrackColumn::Duration => "Duration",
            TrackColumn::Year => "Year",
            TrackColumn::Genre => "Genre",
            TrackColumn::PlayCount => "Plays",
            TrackColumn::DateAdded => "Added",
            TrackColumn::LastPlayed => "Last Played",
        }
    }

    /// Short header label of a flat column ("Dur" for Duration).
    pub open spec fn header_text(self) -> Seq<char> {
        match self {
            TrackColumn::Duration => "Dur"@,
            _ => self.label_text(),
        }
    }

    pub fn header_label(self) -> (r: &'static str)
        ensures
            r@ == self.header_text(),
    {
        match self {
            TrackColumn::Duration => "Dur",
            other => other.label(),
        }
    }

    /// Stable identifier persisted in the configuration file.
    pub open spec fn key_text(self) -> Seq<char> {
        match self {
            TrackColumn::Artist => "artist"@,
            TrackColumn::Album => "album"@,
            TrackColumn::Duration => "duration"@,
            TrackColumn::Year => "year"@,
            TrackColumn::Genre => "genre"@,
            TrackColumn::PlayCount => "play_count"@,
            TrackColumn::DateAdded => "date_added"@,
            TrackColumn::LastPlayed => "last_played"@,
        }
    }

    pub fn config_key(self) -> (r: &'static str)
        ensures
            r@ == self.key_text(),
    {
        match self {
            TrackColumn::Artist => "artist",
            TrackColumn::Album => "album",
            TrackColumn::Duration => "duration",
            TrackColumn::Year => "year",
            TrackColumn::Genre => "genre",
            TrackColumn::PlayCount => "play_count",
            TrackColumn::DateAdded => "date_added",
            TrackColumn::LastPlayed => "last_played",
        }
    }

    /// Fixed display width of a flat column.
    pub open spec fn fixed_width(self) -> nat {
        match self {
            TrackColumn::Duration => 5,
            TrackColumn::Year => 4,
            TrackColumn::Genre => 12,
            TrackColumn::PlayCount => 5,
            TrackColumn::DateAdded => 10,
            TrackColumn::LastPlayed => 10,
            _ => 0,
        }
    }

    /// Fixed display width of a flat column; wrap columns have none.
    pub fn width(self) -> (w: usize)
        requires
            !self.wraps(),
        ensures
            w as nat == self.fixed_width(),
    {
        match self {
            TrackColumn::Duration => 5,
            TrackColumn::Year => 4,
            TrackColumn::Genre => 12,
            TrackColumn::PlayCount => 5,
            TrackColumn::DateAdded => 10,
            TrackColumn::LastPlayed => 10,
            TrackColumn::Artist | TrackColumn::Album => 0,
        }
    }

    /// The text of this column for `track`, relative times measured at `now`.
    pub open spec fn value_text(self, track: Track, now: int) -> Seq<char> {
        match self {
            TrackColumn::Artist => track.shown_artist(),
            TrackColumn::Album => track.shown_album(),
            TrackColumn::Duration => duration_text(track.duration as int),
            TrackColumn::Year => if track.year > 0 {
                decimal(track.year as nat)
            } else {
                "-"@
            },
            TrackColumn::Genre => if track.genre@.len() == 0 {
                "-"@
            } else {
                track.genre@
            },
            TrackColumn::PlayCount => signed_decimal(track.play_count as int),
            TrackColumn::DateAdded => relative_text(track.added_at as int, now),
            TrackColumn::LastPlayed => relative_text(track.last_played as int, now),
        }
    }

    /// The text of this column for `track`, with relative times measured at
    /// the clock reading `now` (or at the timestamp itself without one).
    pub open spec fn value_text_at(self, track: Track, now: Option<i64>) -> Seq<char> {
        match self {
            TrackColumn::DateAdded => self.value_text(track, clock_or(now, track.added_at as int)),
            TrackColumn::LastPlayed => self.value_text(
                track,
                clock_or(now, track.last_played as int),
            ),
            _ => self.value_text(track, 0),
        }
    }

    /// The text of this column for `track` given the clock reading `now`.
    pub fn value_at(self, track: &Track, now: Option<i64>) -> (r: String)
        ensures
            r@ == self.value_text_at(*track, now),
    {
        match self {
            TrackColumn::Artist => track.display_artist().to_owned(),
            TrackColumn::Album => track.display_album().to_owned(),
            TrackColumn::Duration => track.duration_str(),
            TrackColumn::Year => if track.year > 0 {
                let mut r = String::new();
                push_decimal(&mut r, track.year as u64);
                r
            } else {
                "-".to_owned()
            },
            TrackColumn::Genre => if track.genre.as_str().is_empty() {
                "-".to_owned()
            } else {
                track.genre.clone()
            },
            TrackColumn::PlayCount => int_to_string(track.play_count),
            TrackColumn::DateAdded => {
                let n = match now {
                    Some(n) => n,
                    None => track.added_at,
                };
                format_relative_at(track.added_at, n)
            },
            TrackColumn::LastPlayed => {
                let n = match now {
                    Some(n) => n,
                    None => track.last_played,
                };
                format_relative_at(track.last_played, n)
            },
        }
    }

    /// The text of this column for `track`; date columns read the clock.
    pub fn value(self, track: &Track) -> (r: String)
        ensures
            exists|now: Option<i64>| r@ == self.value_text_at(*track, now),
    {
        let now = unix_time_now();
        let r = self.value_at(track, now);
        assert(r@ == self.value_text_at(*track, now));
        r
    }

    pub open spec fn numeric(self) -> bool {
        self is Duration || self is Year || self is PlayCount
    }

    pub fn is_numeric(self) -> (b: bool)
        ensures
            b == self.numeric(),
    {
        match self {
            TrackColumn::Duration | TrackColumn::Year | TrackColumn::PlayCount => true,
            _ => false,
        }
    }

    /// A flat cell holding `text`, fitted to the column width: numeric text
    /// that fits is right-aligned; any other text, and numeric text wider
    /// than the column, is truncated (with an ellipsis) and padded.
    pub open spec fn cell_text(self, text: Seq<char>) -> Seq<char> {
        let w = self.fixed_width();
        if self.numeric() && text_width(text) <= w {
            spaces((w - text_width(text)) as nat) + text
        } else {
            truncated(text, w)
        }
    }

    fn cell_from(self, text: &str) -> (r: String)
        requires
            !self.wraps(),
        ensures
            r@ == self.cell_text(text@),
    {
        let w = self.width();
        if self.is_numeric() {
            let tw = crate::util::display_width(text);
            if tw <= w {
                let mut r = String::new();
                crate::text::push_repeat(&mut r, ' ', w - tw);
                push_str(&mut r, text);
                return r;
            }
        }
        truncate_field(text, w)
    }

    /// The header cell of a flat column.
    pub fn header_cell(self) -> (r: String)
        requires
            !self.wraps(),
        ensures
            r@ == self.cell_text(self.header_text()),
    {
        self.cell_from(self.header_label())
    }

    /// The cell of a flat column for `track`.
    pub fn value_cell(self, track: &Track) -> (r: String)
        requires
            !self.wraps(),
        ensures
            exists|now: Option<i64>| r@ == self.cell_text(self.value_text_at(*track, now)),
    {
        let now = unix_time_now();
        let v = self.value_at(track, now);
        let r = self.cell_from(v.as_str());
        assert(r@ == self.cell_text(self.value_text_at(*track, now)));
        r
    }

    /// A blank flat cell.
    pub fn blank_cell(self) -> (r: String)
        requires
            !self.wraps(),
        ensures
            r@ == spaces(self.fixed_width()),
    {
        let mut r = String::new();
        crate::text::push_repeat(&mut r, ' ', self.width());
        r
    }
}

/// Display width reserved for the enabled flat columns: each takes its
/// width plus a two-column separator.
pub open spec fn columns_width(columns: Seq<TrackColumn>) -> nat
    decreases columns.len(),
{
    if columns.len() == 0 {
        0
    } else {
        columns_width(columns.drop_last()) + if columns.last().wraps() {
            0
        } else {
            columns.last().fixed_width() + 2
        }
    }
}

proof fn lemma_columns_width_bound(columns: Seq<TrackColumn>)
    ensures
        columns_width(columns) <= 14 * columns.len(),
    decreases columns.len(),
{
    if columns.len() > 0 {
        lemma_columns_width_bound(columns.drop_last());
    }
}

/// Total display width (separators included) of the flat columns among
/// `columns`.
pub fn extra_columns_width(columns: &[TrackColumn]) -> (w: usize)
    requires
        columns@.len() <= usize::MAX / 14,
    ensures
        w as nat == columns_width(columns@),
{
    let mut total: usize = 0;
    let mut i: usize = 0;
    assert(columns@.take(0) =~= Seq::<TrackColumn>::empty());
    while i < columns.len()
        invariant
            i <= columns@.len() <= usize::MAX / 14,
            total as nat == columns_width(columns@.take(i as int)),
        decreases columns@.len() - i,
    {
        let c = columns[i];
        assert(columns@.take(i + 1).drop_last() =~= columns@.take(i as int));
        proof {
            lemma_columns_width_bound(columns@.take(i + 1));
        }
        if !c.is_wrap() {
            total = total + c.width() + 2;
        }
        i = i + 1;
    }
    assert(columns@.take(columns@.len() as int) =~= columns@);
    total
}

} // verus!

verus! {

/// Field the track list is sorted by.
#[derive(Debug, Clone, Copy, PartialEq, Eq, Structural)]
pub enum SortField {
    Title,
    Artist,
    Album,
    Year,
    Genre,
    Duration,
    DateAdded,
    PlayCount,
    LastPlayed,
}

impl SortField {
    pub open spec fn label_text(self) -> Seq<char> {
        match self {
            SortField::Title => "Title"@,
            SortField::Artist => "Artist"@,
            SortField::Album => "Album"@,
            SortField::Year => "Year"@,
            SortField::Genre => "Genre"@,
            SortField::Duration => "Duration"@,
            SortField::DateAdded => "Date Added"@,
            SortField::PlayCount => "Play Count"@,
            SortField::LastPlayed => "Last Played"@,
        }
    }

    pub fn label(&self) -> (r: &'static str)
        ensures
            r@ == self.label_text(),
    {
        match self {
            SortField::Title => "Title",
            SortField::Artist => "Artist",
            SortField::Album => "Album",
            SortField::Year => "Year",
            SortField::Genre => "Genre",
            SortField::Duration => "Duration",
            SortField::DateAdded => "Date Added",
            SortField::PlayCount => "Play Count",
            SortField::LastPlayed => "Last Played",
        }
    }

    /// The field after this one in the sort cycle.
    pub open spec fn successor(self) -> SortField {
        match self {
            SortField::Title => SortField::Artist,
            SortField::Artist => SortField::Album,
            SortField::Album => SortField::Year,
            SortField::Year => SortField::Genre,
            SortField::Genre => SortField::Duration,
            SortField::Duration => SortField::DateAdded,
            SortField::DateAdded => SortField::PlayCount,
            SortField::PlayCount => SortField::LastPlayed,
            SortField::LastPlayed => SortField::Title,
        }
    }

    pub fn next(&self) -> (r: SortField)
        ensures
            r == self.successor(),
    {
        match self {
            SortField::Title => SortField::Artist,
            SortField::Artist => SortField::Album,
            SortField::Album => SortField::Year,
            SortField::Year => SortField::Genre,
            SortField::Genre => SortField::Duration,
            SortField::Duration => SortField::DateAdded,
            SortField::DateAdded => SortField::PlayCount,
            SortField::PlayCount => SortField::LastPlayed,
            SortField::LastPlayed => SortField::Title,
        }
    }
}

/// Nine steps of the sort cycle return to the starting field, and no fewer
/// do: the cycle visits every field once.
pub proof fn lemma_sort_cycle(f: SortField)
    ensures
        f.successor().successor().successor().successor().successor().successor().successor().successor().successor()
            == f,
        f.successor() != f,
{
}

#[derive(Debug, Clone, Copy, PartialEq, Eq, Structural)]
pub enum SortOrder {
    Asc,
    Desc,
}

#[derive(Debug, Clone, Copy, PartialEq, Eq, Structural)]
pub enum Panel {
    Sidebar,
    TrackList,
    Queue,
    Lyrics,
}

/// An entry of the sidebar list.
#[derive(Debug, Clone, PartialEq)]
pub enum SidebarItem {
    AllTracks,
    RecentlyAdded,
    RecentlyPlayed,
    MostPlayed,
    Favorites,
    Artists,
    Artist(String),
    Albums,
    Album(String),
    Genres,
    Genre(String),
    Playlists,
    Playlist(String),
}

impl SidebarItem {
    /// The row text of the entry in the sidebar.
    pub open spec fn label_text(&self) -> Seq<char> {
        match self {
            SidebarItem::AllTracks => "♫ All Tracks"@,
            SidebarItem::Favorites => "♫ Favorites"@,
            SidebarItem::RecentlyAdded => "♫ Recently Added"@,
            SidebarItem::RecentlyPlayed => "♫ Recently Played"@,
            SidebarItem::MostPlayed => "♫ Most Played"@,
            SidebarItem::Artists => "  Artists"@,
            SidebarItem::Artist(a) => seq![' '] + a@,
            SidebarItem::Albums => "  Albums"@,
            SidebarItem::Album(a) => seq![' '] + a@,
            SidebarItem::Genres => "  Genres"@,
            SidebarItem::Genre(g) => seq![' '] + g@,
            SidebarItem::Playlists => "  Playlists"@,
            SidebarItem::Playlist(p) => seq![' '] + p@,
        }
    }

    fn indented(name: &String) -> (r: String)
        ensures
            r@ == seq![' '] + name@,
    {
        let mut r = String::new();
        crate::text::push_char(&mut r, ' ');
        push_str(&mut r, name.as_str());
        r
    }

    pub fn label(&self) -> (r: String)
        ensures
            r@ == self.label_text(),
    {
        match self {
            SidebarItem::AllTracks => "♫ All Tracks".to_owned(),
            SidebarItem::Favorites => "♫ Favorites".to_owned(),
            SidebarItem::RecentlyAdded => "♫ Recently Added".to_owned(),
            SidebarItem::RecentlyPlayed => "♫ Recently Played".to_owned(),
            SidebarItem::MostPlayed => "♫ Most Played".to_owned(),
            SidebarItem::Artists => "  Artists".to_owned(),
            SidebarItem::Artist(a) => Self::indented(a),
            SidebarItem::Albums => "  Albums".to_owned(),
            SidebarItem::Album(a) => Self::indented(a),
            SidebarItem::Genres => "  Genres".to_owned(),
            SidebarItem::Genre(g) => Self::indented(g),
            SidebarItem::Playlists => "  Playlists".to_owned(),
            SidebarItem::Playlist(p) => Self::indented(p),
        }
    }

    /// The heading shown above the track list when the entry is selected.
    pub open spec fn title_text(&self) -> Seq<char> {
        match self {
            SidebarItem::AllTracks => "All Tracks"@,
            SidebarItem::RecentlyAdded => "Recently Added"@,
            SidebarItem::RecentlyPlayed => "Recently Played"@,
            SidebarItem::MostPlayed => "Most Played"@,
            SidebarItem::Favorites => "Favorites"@,
            SidebarItem::Artists => "Artists"@,
            SidebarItem::Artist(a) => a@,
            SidebarItem::Albums => "Albums"@,
            SidebarItem::Album(a) => a@,
            SidebarItem::Genres => "Genres"@,
            SidebarItem::Genre(g) => g@,
            SidebarItem::Playlists => "Playlists"@,
            SidebarItem::Playlist(p) => p@,
        }
    }

    pub fn title(&self) -> (r: String)
        ensures
            r@ == self.title_text(),
    {
        match self {
            SidebarItem::AllTracks => "All Tracks".to_owned(),
            SidebarItem::RecentlyAdded => "Recently Added".to_owned(),
            SidebarItem::RecentlyPlayed => "Recently Played".to_owned(),
            SidebarItem::MostPlayed => "Most Played".to_owned(),
            SidebarItem::Favorites => "Favorites".to_owned(),
            SidebarItem::Artists => "Artists".to_owned(),
            SidebarItem::Artist(a) => a.clone(),
            SidebarItem::Albums => "Albums".to_owned(),
            SidebarItem::Album(a) => a.clone(),
            SidebarItem::Genres => "Genres".to_owned(),
            SidebarItem::Genre(g) => g.clone(),
            SidebarItem::Playlists => "Playlists".to_owned(),
            SidebarItem::Playlist(p) => p.clone(),
        }
    }

    /// Section headers: Artists, Albums, Genres, Playlists.
    pub open spec fn header(&self) -> bool {
        self is Artists || self is Albums || self is Genres || self is Playlists
    }

    pub fn is_header(&self) -> (b: bool)
        ensures
            b == self.header(),
    {
        match self {
            SidebarItem::Artists | SidebarItem::Albums | SidebarItem::Genres
            | SidebarItem::Playlists => true,
            _ => false,
        }
    }
}

/// Whether the track list shows the library or a playlist (by name).
#[derive(Debug, Clone, PartialEq)]
pub enum TrackContext {
    Library,
    Playlist(String),
}

/// The active field of the database setup overlay.
#[derive(Debug, Clone, Copy, PartialEq, Eq, Structural)]
pub enum SetupField {
    DatabaseName,
    MusicDirectory,
}

} // verus!

verus! {

/// A metadata field of the track info popup, roughly in the order the
/// popup shows them.
#[derive(Debug, Clone, Copy, PartialEq, Eq, Hash, Structural)]
pub enum EditField {
    Title,
    Artist,
    Album,
    AlbumArtist,
    Year,
    Genre,
    Composer,
    Lyricist,
    Conductor,
    Producer,
    Remixer,
    TrackNumber,
    TrackTotal,
    DiscNumber,
    DiscTotal,
    Work,
    Movement,
    MovementNumber,
    MovementTotal,
    Comment,
    Description,
    ContentGroup,
    Compilation,
    Mood,
    Language,
    InitialKey,
    Bpm,
    Publisher,
    Label,
    Copyright,
    Isrc,
    Barcode,
    CatalogNumber,
    RecordingDate,
    ReleaseDate,
    OriginalReleaseDate,
    OriginalArtist,
    OriginalAlbum,
    SortTitle,
    SortArtist,
    SortAlbum,
    SortAlbumArtist,
    MusicBrainzTrackId,
    MusicBrainzRecordingId,
    MusicBrainzReleaseId,
    MusicBrainzArtistId,
    ReplayGainTrackGain,
    ReplayGainTrackPeak,
    ReplayGainAlbumGain,
    ReplayGainAlbumPeak,
    EncoderSoftware,
}

impl EditField {
    /// The fields of the simple (default) view, in display order.
    pub open spec fn simple_fields() -> Seq<EditField> {
        seq![EditField::Title, EditField::Artist, EditField::Album, EditField::Year, EditField::Genre]
    }

    /// The fields of the simple (default) view.
    pub fn simple() -> (r: Vec<EditField>)
        ensures
            r@ == Self::simple_fields(),
    {
        let mut v = Vec::new();
        v.push(EditField::Title);
        v.push(EditField::Artist);
        v.push(EditField::Album);
        v.push(EditField::Year);
        v.push(EditField::Genre);
        v
    }

    /// Every field, in the detailed view's display order.
    pub open spec fn detailed_fields() -> Seq<EditField> {
        seq![
                EditField::Title,
                EditField::Artist,
                EditField::Album,
                EditField::AlbumArtist,
                EditField::Year,
                EditField::Genre,
                EditField::Composer,
                EditField::Lyricist,
                EditField::Conductor,
                EditField::Producer,
                EditField::Remixer,
                EditField::TrackNumber,
                EditField::TrackTotal,
                EditField::DiscNumber,
                EditField::DiscTotal,
                EditField::Work,
                EditField::Movement,
                EditField::MovementNumber,
                EditField::MovementTotal,
                EditField::Comment,
                EditField::Description,
                EditField::ContentGroup,
                EditField::Compilation,
                EditField::Mood,
                EditField::Language,
                EditField::InitialKey,
                EditField::Bpm,
                EditField::Publisher,
                EditField::Label,
                EditField::Copyright,
                EditField::Isrc,
                EditField::Barcode,
                EditField::CatalogNumber,
                EditField::RecordingDate,
                EditField::ReleaseDate,
                EditField::OriginalReleaseDate,
                EditField::OriginalArtist,
                EditField::OriginalAlbum,
                EditField::SortTitle,
                EditField::SortArtist,
                EditField::SortAlbum,
                EditField::SortAlbumArtist,
                EditField::MusicBrainzTrackId,
                EditField::MusicBrainzRecordingId,
                EditField::MusicBrainzReleaseId,
                EditField::MusicBrainzArtistId,
                EditField::ReplayGainTrackGain,
                EditField::ReplayGainTrackPeak,
                EditField::ReplayGainAlbumGain,
                EditField::ReplayGainAlbumPeak,
                EditField::EncoderSoftware,
            ]
    }

    /// The fields of the detailed view, in display order.
    pub fn detailed() -> (r: Vec<EditField>)
        ensures
            r@ == Self::detailed_fields(),
    {
        let v = vec![
            EditField::Title,
            EditField::Artist,
            EditField::Album,
            EditField::AlbumArtist,
            EditField::Year,
            EditField::Genre,
            EditField::Composer,
            EditField::Lyricist,
            EditField::Conductor,
            EditField::Producer,
            EditField::Remixer,
            EditField::TrackNumber,
            EditField::TrackTotal,
            EditField::DiscNumber,
            EditField::DiscTotal,
            EditField::Work,
            EditField::Movement,
            EditField::MovementNumber,
            EditField::MovementTotal,
            EditField::Comment,
            EditField::Description,
            EditField::ContentGroup,
            EditField::Compilation,
            EditField::Mood,
            EditField::Language,
            EditField::InitialKey,
            EditField::Bpm,
            EditField::Publisher,
            EditField::Label,
            EditField::Copyright,
            EditField::Isrc,
            EditField::Barcode,
            EditField::CatalogNumber,
            EditField::RecordingDate,
            EditField::ReleaseDate,
            EditField::OriginalReleaseDate,
            EditField::OriginalArtist,
            EditField::OriginalAlbum,
            EditField::SortTitle,
            EditField::SortArtist,
            EditField::SortAlbum,
            EditField::SortAlbumArtist,
            EditField::MusicBrainzTrackId,
            EditField::MusicBrainzRecordingId,
            EditField::MusicBrainzReleaseId,
            EditField::MusicBrainzArtistId,
            EditField::ReplayGainTrackGain,
            EditField::ReplayGainTrackPeak,
            EditField::ReplayGainAlbumGain,
            EditField::ReplayGainAlbumPeak,
            EditField::EncoderSoftware,
        ];
        assert(v@ =~= Self::detailed_fields());
        v
    }

    /// Fields whose input is restricted to digits.
    pub open spec fn numeric(self) -> bool {
        self is Year
        || self is TrackNumber
        || self is TrackTotal
        || self is DiscNumber
        || self is DiscTotal
        || self is MovementNumber
        || self is MovementTotal
        || self is Bpm
    }

    pub fn is_numeric(self) -> (b: bool)
        ensures
            b == self.numeric(),
    {
        match self {
            EditField::Year | EditField::TrackNumber | EditField::TrackTotal | EditField::DiscNumber | EditField::DiscTotal | EditField::MovementNumber | EditField::MovementTotal | EditField::Bpm => true,
            _ => false,
        }
    }

    pub open spec fn label_text(self) -> Seq<char> {
        match self {
            EditField::Title => "Title"@,
            EditField::Artist => "Artist"@,
            EditField::Album => "Album"@,
            EditField::AlbumArtist => "Album Artist"@,
            EditField::Year => "Year"@,
            EditField::Genre => "Genre"@,
            EditField::Composer => "Composer"@,
            EditField::Lyricist => "Lyricist"@,
            EditField::Conductor => "Conductor"@,
            EditField::Producer => "Producer"@,
            EditField::Remixer => "Remixer"@,
            EditField::TrackNumber => "Track #"@,
            EditField::TrackTotal => "Total Tracks"@,
            EditField::DiscNumber => "Disc #"@,
            EditField::DiscTotal => "Total Discs"@,
            EditField::Work => "Work"@,
            EditField::Movement => "Movement"@,
            EditField::MovementNumber => "Movement #"@,
            EditField::MovementTotal => "Total Movements"@,
            EditField::Comment => "Comment"@,
            EditField::Description => "Description"@,
            EditField::ContentGroup => "Grouping"@,
            EditField::Compilation => "Compilation"@,
            EditField::Mood => "Mood"@,
            EditField::Language => "Language"@,
            EditField::InitialKey => "Initial Key"@,
            EditField::Bpm => "BPM"@,
            EditField::Publisher => "Publisher"@,
            EditField::Label => "Label"@,
            EditField::Copyright => "Copyright"@,
            EditField::Isrc => "ISRC"@,
            EditField::Barcode => "Barcode"@,
            EditField::CatalogNumber => "Catalog #"@,
            EditField::RecordingDate => "Recording Date"@,
            EditField::ReleaseDate => "Release Date"@,
            EditField::OriginalReleaseDate => "Original Release Date"@,
            EditField::OriginalArtist => "Original Artist"@,
            EditField::OriginalAlbum => "Original Album"@,
            EditField::SortTitle => "Sort · Title"@,
            EditField::SortArtist => "Sort · Artist"@,
            EditField::SortAlbum => "Sort · Album"@,
            EditField::SortAlbumArtist => "Sort · Album Artist"@,
            EditField::MusicBrainzTrackId => "MB Track ID"@,
            EditField::MusicBrainzRecordingId => "MB Recording ID"@,
            EditField::MusicBrainzReleaseId => "MB Release ID"@,
            EditField::MusicBrainzArtistId => "MB Artist ID"@,
            EditField::ReplayGainTrackGain => "RG Track Gain"@,
            EditField::ReplayGainTrackPeak => "RG Track Peak"@,
            EditField::ReplayGainAlbumGain => "RG Album Gain"@,
            EditField::ReplayGainAlbumPeak => "RG Album Peak"@,
            EditField::EncoderSoftware => "Encoder"@,
        }
    }

    /// The field whose label is `s`, if any, told apart by the label's
    /// length and its characters at positions 0, 3 and 9.
    pub open spec fn of_label(s: Seq<char>) -> Option<EditField> {
        if s.len() == 5 && s[0] == 'T' && s[3] == 'l' {
            Some(EditField::Title)
        } else if s.len() == 6 && s[0] == 'A' && s[3] == 'i' {
            Some(EditField::Artist)
        } else if s.len() == 5 && s[0] == 'A' && s[3] == 'u' {
            Some(EditField::Album)
        } else if s.len() == 12 && s[0] == 'A' && s[3] == 'u' && s[9] == 'i' {
            Some(EditField::AlbumArtist)
        } else if s.len() == 4 && s[0] == 'Y' && s[3] == 'r' {
            Some(EditField::Year)
        } else if s.len() == 5 && s[0] == 'G' && s[3] == 'r' {
            Some(EditField::Genre)
        } else if s.len() == 8 && s[0] == 'C' && s[3] == 'p' {
            Some(EditField::Composer)
        } else if s.len() == 8 && s[0] == 'L' && s[3] == 'i' {
            Some(EditField::Lyricist)
        } else if s.len() == 9 && s[0] == 'C' && s[3] == 'd' {
            Some(EditField::Conductor)
        } else if s.len() == 8 && s[0] == 'P' && s[3] == 'd' {
            Some(EditField::Producer)
        } else if s.len() == 7 && s[0] == 'R' && s[3] == 'i' {
            Some(EditField::Remixer)
        } else if s.len() == 7 && s[0] == 'T' && s[3] == 'c' {
            Some(EditField::TrackNumber)
        } else if s.len() == 12 && s[0] == 'T' && s[3] == 'a' && s[9] == 'c' {
            Some(EditField::TrackTotal)
        } else if s.len() == 6 && s[0] == 'D' && s[3] == 'c' {
            Some(EditField::DiscNumber)
        } else if s.len() == 11 && s[0] == 'T' && s[3] == 'a' && s[9] == 'c' {
            Some(EditField::DiscTotal)
        } else if s.len() == 4 && s[0] == 'W' && s[3] == 'k' {
            Some(EditField::Work)
        } else if s.len() == 8 && s[0] == 'M' && s[3] == 'e' {
            Some(EditField::Movement)
        } else if s.len() == 10 && s[0] == 'M' && s[3] == 'e' && s[9] == '#' {
            Some(EditField::MovementNumber)
        } else if s.len() == 15 && s[0] == 'T' && s[3] == 'a' && s[9] == 'e' {
            Some(EditField::MovementTotal)
        } else if s.len() == 7 && s[0] == 'C' && s[3] == 'm' {
            Some(EditField::Comment)
        } else if s.len() == 11 && s[0] == 'D' && s[3] == 'c' && s[9] == 'o' {
            Some(EditField::Description)
        } else if s.len() == 8 && s[0] == 'G' && s[3] == 'u' {
            Some(EditField::ContentGroup)
        } else if s.len() == 11 && s[0] == 'C' && s[3] == 'p' && s[9] == 'o' {
            Some(EditField::Compilation)
        } else if s.len() == 4 && s[0] == 'M' && s[3] == 'd' {
            Some(EditField::Mood)
        } else if s.len() == 8 && s[0] == 'L' && s[3] == 'g' {
            Some(EditField::Language)
        } else if s.len() == 11 && s[0] == 'I' && s[3] == 't' && s[9] == 'e' {
            Some(EditField::InitialKey)
        } else if s.len() == 3 && s[0] == 'B' {
            Some(EditField::Bpm)
        } else if s.len() == 9 && s[0] == 'P' && s[3] == 'l' {
            Some(EditField::Publisher)
        } else if s.len() == 5 && s[0] == 'L' && s[3] == 'e' {
            Some(EditField::Label)
        } else if s.len() == 9 && s[0] == 'C' && s[3] == 'y' {
            Some(EditField::Copyright)
        } else if s.len() == 4 && s[0] == 'I' && s[3] == 'C' {
            Some(EditField::Isrc)
        } else if s.len() == 7 && s[0] == 'B' && s[3] == 'c' {
            Some(EditField::Barcode)
        } else if s.len() == 9 && s[0] == 'C' && s[3] == 'a' {
            Some(EditField::CatalogNumber)
        } else if s.len() == 14 && s[0] == 'R' && s[3] == 'o' && s[9] == ' ' {
            Some(EditField::RecordingDate)
        } else if s.len() == 12 && s[0] == 'R' && s[3] == 'e' && s[9] == 'a' {
            Some(EditField::ReleaseDate)
        } else if s.len() == 21 && s[0] == 'O' && s[3] == 'g' && s[9] == 'R' {
            Some(EditField::OriginalReleaseDate)
        } else if s.len() == 15 && s[0] == 'O' && s[3] == 'g' && s[9] == 'A' {
            Some(EditField::OriginalArtist)
        } else if s.len() == 14 && s[0] == 'O' && s[3] == 'g' && s[9] == 'A' {
            Some(EditField::OriginalAlbum)
        } else if s.len() == 12 && s[0] == 'S' && s[3] == 't' && s[9] == 't' {
            Some(EditField::SortTitle)
        } else if s.len() == 13 && s[0] == 'S' && s[3] == 't' && s[9] == 't' {
            Some(EditField::SortArtist)
        } else if s.len() == 12 && s[0] == 'S' && s[3] == 't' && s[9] == 'b' {
            Some(EditField::SortAlbum)
        } else if s.len() == 19 && s[0] == 'S' && s[3] == 't' && s[9] == 'b' {
            Some(EditField::SortAlbumArtist)
        } else if s.len() == 11 && s[0] == 'M' && s[3] == 'T' && s[9] == 'I' {
            Some(EditField::MusicBrainzTrackId)
        } else if s.len() == 15 && s[0] == 'M' && s[3] == 'R' && s[9] == 'i' {
            Some(EditField::MusicBrainzRecordingId)
        } else if s.len() == 13 && s[0] == 'M' && s[3] == 'R' && s[9] == 'e' {
            Some(EditField::MusicBrainzReleaseId)
        } else if s.len() == 12 && s[0] == 'M' && s[3] == 'A' && s[9] == ' ' {
            Some(EditField::MusicBrainzArtistId)
        } else if s.len() == 13 && s[0] == 'R' && s[3] == 'T' && s[9] == 'G' {
            Some(EditField::ReplayGainTrackGain)
        } else if s.len() == 13 && s[0] == 'R' && s[3] == 'T' && s[9] == 'P' {
            Some(EditField::ReplayGainTrackPeak)
        } else if s.len() == 13 && s[0] == 'R' && s[3] == 'A' && s[9] == 'G' {
            Some(EditField::ReplayGainAlbumGain)
        } else if s.len() == 13 && s[0] == 'R' && s[3] == 'A' && s[9] == 'P' {
            Some(EditField::ReplayGainAlbumPeak)
        } else if s.len() == 7 && s[0] == 'E' && s[3] == 'o' {
            Some(EditField::EncoderSoftware)
        } else {
            None
        }
    }

    pub fn label(self) -> (r: &'static str)
        ensures
            r@ == self.label_text(),
    {
        match self {
            EditField::Title => "Title",
            EditField::Artist => "Artist",
            EditField::Album => "Album",
            EditField::AlbumArtist => "Album Artist",
            EditField::Year => "Year",
            EditField::Genre => "Genre",
            EditField::Composer => "Composer",
            EditField::Lyricist => "Lyricist",
            EditField::Conductor => "Conductor",
            EditField::Producer => "Producer",
            EditField::Remixer => "Remixer",
            EditField::TrackNumber => "Track #",
            EditField::TrackTotal => "Total Tracks",
            EditField::DiscNumber => "Disc #",
            EditField::DiscTotal => "Total Discs",
            EditField::Work => "Work",
            EditField::Movement => "Movement",
            EditField::MovementNumber => "Movement #",
            EditField::MovementTotal => "Total Movements",
            EditField::Comment => "Comment",
            EditField::Description => "Description",
            EditField::ContentGroup => "Grouping",
            EditField::Compilation => "Compilation",
            EditField::Mood => "Mood",
            EditField::Language => "Language",
            EditField::InitialKey => "Initial Key",
            EditField::Bpm => "BPM",
            EditField::Publisher => "Publisher",
            EditField::Label => "Label",
            EditField::Copyright => "Copyright",
            EditField::Isrc => "ISRC",
            EditField::Barcode => "Barcode",
            EditField::CatalogNumber => "Catalog #",
            EditField::RecordingDate => "Recording Date",
            EditField::ReleaseDate => "Release Date",
            EditField::OriginalReleaseDate => "Original Release Date",
            EditField::OriginalArtist => "Original Artist",
            EditField::OriginalAlbum => "Original Album",
            EditField::SortTitle => "Sort · Title",
            EditField::SortArtist => "Sort · Artist",
            EditField::SortAlbum => "Sort · Album",
            EditField::SortAlbumArtist => "Sort · Album Artist",
            EditField::MusicBrainzTrackId => "MB Track ID",
            EditField::MusicBrainzRecordingId => "MB Recording ID",
            EditField::MusicBrainzReleaseId => "MB Release ID",
            EditField::MusicBrainzArtistId => "MB Artist ID",
            EditField::ReplayGainTrackGain => "RG Track Gain",
            EditField::ReplayGainTrackPeak => "RG Track Peak",
            EditField::ReplayGainAlbumGain => "RG Album Gain",
            EditField::ReplayGainAlbumPeak => "RG Album Peak",
            EditField::EncoderSoftware => "Encoder",
        }
    }
}

/// Every field is found again from its label, so distinct fields have
/// distinct labels.
#[verifier::rlimit(60)]
pub proof fn lemma_labels_distinct(f: EditField, g: EditField)
    ensures
        EditField::of_label(f.label_text()) == Some(f),
        f != g ==> f.label_text() != g.label_text(),
{
    reveal_strlit("Title");
    reveal_strlit("Artist");
    reveal_strlit("Album");
    reveal_strlit("Album Artist");
    reveal_strlit("Year");
    reveal_strlit("Genre");
    reveal_strlit("Composer");
    reveal_strlit("Lyricist");
    reveal_strlit("Conductor");
    reveal_strlit("Producer");
    reveal_strlit("Remixer");
    reveal_strlit("Track #");
    reveal_strlit("Total Tracks");
    reveal_strlit("Disc #");
    reveal_strlit("Total Discs");
    reveal_strlit("Work");
    reveal_strlit("Movement");
    reveal_strlit("Movement #");
    reveal_strlit("Total Movements");
    reveal_strlit("Comment");
    reveal_strlit("Description");
    reveal_strlit("Grouping");
    reveal_strlit("Compilation");
    reveal_strlit("Mood");
    reveal_strlit("Language");
    reveal_strlit("Initial Key");
    reveal_strlit("BPM");
    reveal_strlit("Publisher");
    reveal_strlit("Label");
    reveal_strlit("Copyright");
    reveal_strlit("ISRC");
    reveal_strlit("Barcode");
    reveal_strlit("Catalog #");
    reveal_strlit("Recording Date");
    reveal_strlit("Release Date");
    reveal_strlit("Original Release Date");
    reveal_strlit("Original Artist");
    reveal_strlit("Original Album");
    reveal_strlit("Sort · Title");
    reveal_strlit("Sort · Artist");
    reveal_strlit("Sort · Album");
    reveal_strlit("Sort · Album Artist");
    reveal_strlit("MB Track ID");
    reveal_strlit("MB Recording ID");
    reveal_strlit("MB Release ID");
    reveal_strlit("MB Artist ID");
    reveal_strlit("RG Track Gain");
    reveal_strlit("RG Track Peak");
    reveal_strlit("RG Album Gain");
    reveal_strlit("RG Album Peak");
    reveal_strlit("Encoder");
    assert(EditField::of_label(f.label_text()) == Some(f)) by {
        match f {
            EditField::Title => {},
            EditField::Artist => {},
            EditField::Album => {},
            EditField::AlbumArtist => {},
            EditField::Year => {},
            EditField::Genre => {},
            EditField::Composer => {},
            EditField::Lyricist => {},
            EditField::Conductor => {},
            EditField::Producer => {},
            EditField::Remixer => {},
            EditField::TrackNumber => {},
            EditField::TrackTotal => {},
            EditField::DiscNumber => {},
            EditField::DiscTotal => {},
            EditField::Work => {},
            EditField::Movement => {},
            EditField::MovementNumber => {},
            EditField::MovementTotal => {},
            EditField::Comment => {},
            EditField::Description => {},
            EditField::ContentGroup => {},
            EditField::Compilation => {},
            EditField::Mood => {},
            EditField::Language => {},
            EditField::InitialKey => {},
            EditField::Bpm => {},
            EditField::Publisher => {},
            EditField::Label => {},
            EditField::Copyright => {},
            EditField::Isrc => {},
            EditField::Barcode => {},
            EditField::CatalogNumber => {},
            EditField::RecordingDate => {},
            EditField::ReleaseDate => {},
            EditField::OriginalReleaseDate => {},
            EditField::OriginalArtist => {},
            EditField::OriginalAlbum => {},
            EditField::SortTitle => {},
            EditField::SortArtist => {},
            EditField::SortAlbum => {},
            EditField::SortAlbumArtist => {},
            EditField::MusicBrainzTrackId => {},
            EditField::MusicBrainzRecordingId => {},
            EditField::MusicBrainzReleaseId => {},
            EditField::MusicBrainzArtistId => {},
            EditField::ReplayGainTrackGain => {},
            EditField::ReplayGainTrackPeak => {},
            EditField::ReplayGainAlbumGain => {},
            EditField::ReplayGainAlbumPeak => {},
            EditField::EncoderSoftware => {},
        }
    }
    assert(EditField::of_label(g.label_text()) == Some(g)) by {
        match g {
            EditField::Title => {},
            EditField::Artist => {},
            EditField::Album => {},
            EditField::AlbumArtist => {},
            EditField::Year => {},
            EditField::Genre => {},
            EditField::Composer => {},
            EditField::Lyricist => {},
            EditField::Conductor => {},
            EditField::Producer => {},
            EditField::Remixer => {},
            EditField::TrackNumber => {},
            EditField::TrackTotal => {},
            EditField::DiscNumber => {},
            EditField::DiscTotal => {},
            EditField::Work => {},
            EditField::Movement => {},
            EditField::MovementNumber => {},
            EditField::MovementTotal => {},
            EditField::Comment => {},
            EditField::Description => {},
            EditField::ContentGroup => {},
            EditField::Compilation => {},
            EditField::Mood => {},
            EditField::Language => {},
            EditField::InitialKey => {},
            EditField::Bpm => {},
            EditField::Publisher => {},
            EditField::Label => {},
            EditField::Copyright => {},
            EditField::Isrc => {},
            EditField::Barcode => {},
            EditField::CatalogNumber => {},
            EditField::RecordingDate => {},
            EditField::ReleaseDate => {},
            EditField::OriginalReleaseDate => {},
            EditField::OriginalArtist => {},
            EditField::OriginalAlbum => {},
            EditField::SortTitle => {},
            EditField::SortArtist => {},
            EditField::SortAlbum => {},
            EditField::SortAlbumArtist => {},
            EditField::MusicBrainzTrackId => {},
            EditField::MusicBrainzRecordingId => {},
            EditField::MusicBrainzReleaseId => {},
            EditField::MusicBrainzArtistId => {},
            EditField::ReplayGainTrackGain => {},
            EditField::ReplayGainTrackPeak => {},
            EditField::ReplayGainAlbumGain => {},
            EditField::ReplayGainAlbumPeak => {},
            EditField::EncoderSoftware => {},
        }
    }
}


} // verus!

verus! {

/// The four groupings of the sidebar library list.
#[derive(Debug, Clone, Copy, PartialEq, Eq, Hash, Structural)]
pub enum SidebarSection {
    Artists,
    Albums,
    Genres,
    Playlists,
}

impl SidebarSection {
    /// Every section, in sidebar order.
    pub fn all() -> (r: Vec<SidebarSection>)
        ensures
            r@ == seq![
                SidebarSection::Artists,
                SidebarSection::Albums,
                SidebarSection::Genres,
                SidebarSection::Playlists,
            ],
    {
        vec![
            SidebarSection::Artists,
            SidebarSection::Albums,
            SidebarSection::Genres,
            SidebarSection::Playlists,
        ]
    }

    pub open spec fn key_text(self) -> Seq<char> {
        match self {
            SidebarSection::Artists => "Artists"@,
            SidebarSection::Albums => "Albums"@,
            SidebarSection::Genres => "Genres"@,
            SidebarSection::Playlists => "Playlists"@,
        }
    }

    pub fn key(self) -> (r: &'static str)
        ensures
            r@ == self.key_text(),
    {
        match self {
            SidebarSection::Artists => "Artists",
            SidebarSection::Albums => "Albums",
            SidebarSection::Genres => "Genres",
            SidebarSection::Playlists => "Playlists",
        }
    }

    /// The section whose key is `s`, if any.
    pub fn from_key(s: &str) -> (r: Option<SidebarSection>)
        ensures
            r matches Some(sec) ==> sec.key_text() == s@,
            r is None ==> forall|sec: SidebarSection| sec.key_text() != s@,
    {
        if crate::text::str_eq(s, "Artists") {
            Some(SidebarSection::Artists)
        } else if crate::text::str_eq(s, "Albums") {
            Some(SidebarSection::Albums)
        } else if crate::text::str_eq(s, "Genres") {
            Some(SidebarSection::Genres)
        } else if crate::text::str_eq(s, "Playlists") {
            Some(SidebarSection::Playlists)
        } else {
            proof {
                assert forall|sec: SidebarSection| sec.key_text() != s@ by {
                    match sec {
                        SidebarSection::Artists => {},
                        SidebarSection::Albums => {},
                        SidebarSection::Genres => {},
                        SidebarSection::Playlists => {},
                    }
                }
            }
            None
        }
    }
}

/// Full and filtered items of one sidebar section.  `filter_indices` is
/// `None` without an active search filter; otherwise it holds indices into
/// `items` in match-score order.
#[derive(Debug, Clone)]
pub struct SidebarSectionState {
    pub items: Vec<String>,
    pub filter_indices: Option<Vec<usize>>,
}

/// The items named by `idx` (out-of-range indices skipped), in `idx` order.
pub open spec fn picked(items: Seq<String>, idx: Seq<usize>) -> Seq<Seq<char>>
    decreases idx.len(),
{
    if idx.len() == 0 {
        Seq::empty()
    } else {
        let pre = picked(items, idx.drop_last());
        if idx.last() < items.len() {
            pre.push(items[idx.last() as int]@)
        } else {
            pre
        }
    }
}

impl SidebarSectionState {
    pub fn new() -> (r: SidebarSectionState)
        ensures
            r.items@.len() == 0,
            r.filter_indices is None,
    {
        SidebarSectionState { items: Vec::new(), filter_indices: None }
    }

    /// The items shown: all of them without a filter, else the filtered
    /// subset in filter order.
    pub open spec fn visible_items(&self) -> Seq<Seq<char>> {
        match self.filter_indices {
            None => crate::util::string_views(self.items@),
            Some(idx) => picked(self.items@, idx@),
        }
    }

    pub fn visible(&self) -> (r: Vec<String>)
        ensures
            crate::util::string_views(r@) == self.visible_items(),
    {
        let mut r: Vec<String> = Vec::new();
        match &self.filter_indices {
            None => {
                let mut i: usize = 0;
                while i < self.items.len()
                    invariant
                        i <= self.items@.len(),
                        crate::util::string_views(r@) =~= crate::util::string_views(
                            self.items@.take(i as int),
                        ),
                    decreases self.items@.len() - i,
                {
                    let ghost pre = crate::util::string_views(r@);
                    r.push(self.items[i].clone());
                    assert(crate::util::string_views(r@) =~= pre.push(self.items@[i as int]@));
                    assert(self.items@.take(i + 1) =~= self.items@.take(i as int).push(
                        self.items@[i as int],
                    ));
                    i = i + 1;
                }
                assert(self.items@.take(self.items@.len() as int) =~= self.items@);
            },
            Some(idx) => {
                let mut k: usize = 0;
                assert(idx@.take(0) =~= Seq::<usize>::empty());
                while k < idx.len()
                    invariant
                        k <= idx@.len(),
                        crate::util::string_views(r@) =~= picked(self.items@, idx@.take(k as int)),
                    decreases idx@.len() - k,
                {
                    let i = idx[k];
                    assert(idx@.take(k + 1).drop_last() =~= idx@.take(k as int));
                    if i < self.items.len() {
                        let ghost pre = crate::util::string_views(r@);
                        r.push(self.items[i].clone());
                        assert(crate::util::string_views(r@) =~= pre.push(
                            self.items@[i as int]@,
                        ));
                    }
                    k = k + 1;
                }
                assert(idx@.take(idx@.len() as int) =~= idx@);
            },
        }
        r
    }

    /// The number of items shown (filter indices are counted as given).
    pub fn visible_len(&self) -> (n: usize)
        ensures
            n == match self.filter_indices {
                None => self.items@.len(),
                Some(idx) => idx@.len(),
            },
    {
        match &self.filter_indices {
            None => self.items.len(),
            Some(idx) => idx.len(),
        }
    }
}

/// Storage for the four sidebar sections, accessed by section.
#[derive(Debug, Clone)]
pub struct SidebarSections {
    pub artists: SidebarSectionState,
    pub albums: SidebarSectionState,
    pub genres: SidebarSectionState,
    pub playlists: SidebarSectionState,
}

impl SidebarSections {
    pub fn new() -> (r: SidebarSections)
        ensures
            r.artists.items@.len() == 0 && r.artists.filter_indices is None,
            r.albums.items@.len() == 0 && r.albums.filter_indices is None,
            r.genres.items@.len() == 0 && r.genres.filter_indices is None,
            r.playlists.items@.len() == 0 && r.playlists.filter_indices is None,
    {
        SidebarSections {
            artists: SidebarSectionState::new(),
            albums: SidebarSectionState::new(),
            genres: SidebarSectionState::new(),
            playlists: SidebarSectionState::new(),
        }
    }

    /// The state of section `s`.
    pub open spec fn section(&self, s: SidebarSection) -> SidebarSectionState {
        match s {
            SidebarSection::Artists => self.artists,
            SidebarSection::Albums => self.albums,
            SidebarSection::Genres => self.genres,
            SidebarSection::Playlists => self.playlists,
        }
    }

    /// These sections with section `s` replaced by `st`.
    pub open spec fn with_section(self, s: SidebarSection, st: SidebarSectionState) -> SidebarSections {
        match s {
            SidebarSection::Artists => SidebarSections { artists: st, ..self },
            SidebarSection::Albums => SidebarSections { albums: st, ..self },
            SidebarSection::Genres => SidebarSections { genres: st, ..self },
            SidebarSection::Playlists => SidebarSections { playlists: st, ..self },
        }
    }

    pub fn get(&self, s: SidebarSection) -> (r: &SidebarSectionState)
        ensures
            *r == self.section(s),
    {
        match s {
            SidebarSection::Artists => &self.artists,
            SidebarSection::Albums => &self.albums,
            SidebarSection::Genres => &self.genres,
            SidebarSection::Playlists => &self.playlists,
        }
    }

    pub fn get_mut(&mut self, s: SidebarSection) -> (r: &mut SidebarSectionState)
        ensures
            *r == old(self).section(s),
            *final(self) == old(self).with_section(s, *final(r)),
    {
        match s {
            SidebarSection::Artists => &mut self.artists,
            SidebarSection::Albums => &mut self.albums,
            SidebarSection::Genres => &mut self.genres,
            SidebarSection::Playlists => &mut self.playlists,
        }
    }
}

} // verus!

verus! {

/// Progress of a lyrics download.
#[derive(Debug, Clone, PartialEq)]
pub enum LyricsFetchStatus {
    Idle,
    Fetching,
    NotFound,
    Error(String),
}

/// UI state of the lyrics panel.
#[derive(Debug, Clone)]
pub struct LyricsState {
    pub visible: bool,
    pub content: Option<Lyrics>,
    pub scroll: usize,
    /// The user scrolled by hand; auto-follow is off.
    pub manual_scroll: bool,
    pub track_path: Option<String>,
    pub fetch_status: LyricsFetchStatus,
}

impl LyricsState {
    pub fn new() -> (r: LyricsState)
        ensures
            !r.visible,
            r.content is None,
            r.scroll == 0,
            !r.manual_scroll,
            r.track_path is None,
            r.fetch_status is Idle,
    {
        LyricsState {
            visible: false,
            content: None,
            scroll: 0,
            manual_scroll: false,
            track_path: None,
            fetch_status: LyricsFetchStatus::Idle,
        }
    }
}

/// Sections of the settings overlay, in display order.
#[derive(Debug, Clone, Copy, PartialEq, Eq, Structural)]
pub enum SettingsSection {
    Theme,
    Library,
    Columns,
}

impl SettingsSection {
    pub fn all() -> (r: Vec<SettingsSection>)
        ensures
            r@ == seq![SettingsSection::Theme, SettingsSection::Library, SettingsSection::Columns],
    {
        vec![SettingsSection::Theme, SettingsSection::Library, SettingsSection::Columns]
    }

    pub open spec fn name_text(self) -> Seq<char> {
        match self {
            SettingsSection::Theme => "Theme"@,
            SettingsSection::Library => "Library"@,
            SettingsSection::Columns => "Columns"@,
        }
    }

    pub fn name(self) -> (r: &'static str)
        ensures
            r@ == self.name_text(),
    {
        match self {
            SettingsSection::Theme => "Theme",
            SettingsSection::Library => "Library",
            SettingsSection::Columns => "Columns",
        }
    }
}

/// Modal overlays drawn on top of the normal UI.
#[derive(Debug, Clone, PartialEq)]
pub enum Overlay {
    /// No overlay is open.
    Hidden,
    /// Typing a name for a new playlist.
    NewPlaylist { name: String, pending_tracks: Vec<String> },
    /// Picking a playlist to add tracks to.
    AddToPlaylist { track_paths: Vec<String> },
    /// First-launch setup of the database and music directory.
    SetupDatabase { database_name: String, music_directory: String, active_field: SetupField },
    /// Global search over songs, albums, artists, playlists and genres.
    GlobalSearch,
    /// The settings panel.
    Settings,
}

#[derive(Debug, Clone, Copy, PartialEq, Eq, Structural)]
pub enum PlayerState {
    Stopped,
    Playing,
    Paused,
}

/// Repeat behaviour of the queue.
#[derive(Debug, Clone, Copy, PartialEq, Eq, Structural)]
pub enum LoopMode {
    Off,
    All,
    One,
}

impl LoopMode {
    pub open spec fn label_text(self) -> Seq<char> {
        match self {
            LoopMode::Off => "off"@,
            LoopMode::All => "all"@,
            LoopMode::One => "one"@,
        }
    }

    pub fn label(&self) -> (r: &'static str)
        ensures
            r@ == self.label_text(),
    {
        match self {
            LoopMode::Off => "off",
            LoopMode::All => "all",
            LoopMode::One => "one",
        }
    }

    pub open spec fn icon_text(self) -> Seq<char> {
        match self {
            LoopMode::Off => "↦"@,
            LoopMode::All => "⟳"@,
            LoopMode::One => "⟳₁"@,
        }
    }

    pub fn icon(&self) -> (r: &'static str)
        ensures
            r@ == self.icon_text(),
    {
        match self {
            LoopMode::Off => "↦",
            LoopMode::All => "⟳",
            LoopMode::One => "⟳₁",
        }
    }

    /// The mode after this one: off → all → one → off.
    pub open spec fn successor(self) -> LoopMode {
        match self {
            LoopMode::Off => LoopMode::All,
            LoopMode::All => LoopMode::One,
            LoopMode::One => LoopMode::Off,
        }
    }

    pub fn next(&self) -> (r: LoopMode)
        ensures
            r == self.successor(),
    {
        match self {
            LoopMode::Off => LoopMode::All,
            LoopMode::All => LoopMode::One,
            LoopMode::One => LoopMode::Off,
        }
    }

    /// The mode read back from a persisted label: "all", "one", and
    /// anything else meaning off.
    pub open spec fn of_label(s: Seq<char>) -> LoopMode {
        if s == "all"@ {
            LoopMode::All
        } else if s == "one"@ {
            LoopMode::One
        } else {
            LoopMode::Off
        }
    }

    pub fn from_label(s: &str) -> (r: LoopMode)
        ensures
            r == LoopMode::of_label(s@),
    {
        if crate::text::str_eq(s, "all") {
            LoopMode::All
        } else if crate::text::str_eq(s, "one") {
            LoopMode::One
        } else {
            LoopMode::Off
        }
    }
}

/// Three presses of the loop toggle come back to the starting mode.
pub proof fn lemma_loop_cycle(m: LoopMode)
    ensures
        m.successor().successor().successor() == m,
        m.successor() != m,
{
}

/// A loop mode persisted by its label reads back as the same mode.
pub proof fn lemma_loop_label_roundtrip(m: LoopMode)
    ensures
        LoopMode::of_label(m.label_text()) == m,
{
    reveal_strlit("off");
    reveal_strlit("all");
    reveal_strlit("one");
    assert("off"@[0] != "all"@[0]);
    assert("off"@[1] != "one"@[1]);
    assert("one"@[0] != "all"@[0]);
}

/// A line of lyrics with an optional timestamp.
#[derive(Debug, Clone)]
pub struct LyricLine {
    /// The key of the line's timestamp, which orders as the timestamps
    /// do (`None` for untimed lines).
    pub timestamp: Option<i64>,
    /// The lyric text.
    pub text: String,
}

/// Parsed lyrics.
#[derive(Debug, Clone)]
pub enum Lyrics {
    /// Lyrics without timestamps, as given.
    Plain(String),
    /// Lines with timestamps, sorted by timestamp (untimed lines last).
    Timed(Vec<LyricLine>),
}

/// Errors of the application.
#[derive(Debug, Clone)]
pub enum LyreError {
    /// Database errors.
    Database(String),
    /// File I/O errors.
    FileIO(String),
    /// Any other error, with its message.
    Other(String),
}

impl LyreError {
    /// The message shown for the error.
    pub open spec fn message_text(&self) -> Seq<char> {
        match self {
            LyreError::Database(m) => "Database error: "@ + m@,
            LyreError::FileIO(m) => "File I/O error: "@ + m@,
            LyreError::Other(m) => m@,
        }
    }

    pub fn message(&self) -> (r: String)
        ensures
            r@ == self.message_text(),
    {
        match self {
            LyreError::Database(m) => {
                let mut r = "Database error: ".to_owned();
                push_str(&mut r, m.as_str());
                r
            },
            LyreError::FileIO(m) => {
                let mut r = "File I/O error: ".to_owned();
                push_str(&mut r, m.as_str());
                r
            },
            LyreError::Other(m) => m.clone(),
        }
    }
}

} // verus!

verus! {

/// The outcome of fetching lyrics in the background.
#[derive(Debug, Clone)]
pub enum LyricsFetchResult {
    Found { path: String, text: String },
    NotFound,
    Error(String),
}

} // verus!

verus! {

impl Default for LyricsFetchStatus {
    fn default() -> (r: Self)
        ensures
            r is Idle,
    {
        LyricsFetchStatus::Idle
    }
}

impl Default for LyricsState {
    fn default() -> (r: Self)
        ensures
            !r.visible,
            r.content is None,
            r.scroll == 0,
            !r.manual_scroll,
            r.track_path is None,
            r.fetch_status is Idle,
    {
        LyricsState::new()
    }
}

impl Default for SidebarSectionState {
    fn default() -> (r: Self)
        ensures
            r.items@.len() == 0,
            r.filter_indices is None,
    {
        SidebarSectionState::new()
    }
}

impl Default for SidebarSections {
    fn default() -> (r: Self)
        ensures
            r.artists.items@.len() == 0 && r.artists.filter_indices is None,
            r.albums.items@.len() == 0 && r.albums.filter_indices is None,
            r.genres.items@.len() == 0 && r.genres.filter_indices is None,
            r.playlists.items@.len() == 0 && r.playlists.filter_indices is None,
    {
        SidebarSections::new()
    }
}

} // verus!
