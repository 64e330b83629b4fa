//! The terminal UI's view state and what a key press does to it: which
//! panel has the focus, the cursors, the search fields and popups, and the
//! outside work (playback, loading, saving) a key asks the front end for.

use std::sync::Arc;
use vstd::prelude::*;
use crate::keybindings::{action_code, key_action, key_to_code, Action, Keybindings};
use crate::keys::{KeyCode, KeyModifiers};
use crate::library::SidebarExpanded;
use crate::navigable_list::{nav_index, navigate_index, pages_down};
use crate::overlay::{backspaced, pop_char, switched, typed_into, without_last};
use crate::text::push_char;
use crate::types::{
    EditField, GlobalSearchResult, LyricsState, Overlay, Panel, SidebarItem, SidebarSection, SortField,
    SortOrder, Track,
};

verus! {

/// Outside work a key press asks the front end to do once the view state
/// has been updated.
#[derive(Debug, Clone, Copy, PartialEq, Eq, Structural)]
pub enum Effect {
    /// Nothing beyond the change of the view state.
    Nothing,
    /// Leave the program.
    Quit,
    /// Play the track under the track-list cursor (a queue is started from
    /// the list when the queue is empty).
    PlaySelected,
    /// Play the queue entry under the queue cursor.
    PlayQueueSelected,
    TogglePause,
    Stop,
    Next,
    Previous,
    VolumeUp,
    VolumeDown,
    SeekForward,
    SeekBackward,
    ToggleShuffle,
    ToggleLoop,
    /// Show the tracks of the sidebar entry under the cursor.
    ShowSidebarEntry,
    /// Lay out the sidebar again: a section was opened or closed.
    RebuildSidebar,
    /// Load the lyrics of the playing track.
    LoadLyrics,
    /// Download the lyrics of the playing track.
    FetchLyrics,
    /// Sort the track list by the sort field and order.
    Resort,
    /// Filter the track list by the search query.
    Research,
    /// Put back the track list the search started from; sort it again
    /// when `resort` holds.
    EndSearch { resort: bool },
    /// Remember the track list a search starts from.
    StartSearch,
    AddToQueue,
    AddAllToQueue,
    /// Remove this queue entry.
    RemoveFromQueue(usize),
    ClearQueue,
    OpenAddToPlaylist,
    /// Remove this row of the shown playlist.
    RemoveFromPlaylist(usize),
    /// Move this row of the shown playlist one up.
    MoveTrackUp(usize),
    /// Move this row of the shown playlist one down.
    MoveTrackDown(usize),
    /// Move the choice of the add-to-playlist overlay by this many rows.
    ChoosePlaylist(i32),
    /// Do what the open overlay's `confirm` returns.
    ConfirmOverlay,
    /// Filter this sidebar section by the sidebar search query and lay out
    /// the sidebar again.
    FilterSidebar(SidebarSection),
    /// Search the library again for the global search query.
    RecomputeGlobalSearch,
    /// Go to this result of the global search, then drop the results.
    OpenGlobalResult(usize),
    /// Drop the global search results.
    ClearGlobalResults,
    ToggleFavorite,
    /// Drop the cached tag values of the info popup.
    ClearInfo,
    /// Read the focused track's tag values again, dropping unsaved edits.
    ReloadInfo,
    /// Save the edited tag values of the focused track.
    SaveInfo,
    /// Read the focused track's tag values, then start editing them when
    /// there is a focused track (see `ViewState::start_info_edit`).
    EnterInfoEdit,
    /// Delete the last character of this field's edit buffer.
    InfoBackspace(EditField),
    /// Type this character into this field's edit buffer.
    InfoChar(EditField, char),
}

/// What the front end knows besides the view state when a key is pressed.
#[derive(Debug, Clone)]
pub struct ViewContext {
    /// The rows of the sidebar.
    pub sidebar_items: Vec<SidebarItem>,
    /// The number of rows of the track list.
    pub track_count: usize,
    /// The number of queue entries.
    pub queue_len: usize,
    /// The track list shows a playlist.
    pub in_playlist: bool,
    /// Nothing is playing or paused.
    pub player_stopped: bool,
    /// A track is loaded in the player.
    pub has_current_track: bool,
    /// The number of global search results.
    pub global_result_count: usize,
}

/// Everything the terminal UI shows that a key press can change.
#[derive(Debug, Clone)]
pub struct ViewState {
    pub active_panel: Panel,
    pub show_help: bool,
    pub help_scroll: usize,
    pub show_info: bool,
    /// The info popup shows every field, not only the common ones.
    pub info_detailed: bool,
    pub info_editing: bool,
    pub info_edit_field: EditField,
    pub info_scroll: usize,
    /// The largest scroll offset of the info popup; the renderer sets it.
    pub info_max_scroll: usize,
    pub search_mode: bool,
    pub search_query: String,
    pub sidebar_search_mode: bool,
    pub sidebar_search_query: String,
    pub sidebar_search_section: Option<SidebarSection>,
    pub sidebar_expanded: SidebarExpanded,
    pub sidebar_index: usize,
    pub track_list_index: usize,
    /// Where a shift-selection of tracks started; the selected rows are
    /// those from the anchor to the cursor.
    pub selection_anchor: Option<usize>,
    pub queue_index: usize,
    pub overlay: Overlay,
    pub global_search_query: String,
    pub global_search_selected: usize,
    pub lyrics: LyricsState,
    pub art_window_visible: bool,
    pub sort_field: SortField,
    pub sort_order: SortOrder,
}

// ---------------------------------------------------------------------------
// Panels
// ---------------------------------------------------------------------------

/// The panel that follows `p` when cycling forward; the lyrics panel takes
/// part only while it is shown.
pub open spec fn next_panel(p: Panel, lyrics_shown: bool) -> Panel {
    match p {
        Panel::Sidebar => Panel::TrackList,
        Panel::TrackList => Panel::Queue,
        Panel::Queue => if lyrics_shown {
            Panel::Lyrics
        } else {
            Panel::Sidebar
        },
        Panel::Lyrics => Panel::Sidebar,
    }
}

/// The panel that precedes `p` when cycling backward.
pub open spec fn prev_panel(p: Panel, lyrics_shown: bool) -> Panel {
    match p {
        Panel::Sidebar => if lyrics_shown {
            Panel::Lyrics
        } else {
            Panel::Queue
        },
        Panel::TrackList => Panel::Sidebar,
        Panel::Queue => Panel::TrackList,
        Panel::Lyrics => Panel::Queue,
    }
}

/// Cycling forward and then backward (or backward and then forward) comes
/// back to the same panel, unless the focus is on a lyrics panel that is
/// not shown.
pub proof fn lemma_cycle_inverse(p: Panel, lyrics_shown: bool)
    requires
        p != Panel::Lyrics || lyrics_shown,
    ensures
        prev_panel(next_panel(p, lyrics_shown), lyrics_shown) == p,
        next_panel(prev_panel(p, lyrics_shown), lyrics_shown) == p,
{
}

// ---------------------------------------------------------------------------
// Scrolling
// ---------------------------------------------------------------------------

/// `x` kept within `lo..=hi`.
pub open spec fn clamp(x: int, lo: int, hi: int) -> int {
    if x < lo {
        lo
    } else if x > hi {
        hi
    } else {
        x
    }
}

/// The info popup's scroll offset moved by `delta` rows, kept within
/// `0..=max`.
pub fn scrolled(offset: usize, max: usize, delta: i32) -> (r: usize)
    ensures
        r == clamp(offset + delta, 0, max as int),
{
    if delta < 0 {
        let back: u32 = if delta == i32::MIN {
            2147483648u32
        } else {
            (-delta) as u32
        };
        let back = back as usize;
        let moved = if offset >= back {
            offset - back
        } else {
            0
        };
        if moved > max {
            max
        } else {
            moved
        }
    } else {
        let fwd = delta as usize;
        if offset >= max || max - offset <= fwd {
            max
        } else {
            offset + fwd
        }
    }
}

/// A scroll offset moved by `delta` rows, saturating at the ends of
/// `usize`.
pub open spec fn saturated(offset: usize, delta: int) -> usize {
    clamp(offset + delta, 0, usize::MAX as int) as usize
}

fn scroll_saturating(offset: usize, delta: i32) -> (r: usize)
    ensures
        r == saturated(offset, delta as int),
{
    if delta < 0 {
        let back: u32 = if delta == i32::MIN {
            2147483648u32
        } else {
            (-delta) as u32
        };
        offset.saturating_sub(back as usize)
    } else {
        offset.saturating_add(delta as usize)
    }
}

// ---------------------------------------------------------------------------
// Fields of the info popup
// ---------------------------------------------------------------------------

/// The fields the info popup shows: all of them in the detailed view.
pub open spec fn visible_fields(detailed: bool) -> Seq<EditField> {
    if detailed {
        EditField::detailed_fields()
    } else {
        EditField::simple_fields()
    }
}

/// The row of `f` among the shown fields, 0 when it is not shown.
pub open spec fn field_row(fields: Seq<EditField>, f: EditField) -> int {
    if fields.contains(f) {
        fields.index_of_first(f)->0
    } else {
        0
    }
}

/// The field `forward` (or backward) of `f` among the shown fields,
/// wrapping around at either end.
pub open spec fn moved_field(detailed: bool, f: EditField, forward: bool) -> EditField {
    let fields = visible_fields(detailed);
    let n = fields.len() as int;
    let row = field_row(fields, f);
    fields[(if forward {
        row + 1
    } else {
        row - 1 + n
    }) % n]
}

fn fields_for(detailed: bool) -> (r: Vec<EditField>)
    ensures
        r@ == visible_fields(detailed),
{
    if detailed {
        EditField::detailed()
    } else {
        EditField::simple()
    }
}

fn row_of(fields: &Vec<EditField>, f: EditField) -> (r: usize)
    ensures
        r == field_row(fields@, f),
{
    let mut i: usize = 0;
    while i < fields.len()
        invariant
            i <= fields@.len(),
            forall|j: int| 0 <= j < i ==> fields@[j] != f,
        decreases fields@.len() - i,
    {
        if fields[i] == f {
            proof {
                fields@.index_of_first_ensures(f);
                assert(fields@.contains(f));
                let k = fields@.index_of_first(f)->0;
                assert(k <= i) by {
                    if k > i {
                        assert(fields@[i as int] == f);
                    }
                }
            }
            return i;
        }
        i = i + 1;
    }
    proof {
        assert(!fields@.contains(f));
    }
    0
}

// ---------------------------------------------------------------------------
// The sidebar
// ---------------------------------------------------------------------------

/// The section header an entry belongs to, if it is a section's entry.
pub open spec fn header_of(item: SidebarItem) -> Option<SidebarItem> {
    match item {
        SidebarItem::Artist(_) => Some(SidebarItem::Artists),
        SidebarItem::Album(_) => Some(SidebarItem::Albums),
        SidebarItem::Genre(_) => Some(SidebarItem::Genres),
        SidebarItem::Playlist(_) => Some(SidebarItem::Playlists),
        _ => None,
    }
}

/// Whether the section of a header is open.
pub open spec fn is_open(e: SidebarExpanded, header: SidebarItem) -> bool {
    match header {
        SidebarItem::Artists => e.artists,
        SidebarItem::Albums => e.albums,
        SidebarItem::Genres => e.genres,
        SidebarItem::Playlists => e.playlists,
        _ => false,
    }
}

/// The open sections once the section of `header` is opened.
pub open spec fn opened(e: SidebarExpanded, header: SidebarItem) -> SidebarExpanded {
    SidebarExpanded {
        artists: e.artists || header is Artists,
        albums: e.albums || header is Albums,
        genres: e.genres || header is Genres,
        playlists: e.playlists || header is Playlists,
    }
}

/// The open sections once the section of `header` is opened or closed.
pub open spec fn toggled(e: SidebarExpanded, header: SidebarItem) -> SidebarExpanded {
    SidebarExpanded {
        artists: e.artists != (header is Artists),
        albums: e.albums != (header is Albums),
        genres: e.genres != (header is Genres),
        playlists: e.playlists != (header is Playlists),
    }
}

/// The first row of `items` that is `h`.
pub open spec fn first_row(items: Seq<SidebarItem>, h: SidebarItem) -> Option<int> {
    if exists|i: int| 0 <= i < items.len() && items[i] == h {
        Some(
            choose|i: int|
                0 <= i < items.len() && items[i] == h && forall|j: int|
                    0 <= j < i ==> items[j] != h,
        )
    } else {
        None
    }
}

/// An empty new-playlist overlay.
pub open spec fn blank_new_playlist(o: Overlay) -> bool {
    o matches Overlay::NewPlaylist { name, pending_tracks } && name@.len() == 0
        && pending_tracks@.len() == 0
}

fn is_same_header(a: &SidebarItem, h: &SidebarItem) -> (b: bool)
    requires
        h.header(),
    ensures
        b == (*a == *h),
{
    match (a, h) {
        (SidebarItem::Artists, SidebarItem::Artists) => true,
        (SidebarItem::Albums, SidebarItem::Albums) => true,
        (SidebarItem::Genres, SidebarItem::Genres) => true,
        (SidebarItem::Playlists, SidebarItem::Playlists) => true,
        _ => false,
    }
}

fn find_header(items: &Vec<SidebarItem>, h: &SidebarItem) -> (r: Option<usize>)
    requires
        h.header(),
    ensures
        r matches Some(i) ==> first_row(items@, *h) == Some(i as int),
        r is None ==> first_row(items@, *h) is None,
{
    let mut i: usize = 0;
    while i < items.len()
        invariant
            i <= items@.len(),
            h.header(),
            forall|j: int| 0 <= j < i ==> items@[j] != *h,
        decreases items@.len() - i,
    {
        if is_same_header(&items[i], h) {
            proof {
                let w = choose|k: int|
                    0 <= k < items@.len() && items@[k] == *h && forall|j: int|
                        0 <= j < k ==> items@[j] != *h;
                assert(0 <= i < items@.len() && items@[i as int] == *h && forall|j: int|
                    0 <= j < i ==> items@[j] != *h);
                assert(w == i) by {
                    if w < i {
                        assert(items@[w] != *h);
                    } else if w > i {
                        assert(items@[i as int] != *h);
                    }
                }
            }
            return Some(i);
        }
        i = i + 1;
    }
    None
}

fn header_of_exec(item: &SidebarItem) -> (r: Option<SidebarItem>)
    ensures
        r == header_of(*item),
{
    match item {
        SidebarItem::Artist(_) => Some(SidebarItem::Artists),
        SidebarItem::Album(_) => Some(SidebarItem::Albums),
        SidebarItem::Genre(_) => Some(SidebarItem::Genres),
        SidebarItem::Playlist(_) => Some(SidebarItem::Playlists),
        _ => None,
    }
}

fn is_open_exec(e: &SidebarExpanded, header: &SidebarItem) -> (b: bool)
    ensures
        b == is_open(*e, *header),
{
    match header {
        SidebarItem::Artists => e.artists,
        SidebarItem::Albums => e.albums,
        SidebarItem::Genres => e.genres,
        SidebarItem::Playlists => e.playlists,
        _ => false,
    }
}

fn new_playlist_overlay() -> (o: Overlay)
    ensures
        blank_new_playlist(o),
{
    Overlay::NewPlaylist { name: String::new(), pending_tracks: Vec::new() }
}

// ---------------------------------------------------------------------------
// Keys of the panels
// ---------------------------------------------------------------------------

/// Right in the sidebar on `item`: a closed section's header opens it;
/// otherwise the focus moves on to the track list.
pub open spec fn sidebar_right_step(s: ViewState, item: SidebarItem, t: ViewState, e: Effect) -> bool {
    if item.header() && !is_open(s.sidebar_expanded, item) {
        t == (ViewState { sidebar_expanded: opened(s.sidebar_expanded, item), ..s }) && e
            == Effect::RebuildSidebar
    } else {
        t == (ViewState { active_panel: Panel::TrackList, ..s }) && e == Effect::Nothing
    }
}

/// Left in the sidebar on `item`: a header opens or closes its section; a
/// section's entry sends the cursor to the section's header.
pub open spec fn sidebar_left_step(
    s: ViewState,
    items: Seq<SidebarItem>,
    item: SidebarItem,
    t: ViewState,
    e: Effect,
) -> bool {
    if item.header() {
        t == (ViewState { sidebar_expanded: toggled(s.sidebar_expanded, item), ..s }) && e
            == Effect::RebuildSidebar
    } else {
        match header_of(item) {
            Some(h) => match first_row(items, h) {
                Some(p) => t == (ViewState { sidebar_index: p as usize, ..s }) && e
                    == Effect::ShowSidebarEntry,
                None => t == s && e == Effect::Nothing,
            },
            None => t == s && e == Effect::Nothing,
        }
    }
}

/// A key in the sidebar: navigation keys move the cursor and show the entry
/// under it; right opens a closed section or moves on to the track list;
/// left closes or opens a section at its header and jumps from an entry to
/// its header; `N` on the playlists starts a new playlist.
pub open spec fn sidebar_key_step(
    s: ViewState,
    c: ViewContext,
    key: KeyCode,
    t: ViewState,
    e: Effect,
) -> bool {
    let items = c.sidebar_items@;
    let item = items[s.sidebar_index as int];
    match nav_index(key, true, s.sidebar_index, c.sidebar_items.len()) {
        Some(j) => t == (ViewState { sidebar_index: j, ..s }) && e == Effect::ShowSidebarEntry,
        None => if key is Enter {
            t == (ViewState { active_panel: Panel::TrackList, ..s }) && e == Effect::Nothing
        } else if key is Right || key == KeyCode::Char('l') {
            sidebar_right_step(s, item, t, e)
        } else if key is Left || key == KeyCode::Char('h') {
            sidebar_left_step(s, items, item, t, e)
        } else if key == KeyCode::Char('N') && (item is Playlists || item is Playlist) {
            blank_new_playlist(t.overlay) && t == (ViewState { overlay: t.overlay, ..s }) && e
                == Effect::Nothing
        } else {
            t == s && e == Effect::Nothing
        },
    }
}

/// A key in the track list: navigation keys move the cursor and drop the
/// selection; left and right move the focus to the neighbouring panels.
pub open spec fn tracklist_key_step(
    s: ViewState,
    c: ViewContext,
    key: KeyCode,
    t: ViewState,
    e: Effect,
) -> bool {
    e == Effect::Nothing && match nav_index(key, true, s.track_list_index, c.track_count) {
        Some(j) => t == (ViewState { track_list_index: j, selection_anchor: None, ..s }),
        None => if key is Left || key == KeyCode::Char('h') {
            t == (ViewState { active_panel: Panel::Sidebar, ..s })
        } else if key is Right || key == KeyCode::Char('l') {
            t == (ViewState { active_panel: Panel::Queue, ..s })
        } else {
            t == s
        },
    }
}

/// A key in the queue: navigation keys move the cursor, enter plays the
/// entry under it, left and right (when lyrics are shown) move the focus.
pub open spec fn queue_key_step(
    s: ViewState,
    c: ViewContext,
    key: KeyCode,
    t: ViewState,
    e: Effect,
) -> bool {
    match nav_index(key, true, s.queue_index, c.queue_len) {
        Some(j) => t == (ViewState { queue_index: j, ..s }) && e == Effect::Nothing,
        None => if key is Enter {
            t == s && e == (if s.queue_index < c.queue_len {
                Effect::PlayQueueSelected
            } else {
                Effect::Nothing
            })
        } else if key is Left || key == KeyCode::Char('h') {
            t == (ViewState { active_panel: Panel::TrackList, ..s }) && e == Effect::Nothing
        } else if (key is Right || key == KeyCode::Char('l')) && s.lyrics.visible {
            t == (ViewState { active_panel: Panel::Lyrics, ..s }) && e == Effect::Nothing
        } else {
            t == s && e == Effect::Nothing
        },
    }
}

/// The lyrics scroll offset after a scrolling key, if `key` scrolls.
pub open spec fn lyrics_scrolled(key: KeyCode, scroll: usize) -> Option<usize> {
    if key is Up || key == KeyCode::Char('k') {
        Some(saturated(scroll, -1))
    } else if key is Down || key == KeyCode::Char('j') {
        Some(saturated(scroll, 1))
    } else if key is PageUp || key == KeyCode::Char('u') {
        Some(saturated(scroll, -10))
    } else if key is PageDown || key == KeyCode::Char('d') {
        Some(saturated(scroll, 10))
    } else if key is Home || key == KeyCode::Char('g') {
        Some(0)
    } else if key is End || key == KeyCode::Char('G') {
        Some(usize::MAX)
    } else {
        None
    }
}

/// A key in the lyrics panel: scrolling keys scroll by hand (turning off
/// the automatic follow), `r` reloads, left gives the focus back to the
/// queue and turns the follow on again.
pub open spec fn lyrics_key_step(s: ViewState, key: KeyCode, t: ViewState, e: Effect) -> bool {
    match lyrics_scrolled(key, s.lyrics.scroll) {
        Some(n) => t == (ViewState {
            lyrics: LyricsState { manual_scroll: true, scroll: n, ..s.lyrics },
            ..s
        }) && e == Effect::Nothing,
        None => if key == KeyCode::Char('r') {
            t == s && e == Effect::LoadLyrics
        } else if key is Left || key == KeyCode::Char('h') {
            t == (ViewState {
                active_panel: Panel::Queue,
                lyrics: LyricsState { manual_scroll: false, ..s.lyrics },
                ..s
            }) && e == Effect::Nothing
        } else {
            t == s && e == Effect::Nothing
        },
    }
}

/// A movement key, handled by the focused panel.
pub open spec fn move_step(s: ViewState, c: ViewContext, key: KeyCode, t: ViewState, e: Effect) -> bool {
    match s.active_panel {
        Panel::Sidebar => sidebar_key_step(s, c, key, t, e),
        Panel::TrackList => tracklist_key_step(s, c, key, t, e),
        Panel::Queue => queue_key_step(s, c, key, t, e),
        Panel::Lyrics => lyrics_key_step(s, key, t, e),
    }
}

impl ViewState {
    /// The cursors are far enough from the end of `usize` for paging down.
    pub open spec fn cursors_fit(self) -> bool {
        &&& self.sidebar_index + 10 <= usize::MAX
        &&& self.track_list_index + 10 <= usize::MAX
        &&& self.queue_index + 10 <= usize::MAX
        &&& self.global_search_selected + 10 <= usize::MAX
    }

    /// The sidebar cursor is on a row of the sidebar.
    pub open spec fn fits(self, c: ViewContext) -> bool {
        self.cursors_fit() && self.sidebar_index < c.sidebar_items.len()
    }

    fn sidebar_right(&mut self, item: &SidebarItem) -> (e: Effect)
        ensures
            sidebar_right_step(*old(self), *item, *final(self), e),
    {
        if item.is_header() && !is_open_exec(&self.sidebar_expanded, item) {
            let ghost before = self.sidebar_expanded;
            self.sidebar_expanded = SidebarExpanded {
                artists: self.sidebar_expanded.artists || matches!(item, SidebarItem::Artists),
                albums: self.sidebar_expanded.albums || matches!(item, SidebarItem::Albums),
                genres: self.sidebar_expanded.genres || matches!(item, SidebarItem::Genres),
                playlists: self.sidebar_expanded.playlists || matches!(item, SidebarItem::Playlists),
            };
            assert(self.sidebar_expanded == opened(before, *item));
            Effect::RebuildSidebar
        } else {
            self.active_panel = Panel::TrackList;
            Effect::Nothing
        }
    }

    fn sidebar_left(&mut self, items: &Vec<SidebarItem>, item: &SidebarItem) -> (e: Effect)
        ensures
            sidebar_left_step(*old(self), items@, *item, *final(self), e),
    {
        if item.is_header() {
            let ghost before = self.sidebar_expanded;
            self.sidebar_expanded.toggle(item);
            assert(self.sidebar_expanded == toggled(before, *item));
            Effect::RebuildSidebar
        } else {
            match header_of_exec(item) {
                Some(h) => match find_header(items, &h) {
                    Some(p) => {
                        self.sidebar_index = p;
                        Effect::ShowSidebarEntry
                    },
                    None => Effect::Nothing,
                },
                None => Effect::Nothing,
            }
        }
    }

    fn sidebar_key(&mut self, c: &ViewContext, key: KeyCode) -> (e: Effect)
        requires
            old(self).fits(*c),
        ensures
            sidebar_key_step(*old(self), *c, key, *final(self), e),
    {
        let n = c.sidebar_items.len();
        let mut idx = self.sidebar_index;
        if navigate_index(key, &mut idx, n) {
            self.sidebar_index = idx;
            return Effect::ShowSidebarEntry;
        }
        let item = &c.sidebar_items[self.sidebar_index];
        if key == KeyCode::Enter {
            self.active_panel = Panel::TrackList;
            Effect::Nothing
        } else if key == KeyCode::Right || key == KeyCode::Char('l') {
            self.sidebar_right(item)
        } else if key == KeyCode::Left || key == KeyCode::Char('h') {
            self.sidebar_left(&c.sidebar_items, item)
        } else if key == KeyCode::Char('N') && (matches!(item, SidebarItem::Playlists) || matches!(item, SidebarItem::Playlist(_))) {
            self.overlay = new_playlist_overlay();
            Effect::Nothing
        } else {
            Effect::Nothing
        }
    }

    fn tracklist_key(&mut self, c: &ViewContext, key: KeyCode) -> (e: Effect)
        requires
            old(self).cursors_fit(),
        ensures
            tracklist_key_step(*old(self), *c, key, *final(self), e),
    {
        let mut idx = self.track_list_index;
        if navigate_index(key, &mut idx, c.track_count) {
            self.track_list_index = idx;
            self.selection_anchor = None;
        } else if key == KeyCode::Left || key == KeyCode::Char('h') {
            self.active_panel = Panel::Sidebar;
        } else if key == KeyCode::Right || key == KeyCode::Char('l') {
            self.active_panel = Panel::Queue;
        }
        Effect::Nothing
    }

    fn queue_key(&mut self, c: &ViewContext, key: KeyCode) -> (e: Effect)
        requires
            old(self).cursors_fit(),
        ensures
            queue_key_step(*old(self), *c, key, *final(self), e),
    {
        let mut idx = self.queue_index;
        if navigate_index(key, &mut idx, c.queue_len) {
            self.queue_index = idx;
            Effect::Nothing
        } else if key == KeyCode::Enter {
            if self.queue_index < c.queue_len {
                Effect::PlayQueueSelected
            } else {
                Effect::Nothing
            }
        } else if key == KeyCode::Left || key == KeyCode::Char('h') {
            self.active_panel = Panel::TrackList;
            Effect::Nothing
        } else if (key == KeyCode::Right || key == KeyCode::Char('l')) && self.lyrics.visible {
            self.active_panel = Panel::Lyrics;
            Effect::Nothing
        } else {
            Effect::Nothing
        }
    }

    fn lyrics_key(&mut self, key: KeyCode) -> (e: Effect)
        ensures
            lyrics_key_step(*old(self), key, *final(self), e),
    {
        let scroll = self.lyrics.scroll;
        let moved: Option<usize> = if key == KeyCode::Up || key == KeyCode::Char('k') {
            Some(scroll_saturating(scroll, -1))
        } else if key == KeyCode::Down || key == KeyCode::Char('j') {
            Some(scroll_saturating(scroll, 1))
        } else if key == KeyCode::PageUp || key == KeyCode::Char('u') {
            Some(scroll_saturating(scroll, -10))
        } else if key == KeyCode::PageDown || key == KeyCode::Char('d') {
            Some(scroll_saturating(scroll, 10))
        } else if key == KeyCode::Home || key == KeyCode::Char('g') {
            Some(0)
        } else if key == KeyCode::End || key == KeyCode::Char('G') {
            Some(usize::MAX)
        } else {
            None
        };
        match moved {
            Some(n) => {
                self.lyrics.manual_scroll = true;
                self.lyrics.scroll = n;
                Effect::Nothing
            },
            None => if key == KeyCode::Char('r') {
                Effect::LoadLyrics
            } else if key == KeyCode::Left || key == KeyCode::Char('h') {
                self.lyrics.manual_scroll = false;
                self.active_panel = Panel::Queue;
                Effect::Nothing
            } else {
                Effect::Nothing
            },
        }
    }

    /// A movement key, handled by the focused panel.
    pub fn move_key(&mut self, c: &ViewContext, key: KeyCode) -> (e: Effect)
        requires
            old(self).fits(*c),
        ensures
            move_step(*old(self), *c, key, *final(self), e),
    {
        match self.active_panel {
            Panel::Sidebar => self.sidebar_key(c, key),
            Panel::TrackList => self.tracklist_key(c, key),
            Panel::Queue => self.queue_key(c, key),
            Panel::Lyrics => self.lyrics_key(key),
        }
    }
}

// ---------------------------------------------------------------------------
// The track info popup
// ---------------------------------------------------------------------------

/// The edited field after switching between the simple and the detailed
/// view: kept when the new view shows it, else the first field shown.
pub open spec fn snapped_field(detailed: bool, f: EditField) -> EditField {
    if visible_fields(detailed).contains(f) {
        f
    } else {
        visible_fields(detailed)[0]
    }
}

/// `d` switches the popup between the simple and the detailed view, back at
/// the top.
pub open spec fn toggle_detail_step(s: ViewState, t: ViewState) -> bool {
    t == (ViewState {
        info_detailed: !s.info_detailed,
        info_scroll: 0,
        info_edit_field: snapped_field(!s.info_detailed, s.info_edit_field),
        ..s
    })
}

/// A digit `0`-`9`.
pub open spec fn is_digit(c: char) -> bool {
    '0' <= c <= '9'
}

/// A key while the popup's fields are edited: escape drops the edits,
/// enter saves them, tab and the arrows move between the shown fields,
/// backspace and characters edit the field (numeric fields take digits
/// only).
pub open spec fn info_edit_step(s: ViewState, key: KeyCode, t: ViewState, e: Effect) -> bool {
    let f = s.info_edit_field;
    if key is Esc {
        t == (ViewState { info_editing: false, ..s }) && e == Effect::ReloadInfo
    } else if key is Enter {
        t == (ViewState { info_editing: false, ..s }) && e == Effect::SaveInfo
    } else if key is Tab || key is Down {
        t == (ViewState { info_edit_field: moved_field(s.info_detailed, f, true), ..s }) && e
            == Effect::Nothing
    } else if key is BackTab || key is Up {
        t == (ViewState { info_edit_field: moved_field(s.info_detailed, f, false), ..s }) && e
            == Effect::Nothing
    } else if key is Backspace {
        t == s && e == Effect::InfoBackspace(f)
    } else {
        t == s && e == match key {
            KeyCode::Char(c) => if f.numeric() && !is_digit(c) {
                Effect::Nothing
            } else {
                Effect::InfoChar(f, c)
            },
            _ => Effect::Nothing,
        }
    }
}

/// The popup's scroll offset after a scrolling key of the view mode, if
/// `key` is one.
pub open spec fn info_scrolled(key: KeyCode, scroll: usize, max: usize) -> Option<usize> {
    if key is Up || key == KeyCode::Char('k') {
        Some(clamp(scroll - 1, 0, max as int) as usize)
    } else if key is Down || key == KeyCode::Char('j') {
        Some(clamp(scroll + 1, 0, max as int) as usize)
    } else if key is PageUp {
        Some(clamp(scroll - 8, 0, max as int) as usize)
    } else if key is PageDown {
        Some(clamp(scroll + 8, 0, max as int) as usize)
    } else if key is Home || key == KeyCode::Char('g') {
        Some(0)
    } else if key is End || key == KeyCode::Char('G') {
        Some(max)
    } else {
        None
    }
}

/// Whether the open info popup takes `key` itself.
pub open spec fn info_takes(s: ViewState, key: KeyCode) -> bool {
    key == KeyCode::Char('d') || s.info_editing || key == KeyCode::Char('e') || info_scrolled(
        key,
        s.info_scroll,
        s.info_max_scroll,
    ) is Some
}

/// A key the open info popup takes: `d` switches the view, in edit mode
/// the fields are edited, `e` starts editing, and the scrolling keys scroll.
pub open spec fn info_key_step(s: ViewState, key: KeyCode, t: ViewState, e: Effect) -> bool {
    if key == KeyCode::Char('d') {
        toggle_detail_step(s, t) && e == Effect::Nothing
    } else if s.info_editing {
        info_edit_step(s, key, t, e)
    } else if key == KeyCode::Char('e') {
        t == s && e == Effect::EnterInfoEdit
    } else {
        t == (ViewState {
            info_scroll: info_scrolled(key, s.info_scroll, s.info_max_scroll)->0,
            ..s
        }) && e == Effect::Nothing
    }
}

// ---------------------------------------------------------------------------
// Searching
// ---------------------------------------------------------------------------

/// Filtering the sidebar again after its query changed, when a section is
/// being searched.
pub open spec fn refilter(section: Option<SidebarSection>) -> Effect {
    match section {
        Some(sec) => Effect::FilterSidebar(sec),
        None => Effect::Nothing,
    }
}

/// The sidebar search ended: no query, no section, not typing.
pub open spec fn sidebar_search_cleared(s: ViewState, t: ViewState) -> bool {
    t == (ViewState {
        sidebar_search_mode: false,
        sidebar_search_query: t.sidebar_search_query,
        sidebar_search_section: None,
        ..s
    }) && t.sidebar_search_query@.len() == 0
}

/// A key while typing a sidebar search: escape ends the search, enter
/// keeps the filter and goes back to navigating, backspace and characters
/// edit the query; each change of the query filters the section again.
pub open spec fn sidebar_search_step(s: ViewState, key: KeyCode, t: ViewState, e: Effect) -> bool {
    match key {
        KeyCode::Esc => sidebar_search_cleared(s, t) && e == refilter(s.sidebar_search_section),
        KeyCode::Enter => t == (ViewState { sidebar_search_mode: false, ..s }) && e
            == Effect::Nothing,
        KeyCode::Backspace => t == (ViewState {
            sidebar_search_query: t.sidebar_search_query,
            ..s
        }) && t.sidebar_search_query@ == without_last(s.sidebar_search_query@) && e == refilter(
            s.sidebar_search_section,
        ),
        KeyCode::Char(c) => t == (ViewState {
            sidebar_search_query: t.sidebar_search_query,
            ..s
        }) && t.sidebar_search_query@ == s.sidebar_search_query@.push(c) && e == refilter(
            s.sidebar_search_section,
        ),
        _ => t == s && e == Effect::Nothing,
    }
}

/// The global search overlay closed: no query, first result.
pub open spec fn global_search_closed(s: ViewState, t: ViewState) -> bool {
    t == (ViewState {
        overlay: Overlay::Hidden,
        global_search_query: t.global_search_query,
        global_search_selected: 0,
        ..s
    }) && t.global_search_query@.len() == 0
}

/// The global search's query changed to `q`: the search runs again from the
/// first result.
pub open spec fn global_query_changed(s: ViewState, t: ViewState, q: Seq<char>) -> bool {
    t == (ViewState {
        global_search_query: t.global_search_query,
        global_search_selected: 0,
        ..s
    }) && t.global_search_query@ == q
}

/// The chosen row of `total` global search results after a navigation key,
/// if `key` navigates: up and down wrap around, the page keys move by ten
/// and stop at the ends.
pub open spec fn global_choice(key: KeyCode, sel: usize, total: usize) -> Option<usize> {
    match key {
        KeyCode::Up => Some(if total > 0 {
            if sel == 0 {
                (total - 1) as usize
            } else {
                (sel - 1) as usize
            }
        } else {
            sel
        }),
        KeyCode::Down => Some(if total > 0 {
            if sel + 1 >= total {
                0
            } else {
                (sel + 1) as usize
            }
        } else {
            sel
        }),
        KeyCode::PageUp => Some(if sel >= 10 {
            (sel - 10) as usize
        } else {
            0
        }),
        KeyCode::PageDown => Some(if total > 0 {
            if sel + 10 <= total - 1 {
                (sel + 10) as usize
            } else {
                (total - 1) as usize
            }
        } else {
            sel
        }),
        _ => None,
    }
}

/// A key of the global search overlay that is not a navigation key.
pub open spec fn global_edit_step(s: ViewState, key: KeyCode, t: ViewState, e: Effect) -> bool {
    match key {
        KeyCode::Esc => global_search_closed(s, t) && e == Effect::ClearGlobalResults,
        KeyCode::Enter => global_search_closed(s, t) && e == Effect::OpenGlobalResult(
            s.global_search_selected,
        ),
        KeyCode::Backspace => global_query_changed(s, t, without_last(s.global_search_query@))
            && e == Effect::RecomputeGlobalSearch,
        KeyCode::Char(c) => global_query_changed(s, t, s.global_search_query@.push(c)) && e
            == Effect::RecomputeGlobalSearch,
        _ => t == s && e == Effect::Nothing,
    }
}

/// A key in the global search overlay: escape closes it, enter goes to the
/// chosen result and closes it, backspace and characters edit the query,
/// the navigation keys move the choice.
pub open spec fn global_search_step(
    s: ViewState,
    c: ViewContext,
    key: KeyCode,
    t: ViewState,
    e: Effect,
) -> bool {
    match global_choice(key, s.global_search_selected, c.global_result_count) {
        Some(j) => t == (ViewState { global_search_selected: j, ..s }) && e == Effect::Nothing,
        None => global_edit_step(s, key, t, e),
    }
}

impl ViewState {
    fn toggle_detail(&mut self)
        ensures
            toggle_detail_step(*old(self), *final(self)),
    {
        self.info_detailed = !self.info_detailed;
        self.info_scroll = 0;
        let fields = fields_for(self.info_detailed);
        let mut shown = false;
        let mut i: usize = 0;
        while i < fields.len()
            invariant
                i <= fields@.len(),
                shown == exists|j: int| 0 <= j < i && fields@[j] == self.info_edit_field,
            decreases fields@.len() - i,
        {
            if fields[i] == self.info_edit_field {
                shown = true;
            }
            i = i + 1;
        }
        if !shown {
            assert(fields@.len() > 0) by {
                assert(fields@[0] == EditField::Title);
            }
            self.info_edit_field = fields[0];
        } else {
            assert(fields@.contains(self.info_edit_field));
        }
    }

    /// Moves the edited field of the info popup one row forward (or back),
    /// wrapping around among the shown fields.
    pub fn move_edit_field(&mut self, forward: bool)
        ensures
            *final(self) == (ViewState {
                info_edit_field: moved_field(old(self).info_detailed, old(self).info_edit_field, forward),
                ..*old(self)
            }),
    {
        let fields = fields_for(self.info_detailed);
        let n = fields.len();
        assert(n > 0) by {
            assert(fields@[0] == EditField::Title);
        }
        let row = row_of(&fields, self.info_edit_field);
        proof {
            if fields@.contains(self.info_edit_field) {
                fields@.index_of_first_ensures(self.info_edit_field);
            }
        }
        assert(row < n);
        let next = if forward {
            if row + 1 == n {
                0
            } else {
                row + 1
            }
        } else {
            if row == 0 {
                n - 1
            } else {
                row - 1
            }
        };
        assert(next as int == (if forward {
            row + 1
        } else {
            row - 1 + n
        }) % (n as int)) by (nonlinear_arith)
            requires
                row < n,
                next == (if forward {
                    if row + 1 == n {
                        0
                    } else {
                        row + 1
                    }
                } else {
                    if row == 0 {
                        n - 1
                    } else {
                        row - 1
                    }
                }),
        ;
        self.info_edit_field = fields[next];
    }

    /// Starts editing the info popup's fields, at the first field shown
    /// (once the front end has read the focused track's tags).
    pub fn start_info_edit(&mut self)
        ensures
            *final(self) == (ViewState {
                info_editing: true,
                info_edit_field: visible_fields(old(self).info_detailed)[0],
                ..*old(self)
            }),
    {
        let fields = fields_for(self.info_detailed);
        assert(fields@.len() > 0) by {
            assert(fields@[0] == EditField::Title);
        }
        self.info_editing = true;
        self.info_edit_field = fields[0];
    }

    fn info_edit_key(&mut self, key: KeyCode) -> (e: Effect)
        ensures
            info_edit_step(*old(self), key, *final(self), e),
    {
        let f = self.info_edit_field;
        match key {
            KeyCode::Esc => {
                self.info_editing = false;
                Effect::ReloadInfo
            },
            KeyCode::Enter => {
                self.info_editing = false;
                Effect::SaveInfo
            },
            KeyCode::Tab | KeyCode::Down => {
                self.move_edit_field(true);
                Effect::Nothing
            },
            KeyCode::BackTab | KeyCode::Up => {
                self.move_edit_field(false);
                Effect::Nothing
            },
            KeyCode::Backspace => Effect::InfoBackspace(f),
            KeyCode::Char(c) => {
                if f.is_numeric() && !('0' <= c && c <= '9') {
                    Effect::Nothing
                } else {
                    Effect::InfoChar(f, c)
                }
            },
            _ => Effect::Nothing,
        }
    }

    fn info_scroll_exec(&self, key: KeyCode) -> (r: Option<usize>)
        ensures
            r == info_scrolled(key, self.info_scroll, self.info_max_scroll),
    {
        let s = self.info_scroll;
        let m = self.info_max_scroll;
        if key == KeyCode::Up || key == KeyCode::Char('k') {
            Some(scrolled(s, m, -1))
        } else if key == KeyCode::Down || key == KeyCode::Char('j') {
            Some(scrolled(s, m, 1))
        } else if key == KeyCode::PageUp {
            Some(scrolled(s, m, -8))
        } else if key == KeyCode::PageDown {
            Some(scrolled(s, m, 8))
        } else if key == KeyCode::Home || key == KeyCode::Char('g') {
            Some(0)
        } else if key == KeyCode::End || key == KeyCode::Char('G') {
            Some(m)
        } else {
            None
        }
    }

    fn sidebar_search_key(&mut self, key: KeyCode) -> (e: Effect)
        ensures
            sidebar_search_step(*old(self), key, *final(self), e),
    {
        let refilter = match self.sidebar_search_section {
            Some(sec) => Effect::FilterSidebar(sec),
            None => Effect::Nothing,
        };
        match key {
            KeyCode::Esc => {
                self.sidebar_search_mode = false;
                self.sidebar_search_query = String::new();
                self.sidebar_search_section = None;
                refilter
            },
            KeyCode::Enter => {
                self.sidebar_search_mode = false;
                Effect::Nothing
            },
            KeyCode::Backspace => {
                pop_char(&mut self.sidebar_search_query);
                refilter
            },
            KeyCode::Char(c) => {
                push_char(&mut self.sidebar_search_query, c);
                refilter
            },
            _ => Effect::Nothing,
        }
    }

    fn global_search_key(&mut self, c: &ViewContext, key: KeyCode) -> (e: Effect)
        requires
            old(self).cursors_fit(),
        ensures
            global_search_step(*old(self), *c, key, *final(self), e),
    {
        let sel = self.global_search_selected;
        match global_choice_exec(key, sel, c.global_result_count) {
            Some(j) => {
                self.global_search_selected = j;
                return Effect::Nothing;
            },
            None => {},
        }
        self.global_edit_key(key)
    }

    fn close_global_search(&mut self)
        ensures
            global_search_closed(*old(self), *final(self)),
    {
        self.overlay = Overlay::Hidden;
        self.global_search_query = String::new();
        self.global_search_selected = 0;
    }

    fn global_pop(&mut self)
        ensures
            global_query_changed(*old(self), *final(self), without_last(old(self).global_search_query@)),
    {
        pop_char(&mut self.global_search_query);
        self.global_search_selected = 0;
    }

    fn global_push(&mut self, c: char)
        ensures
            global_query_changed(*old(self), *final(self), old(self).global_search_query@.push(c)),
    {
        push_char(&mut self.global_search_query, c);
        self.global_search_selected = 0;
    }

    fn global_edit_key(&mut self, key: KeyCode) -> (e: Effect)
        ensures
            global_edit_step(*old(self), key, *final(self), e),
    {
        let sel = self.global_search_selected;
        match key {
            KeyCode::Esc => {
                self.close_global_search();
                Effect::ClearGlobalResults
            },
            KeyCode::Enter => {
                self.close_global_search();
                Effect::OpenGlobalResult(sel)
            },
            KeyCode::Backspace => {
                self.global_pop();
                Effect::RecomputeGlobalSearch
            },
            KeyCode::Char(ch) => {
                self.global_push(ch);
                Effect::RecomputeGlobalSearch
            },
            _ => Effect::Nothing,
        }
    }
}

fn global_choice_exec(key: KeyCode, sel: usize, total: usize) -> (r: Option<usize>)
    requires
        sel + 10 <= usize::MAX,
    ensures
        r == global_choice(key, sel, total),
{
    match key {
        KeyCode::Up => Some(if total > 0 {
            if sel == 0 {
                total - 1
            } else {
                sel - 1
            }
        } else {
            sel
        }),
        KeyCode::Down => Some(if total > 0 {
            if sel + 1 >= total {
                0
            } else {
                sel + 1
            }
        } else {
            sel
        }),
        KeyCode::PageUp => Some(if sel >= 10 {
            sel - 10
        } else {
            0
        }),
        KeyCode::PageDown => Some(if total > 0 {
            if sel + 10 <= total - 1 {
                sel + 10
            } else {
                total - 1
            }
        } else {
            sel
        }),
        _ => None,
    }
}

// ---------------------------------------------------------------------------
// Actions
// ---------------------------------------------------------------------------

/// The outside work of the actions that leave the view state as it is, and
/// `None` for the others.
pub open spec fn plain_effect(a: Action) -> Option<Effect> {
    match a {
        Action::Quit => Some(Effect::Quit),
        Action::Next => Some(Effect::Next),
        Action::Previous => Some(Effect::Previous),
        Action::Stop => Some(Effect::Stop),
        Action::VolumeUp => Some(Effect::VolumeUp),
        Action::VolumeDown => Some(Effect::VolumeDown),
        Action::SeekForward => Some(Effect::SeekForward),
        Action::SeekBackward => Some(Effect::SeekBackward),
        Action::ToggleShuffle => Some(Effect::ToggleShuffle),
        Action::ToggleLoop => Some(Effect::ToggleLoop),
        Action::AddToPlaylist => Some(Effect::OpenAddToPlaylist),
        Action::LyricsReload => Some(Effect::LoadLyrics),
        Action::ToggleFavorite => Some(Effect::ToggleFavorite),
        Action::OverlayConfirm => Some(Effect::ConfirmOverlay),
        _ => None,
    }
}

fn plain_effect_exec(a: Action) -> (r: Option<Effect>)
    ensures
        r == plain_effect(a),
{
    match a {
        Action::Quit => Some(Effect::Quit),
        Action::Next => Some(Effect::Next),
        Action::Previous => Some(Effect::Previous),
        Action::Stop => Some(Effect::Stop),
        Action::VolumeUp => Some(Effect::VolumeUp),
        Action::VolumeDown => Some(Effect::VolumeDown),
        Action::SeekForward => Some(Effect::SeekForward),
        Action::SeekBackward => Some(Effect::SeekBackward),
        Action::ToggleShuffle => Some(Effect::ToggleShuffle),
        Action::ToggleLoop => Some(Effect::ToggleLoop),
        Action::AddToPlaylist => Some(Effect::OpenAddToPlaylist),
        Action::LyricsReload => Some(Effect::LoadLyrics),
        Action::ToggleFavorite => Some(Effect::ToggleFavorite),
        Action::OverlayConfirm => Some(Effect::ConfirmOverlay),
        _ => None,
    }
}

/// Cycling the focus forward (or backward) through the panels: entering
/// the lyrics panel loads the lyrics, leaving it turns the automatic follow
/// back on.
pub open spec fn cycle_step(s: ViewState, forward: bool, t: ViewState, e: Effect) -> bool {
    let p = s.active_panel;
    let q = if forward {
        next_panel(p, s.lyrics.visible)
    } else {
        prev_panel(p, s.lyrics.visible)
    };
    t == (ViewState {
        active_panel: q,
        lyrics: LyricsState {
            manual_scroll: if p == Panel::Lyrics {
                false
            } else {
                s.lyrics.manual_scroll
            },
            ..s.lyrics
        },
        ..s
    }) && e == (if q == Panel::Lyrics {
        Effect::LoadLyrics
    } else {
        Effect::Nothing
    })
}

/// Showing the lyrics panel focuses and loads it; hiding it gives a focus
/// it had to the queue.
pub open spec fn toggle_lyrics_step(s: ViewState, t: ViewState, e: Effect) -> bool {
    if s.lyrics.visible {
        t == (ViewState {
            lyrics: LyricsState { visible: false, manual_scroll: false, ..s.lyrics },
            active_panel: if s.active_panel == Panel::Lyrics {
                Panel::Queue
            } else {
                s.active_panel
            },
            ..s
        }) && e == Effect::Nothing
    } else {
        t == (ViewState {
            lyrics: LyricsState { visible: true, ..s.lyrics },
            active_panel: Panel::Lyrics,
            ..s
        }) && e == Effect::LoadLyrics
    }
}

/// Play/pause: with nothing playing it starts the entry under the cursor
/// of the queue (when the queue has the focus) or of the track list;
/// otherwise it pauses or resumes.
pub open spec fn play_pause_effect(s: ViewState, c: ViewContext) -> Effect {
    if c.player_stopped {
        if s.active_panel == Panel::Queue {
            Effect::PlayQueueSelected
        } else {
            Effect::PlaySelected
        }
    } else {
        Effect::TogglePause
    }
}

/// Enter: from the sidebar on to the track list, in the lists play the row
/// under the cursor, in the lyrics panel download missing lyrics of the
/// playing track unless a download is running.
pub open spec fn enter_step(s: ViewState, c: ViewContext, t: ViewState, e: Effect) -> bool {
    match s.active_panel {
        Panel::Sidebar => t == (ViewState { active_panel: Panel::TrackList, ..s }) && e
            == Effect::Nothing,
        Panel::TrackList => t == s && e == Effect::PlaySelected,
        Panel::Queue => t == s && e == Effect::PlayQueueSelected,
        Panel::Lyrics => t == s && e == (if s.lyrics.content is None && c.has_current_track
            && !(s.lyrics.fetch_status is Fetching) {
            Effect::FetchLyrics
        } else {
            Effect::Nothing
        }),
    }
}

/// Extending the selection up (or down) by a row: the selection starts at
/// the cursor if none was made, and the cursor moves while it stays on the
/// list.
pub open spec fn extend_step(s: ViewState, c: ViewContext, up: bool, t: ViewState) -> bool {
    if c.track_count == 0 {
        t == s
    } else {
        let anchor = match s.selection_anchor {
            Some(a) => a,
            None => s.track_list_index,
        };
        let i = s.track_list_index;
        let j = if up {
            if i > 0 {
                (i - 1) as usize
            } else {
                i
            }
        } else {
            if i + 1 < c.track_count {
                (i + 1) as usize
            } else {
                i
            }
        };
        t == (ViewState { selection_anchor: Some(anchor), track_list_index: j, ..s })
    }
}

/// The section a sidebar search on `item` searches (the playlists header
/// itself has none).
pub open spec fn search_section_of(item: SidebarItem) -> Option<SidebarSection> {
    match item {
        SidebarItem::Artists | SidebarItem::Artist(_) => Some(SidebarSection::Artists),
        SidebarItem::Albums | SidebarItem::Album(_) => Some(SidebarSection::Albums),
        SidebarItem::Genres | SidebarItem::Genre(_) => Some(SidebarSection::Genres),
        SidebarItem::Playlist(_) => Some(SidebarSection::Playlists),
        _ => None,
    }
}

/// Whether a section is open.
pub open spec fn section_open(e: SidebarExpanded, sec: SidebarSection) -> bool {
    match sec {
        SidebarSection::Artists => e.artists,
        SidebarSection::Albums => e.albums,
        SidebarSection::Genres => e.genres,
        SidebarSection::Playlists => e.playlists,
    }
}

/// Starting a search: in the sidebar, a search of the open section under
/// the cursor; elsewhere a search of the track list, which takes the focus.
pub open spec fn enter_search_step(s: ViewState, c: ViewContext, t: ViewState, e: Effect) -> bool {
    if s.active_panel == Panel::Sidebar {
        e == Effect::Nothing && match search_section_of(c.sidebar_items@[s.sidebar_index as int]) {
            Some(sec) => if section_open(s.sidebar_expanded, sec) {
                t == (ViewState {
                    sidebar_search_mode: true,
                    sidebar_search_section: Some(sec),
                    ..s
                })
            } else {
                t == s
            },
            None => t == s,
        }
    } else {
        t == (ViewState { search_mode: true, active_panel: Panel::TrackList, ..s }) && e
            == Effect::StartSearch
    }
}

/// How many of the rows `lo..=hi` are rows of a list of `n`.
pub open spec fn rows_within(lo: int, hi: int, n: int) -> int {
    if n <= lo {
        0
    } else if hi < n {
        hi - lo + 1
    } else {
        n - lo
    }
}

/// Adding to the queue: without a selection the row under the cursor (the
/// queue cursor goes to it), with one every selected row of the list (the
/// queue cursor goes to the first of them and the selection is dropped).
pub open spec fn add_to_queue_step(s: ViewState, c: ViewContext, t: ViewState) -> bool {
    match s.selection_anchor {
        None => t == (ViewState {
            queue_index: if s.track_list_index < c.track_count {
                c.queue_len
            } else {
                s.queue_index
            },
            ..s
        }),
        Some(a) => {
            let i = s.track_list_index;
            let lo = if a <= i {
                a
            } else {
                i
            };
            let hi = if a <= i {
                i
            } else {
                a
            };
            let count = hi - lo + 1;
            let len = c.queue_len + rows_within(lo as int, hi as int, c.track_count as int);
            t == (ViewState {
                queue_index: if len >= count {
                    (len - count) as usize
                } else {
                    0
                },
                selection_anchor: None,
                ..s
            })
        },
    }
}

/// Removing the queue entry under the cursor: the cursor stays unless it
/// would be past the end of the shorter queue.
pub open spec fn remove_from_queue_step(s: ViewState, c: ViewContext, t: ViewState) -> bool {
    let len = if s.queue_index < c.queue_len {
        c.queue_len - 1
    } else {
        c.queue_len as int
    };
    t == (ViewState {
        queue_index: if s.queue_index >= len && s.queue_index > 0 {
            (s.queue_index - 1) as usize
        } else {
            s.queue_index
        },
        ..s
    })
}

/// The info popup closed: not editing, simple view, at the top.
pub open spec fn info_closed(s: ViewState, t: ViewState) -> bool {
    t == (ViewState {
        show_info: false,
        info_editing: false,
        info_detailed: false,
        info_scroll: 0,
        ..s
    })
}

/// The search field's query changed to `q`.
pub open spec fn query_changed(s: ViewState, t: ViewState, q: Seq<char>) -> bool {
    t == (ViewState { search_query: t.search_query, ..s }) && t.search_query@ == q
}

/// The overlay changed to `t.overlay`; nothing else changed.
pub open spec fn only_overlay(s: ViewState, t: ViewState) -> bool {
    t == (ViewState { overlay: t.overlay, ..s })
}

/// What an action does to the view and which outside work it asks for.
pub open spec fn action_step(s: ViewState, c: ViewContext, a: Action, t: ViewState, e: Effect) -> bool {
    match plain_effect(a) {
        Some(x) => t == s && e == x,
        None => match a {
            Action::ToggleHelp => t == (ViewState {
                show_help: !s.show_help,
                help_scroll: if s.show_help {
                    s.help_scroll
                } else {
                    0
                },
                ..s
            }) && e == Effect::Nothing,
            Action::CycleForward => cycle_step(s, true, t, e),
            Action::CycleBackward => cycle_step(s, false, t, e),
            Action::JumpToSidebar => t == (ViewState { active_panel: Panel::Sidebar, ..s }) && e
                == Effect::Nothing,
            Action::JumpToQueue => t == (ViewState { active_panel: Panel::Queue, ..s }) && e
                == Effect::Nothing,
            Action::JumpToTracks => t == (ViewState { active_panel: Panel::TrackList, ..s }) && e
                == Effect::Nothing,
            Action::ToggleArtWindow => t == (ViewState {
                art_window_visible: !s.art_window_visible,
                ..s
            }) && e == Effect::Nothing,
            Action::ToggleLyrics => toggle_lyrics_step(s, t, e),
            Action::PlayPause => t == s && e == play_pause_effect(s, c),
            Action::MoveUp | Action::MoveDown | Action::PageUp | Action::PageDown
            | Action::GoToTop | Action::GoToBottom | Action::MoveLeft | Action::MoveRight => move_step(
                s,
                c,
                action_code(a),
                t,
                e,
            ),
            Action::ExtendSelectionUp => extend_step(s, c, true, t) && e == Effect::Nothing,
            Action::ExtendSelectionDown => extend_step(s, c, false, t) && e == Effect::Nothing,
            Action::Enter => enter_step(s, c, t, e),
            Action::CycleSort => t == (ViewState { sort_field: s.sort_field.successor(), ..s })
                && e == Effect::Resort,
            Action::ToggleSortOrder => t == (ViewState {
                sort_order: if s.sort_order == SortOrder::Asc {
                    SortOrder::Desc
                } else {
                    SortOrder::Asc
                },
                ..s
            }) && e == Effect::Resort,
            Action::EnterSearch => enter_search_step(s, c, t, e),
            Action::AddToQueue => add_to_queue_step(s, c, t) && e == Effect::AddToQueue,
            Action::AddAllToQueue => t == (ViewState {
                queue_index: if c.track_count > 0 {
                    c.queue_len
                } else {
                    s.queue_index
                },
                ..s
            }) && e == Effect::AddAllToQueue,
            Action::RemoveFromQueue => remove_from_queue_step(s, c, t) && e
                == Effect::RemoveFromQueue(s.queue_index),
            Action::ClearQueue => t == (ViewState { queue_index: 0, ..s }) && e
                == Effect::ClearQueue,
            Action::NewPlaylist => e == Effect::Nothing && {
                let item = c.sidebar_items@[s.sidebar_index as int];
                if item is Playlists || item is Playlist {
                    blank_new_playlist(t.overlay) && only_overlay(s, t)
                } else {
                    t == s
                }
            },
            Action::RemoveFromPlaylist => t == s && e == (if c.in_playlist {
                Effect::RemoveFromPlaylist(s.track_list_index)
            } else {
                Effect::Nothing
            }),
            Action::MoveTrackUp => t == s && e == (if c.in_playlist {
                Effect::MoveTrackUp(s.track_list_index)
            } else {
                Effect::Nothing
            }),
            Action::MoveTrackDown => t == s && e == (if c.in_playlist {
                Effect::MoveTrackDown(s.track_list_index)
            } else {
                Effect::Nothing
            }),
            Action::SearchExit => t == (ViewState { search_mode: false, ..s }) && e == (if s.search_query@.len()
                == 0 {
                Effect::EndSearch { resort: !c.in_playlist }
            } else {
                Effect::Nothing
            }),
            Action::SearchConfirm => t == (ViewState {
                search_mode: false,
                active_panel: Panel::TrackList,
                track_list_index: 0,
                ..s
            }) && e == Effect::Nothing,
            Action::SearchBackspace => query_changed(s, t, without_last(s.search_query@)) && e
                == Effect::Research,
            Action::SearchChar(ch) => query_changed(s, t, s.search_query@.push(ch)) && e
                == Effect::Research,
            Action::HelpScroll(d) => t == (ViewState {
                help_scroll: saturated(s.help_scroll, d as int),
                ..s
            }) && e == Effect::Nothing,
            Action::HelpClose => t == (ViewState { show_help: false, help_scroll: 0, ..s }) && e
                == Effect::Nothing,
            Action::ToggleInfo => if s.show_info {
                info_closed(s, t) && e == Effect::ClearInfo
            } else {
                t == (ViewState { show_info: true, ..s }) && e == Effect::Nothing
            },
            Action::InfoClose => info_closed(s, t) && e == Effect::ClearInfo,
            Action::GlobalSearch => t == (ViewState {
                overlay: Overlay::GlobalSearch,
                global_search_query: t.global_search_query,
                global_search_selected: 0,
                ..s
            }) && t.global_search_query@.len() == 0 && e == Effect::ClearGlobalResults,
            Action::OverlayCancel => t == (ViewState { overlay: Overlay::Hidden, ..s }) && e
                == Effect::Nothing,
            Action::OverlayChar(ch) => typed_into(s.overlay, ch, t.overlay) && only_overlay(s, t)
                && e == Effect::Nothing,
            Action::OverlayBackspace => backspaced(s.overlay, t.overlay) && only_overlay(s, t) && e
                == Effect::Nothing,
            Action::OverlayNavigate(d) => match s.overlay {
                Overlay::SetupDatabase { .. } => switched(s.overlay, t.overlay) && only_overlay(s, t)
                    && e == Effect::Nothing,
                Overlay::AddToPlaylist { .. } => t == s && e == Effect::ChoosePlaylist(d),
                _ => t == s && e == Effect::Nothing,
            },
            _ => t == s && e == Effect::Nothing,
        },
    }
}

impl ViewState {
    fn cycle(&mut self, forward: bool) -> (e: Effect)
        ensures
            cycle_step(*old(self), forward, *final(self), e),
    {
        let p = self.active_panel;
        let shown = self.lyrics.visible;
        let q = match p {
            Panel::Sidebar => if forward {
                Panel::TrackList
            } else if shown {
                Panel::Lyrics
            } else {
                Panel::Queue
            },
            Panel::TrackList => if forward {
                Panel::Queue
            } else {
                Panel::Sidebar
            },
            Panel::Queue => if !forward {
                Panel::TrackList
            } else if shown {
                Panel::Lyrics
            } else {
                Panel::Sidebar
            },
            Panel::Lyrics => if forward {
                Panel::Sidebar
            } else {
                Panel::Queue
            },
        };
        if p == Panel::Lyrics {
            self.lyrics.manual_scroll = false;
        }
        self.active_panel = q;
        if q == Panel::Lyrics {
            Effect::LoadLyrics
        } else {
            Effect::Nothing
        }
    }

    fn toggle_lyrics(&mut self) -> (e: Effect)
        ensures
            toggle_lyrics_step(*old(self), *final(self), e),
    {
        if self.lyrics.visible {
            self.lyrics.visible = false;
            self.lyrics.manual_scroll = false;
            if self.active_panel == Panel::Lyrics {
                self.active_panel = Panel::Queue;
            }
            Effect::Nothing
        } else {
            self.lyrics.visible = true;
            self.active_panel = Panel::Lyrics;
            Effect::LoadLyrics
        }
    }

    fn enter(&mut self, c: &ViewContext) -> (e: Effect)
        ensures
            enter_step(*old(self), *c, *final(self), e),
    {
        match self.active_panel {
            Panel::Sidebar => {
                self.active_panel = Panel::TrackList;
                Effect::Nothing
            },
            Panel::TrackList => Effect::PlaySelected,
            Panel::Queue => Effect::PlayQueueSelected,
            Panel::Lyrics => {
                let fetching = match self.lyrics.fetch_status {
                    crate::types::LyricsFetchStatus::Fetching => true,
                    _ => false,
                };
                if self.lyrics.content.is_none() && c.has_current_track && !fetching {
                    Effect::FetchLyrics
                } else {
                    Effect::Nothing
                }
            },
        }
    }

    fn extend_selection(&mut self, c: &ViewContext, up: bool)
        ensures
            extend_step(*old(self), *c, up, *final(self)),
    {
        if c.track_count == 0 {
            return;
        }
        let i = self.track_list_index;
        let anchor = match self.selection_anchor {
            Some(a) => a,
            None => i,
        };
        let j = if up {
            if i > 0 {
                i - 1
            } else {
                i
            }
        } else if i < c.track_count - 1 {
            i + 1
        } else {
            i
        };
        self.selection_anchor = Some(anchor);
        self.track_list_index = j;
    }

    fn enter_search(&mut self, c: &ViewContext) -> (e: Effect)
        requires
            old(self).fits(*c),
        ensures
            enter_search_step(*old(self), *c, *final(self), e),
    {
        if self.active_panel == Panel::Sidebar {
            let sec = match &c.sidebar_items[self.sidebar_index] {
                SidebarItem::Artists | SidebarItem::Artist(_) => Some(SidebarSection::Artists),
                SidebarItem::Albums | SidebarItem::Album(_) => Some(SidebarSection::Albums),
                SidebarItem::Genres | SidebarItem::Genre(_) => Some(SidebarSection::Genres),
                SidebarItem::Playlist(_) => Some(SidebarSection::Playlists),
                _ => None,
            };
            match sec {
                Some(x) => {
                    let open = match x {
                        SidebarSection::Artists => self.sidebar_expanded.artists,
                        SidebarSection::Albums => self.sidebar_expanded.albums,
                        SidebarSection::Genres => self.sidebar_expanded.genres,
                        SidebarSection::Playlists => self.sidebar_expanded.playlists,
                    };
                    if open {
                        self.sidebar_search_mode = true;
                        self.sidebar_search_section = Some(x);
                    }
                },
                None => {},
            }
            Effect::Nothing
        } else {
            self.search_mode = true;
            self.active_panel = Panel::TrackList;
            Effect::StartSearch
        }
    }

    fn add_to_queue(&mut self, c: &ViewContext)
        requires
            c.queue_len + c.track_count <= usize::MAX,
        ensures
            add_to_queue_step(*old(self), *c, *final(self)),
    {
        match self.selection_anchor {
            None => {
                if self.track_list_index < c.track_count {
                    self.queue_index = c.queue_len;
                }
            },
            Some(a) => {
                let i = self.track_list_index;
                let lo = if a <= i {
                    a
                } else {
                    i
                };
                let hi = if a <= i {
                    i
                } else {
                    a
                };
                let n = c.track_count;
                let rows = if n <= lo {
                    0
                } else if hi < n {
                    hi - lo + 1
                } else {
                    n - lo
                };
                let len = c.queue_len + rows;
                let diff = hi - lo;
                self.queue_index = if len > diff {
                    len - diff - 1
                } else {
                    0
                };
                self.selection_anchor = None;
            },
        }
    }

    fn remove_queue_entry(&mut self, c: &ViewContext)
        ensures
            remove_from_queue_step(*old(self), *c, *final(self)),
    {
        let len = if self.queue_index < c.queue_len {
            c.queue_len - 1
        } else {
            c.queue_len
        };
        if self.queue_index >= len && self.queue_index > 0 {
            self.queue_index = self.queue_index - 1;
        }
    }

    fn new_playlist(&mut self, c: &ViewContext)
        requires
            old(self).fits(*c),
        ensures
            ({
                let item = c.sidebar_items@[old(self).sidebar_index as int];
                if item is Playlists || item is Playlist {
                    blank_new_playlist(final(self).overlay) && only_overlay(*old(self), *final(self))
                } else {
                    *final(self) == *old(self)
                }
            }),
    {
        match &c.sidebar_items[self.sidebar_index] {
            SidebarItem::Playlists | SidebarItem::Playlist(_) => {
                self.overlay = new_playlist_overlay();
            },
            _ => {},
        }
    }

    fn close_info(&mut self)
        ensures
            info_closed(*old(self), *final(self)),
    {
        self.show_info = false;
        self.info_editing = false;
        self.info_detailed = false;
        self.info_scroll = 0;
    }

    fn search_pop(&mut self)
        ensures
            query_changed(*old(self), *final(self), without_last(old(self).search_query@)),
    {
        pop_char(&mut self.search_query);
    }

    fn search_push(&mut self, c: char)
        ensures
            query_changed(*old(self), *final(self), old(self).search_query@.push(c)),
    {
        push_char(&mut self.search_query, c);
    }

    fn open_global_search(&mut self)
        ensures
            *final(self) == (ViewState {
                overlay: Overlay::GlobalSearch,
                global_search_query: final(self).global_search_query,
                global_search_selected: 0,
                ..*old(self)
            }),
            final(self).global_search_query@.len() == 0,
    {
        self.overlay = Overlay::GlobalSearch;
        self.global_search_query = String::new();
        self.global_search_selected = 0;
    }

    fn overlay_navigate(&mut self, d: i32) -> (e: Effect)
        ensures
            match old(self).overlay {
                Overlay::SetupDatabase { .. } => switched(old(self).overlay, final(self).overlay)
                    && only_overlay(*old(self), *final(self)) && e == Effect::Nothing,
                Overlay::AddToPlaylist { .. } => *final(self) == *old(self) && e
                    == Effect::ChoosePlaylist(d),
                _ => *final(self) == *old(self) && e == Effect::Nothing,
            },
    {
        match &self.overlay {
            Overlay::SetupDatabase { .. } => {
                self.overlay.switch_field();
                Effect::Nothing
            },
            Overlay::AddToPlaylist { .. } => Effect::ChoosePlaylist(d),
            _ => Effect::Nothing,
        }
    }
}

impl ViewState {
    /// Carries out an action: updates the view and returns the outside work
    /// it asks for.
    pub fn execute(&mut self, c: &ViewContext, a: Action) -> (e: Effect)
        requires
            old(self).fits(*c),
            c.queue_len + c.track_count <= usize::MAX,
        ensures
            action_step(*old(self), *c, a, *final(self), e),
    {
        match plain_effect_exec(a) {
            Some(x) => {
                return x;
            },
            None => {},
        }
        match a {
            Action::ToggleHelp => {
                let shown = self.show_help;
                self.show_help = !shown;
                if !shown {
                    self.help_scroll = 0;
                }
                Effect::Nothing
            },
            Action::CycleForward => self.cycle(true),
            Action::CycleBackward => self.cycle(false),
            Action::JumpToSidebar => {
                self.active_panel = Panel::Sidebar;
                Effect::Nothing
            },
            Action::JumpToQueue => {
                self.active_panel = Panel::Queue;
                Effect::Nothing
            },
            Action::JumpToTracks => {
                self.active_panel = Panel::TrackList;
                Effect::Nothing
            },
            Action::ToggleArtWindow => {
                self.art_window_visible = !self.art_window_visible;
                Effect::Nothing
            },
            Action::ToggleLyrics => self.toggle_lyrics(),
            Action::PlayPause => if c.player_stopped {
                if self.active_panel == Panel::Queue {
                    Effect::PlayQueueSelected
                } else {
                    Effect::PlaySelected
                }
            } else {
                Effect::TogglePause
            },
            Action::MoveUp | Action::MoveDown | Action::PageUp | Action::PageDown
            | Action::GoToTop | Action::GoToBottom | Action::MoveLeft | Action::MoveRight => {
                let k = key_to_code(a);
                self.move_key(c, k)
            },
            Action::ExtendSelectionUp => {
                self.extend_selection(c, true);
                Effect::Nothing
            },
            Action::ExtendSelectionDown => {
                self.extend_selection(c, false);
                Effect::Nothing
            },
            Action::Enter => self.enter(c),
            _ => self.execute_more(c, a),
        }
    }

    fn execute_more(&mut self, c: &ViewContext, a: Action) -> (e: Effect)
        requires
            old(self).fits(*c),
            c.queue_len + c.track_count <= usize::MAX,
            plain_effect(a) is None,
            !(a is ToggleHelp || a is CycleForward || a is CycleBackward || a is JumpToSidebar
                || a is JumpToQueue || a is JumpToTracks || a is ToggleArtWindow || a is ToggleLyrics
                || a is PlayPause || a is MoveUp || a is MoveDown || a is PageUp || a is PageDown
                || a is GoToTop || a is GoToBottom || a is MoveLeft || a is MoveRight
                || a is ExtendSelectionUp || a is ExtendSelectionDown || a is Enter),
        ensures
            action_step(*old(self), *c, a, *final(self), e),
    {
        match a {
            Action::CycleSort => {
                self.sort_field = self.sort_field.next();
                Effect::Resort
            },
            Action::ToggleSortOrder => {
                self.sort_order = match self.sort_order {
                    SortOrder::Asc => SortOrder::Desc,
                    SortOrder::Desc => SortOrder::Asc,
                };
                Effect::Resort
            },
            Action::EnterSearch => self.enter_search(c),
            Action::AddToQueue => {
                self.add_to_queue(c);
                Effect::AddToQueue
            },
            Action::AddAllToQueue => {
                if c.track_count > 0 {
                    self.queue_index = c.queue_len;
                }
                Effect::AddAllToQueue
            },
            Action::RemoveFromQueue => {
                let i = self.queue_index;
                self.remove_queue_entry(c);
                Effect::RemoveFromQueue(i)
            },
            Action::ClearQueue => {
                self.queue_index = 0;
                Effect::ClearQueue
            },
            Action::NewPlaylist => {
                self.new_playlist(c);
                Effect::Nothing
            },
            Action::RemoveFromPlaylist => if c.in_playlist {
                Effect::RemoveFromPlaylist(self.track_list_index)
            } else {
                Effect::Nothing
            },
            Action::MoveTrackUp => if c.in_playlist {
                Effect::MoveTrackUp(self.track_list_index)
            } else {
                Effect::Nothing
            },
            Action::MoveTrackDown => if c.in_playlist {
                Effect::MoveTrackDown(self.track_list_index)
            } else {
                Effect::Nothing
            },
            _ => self.execute_popup(c, a),
        }
    }

    fn execute_popup(&mut self, c: &ViewContext, a: Action) -> (e: Effect)
        requires
            plain_effect(a) is None,
            a is SearchExit || a is SearchConfirm || a is SearchBackspace || a is SearchChar
                || a is HelpScroll || a is HelpClose || a is ToggleInfo || a is InfoClose
                || a is GlobalSearch || a is OverlayCancel || a is OverlayChar
                || a is OverlayBackspace || a is OverlayNavigate,
        ensures
            action_step(*old(self), *c, a, *final(self), e),
    {
        match a {
            Action::SearchExit => {
                self.search_mode = false;
                if self.search_query.as_str().is_empty() {
                    Effect::EndSearch { resort: !c.in_playlist }
                } else {
                    Effect::Nothing
                }
            },
            Action::SearchConfirm => {
                self.search_mode = false;
                self.active_panel = Panel::TrackList;
                self.track_list_index = 0;
                Effect::Nothing
            },
            Action::SearchBackspace => {
                self.search_pop();
                Effect::Research
            },
            Action::SearchChar(ch) => {
                self.search_push(ch);
                Effect::Research
            },
            Action::HelpScroll(d) => {
                self.help_scroll = scroll_saturating(self.help_scroll, d);
                Effect::Nothing
            },
            Action::HelpClose => {
                self.show_help = false;
                self.help_scroll = 0;
                Effect::Nothing
            },
            Action::ToggleInfo => if self.show_info {
                self.close_info();
                Effect::ClearInfo
            } else {
                self.show_info = true;
                Effect::Nothing
            },
            Action::InfoClose => {
                self.close_info();
                Effect::ClearInfo
            },
            Action::GlobalSearch => {
                self.open_global_search();
                Effect::ClearGlobalResults
            },
            Action::OverlayCancel => {
                self.overlay = Overlay::Hidden;
                Effect::Nothing
            },
            Action::OverlayChar(ch) => {
                self.overlay.type_char(ch);
                Effect::Nothing
            },
            Action::OverlayBackspace => {
                self.overlay.backspace();
                Effect::Nothing
            },
            Action::OverlayNavigate(d) => self.overlay_navigate(d),
            _ => Effect::Nothing,
        }
    }
}

// ---------------------------------------------------------------------------
// Key presses
// ---------------------------------------------------------------------------

/// A sidebar search filter is active (a query or a searched section).
pub open spec fn sidebar_filtered(s: ViewState) -> bool {
    s.sidebar_search_query@.len() > 0 || s.sidebar_search_section is Some
}

/// What a key press does: the global search overlay and a sidebar search
/// being typed take every key; the open info popup takes its own keys;
/// escape in the sidebar ends a sidebar search filter; any other key does
/// what its binding says, if it has one.
pub open spec fn key_step(
    s: ViewState,
    c: ViewContext,
    b: Keybindings,
    key: KeyCode,
    mods: KeyModifiers,
    t: ViewState,
    e: Effect,
) -> bool {
    if s.overlay is GlobalSearch {
        global_search_step(s, c, key, t, e)
    } else if s.sidebar_search_mode {
        sidebar_search_step(s, key, t, e)
    } else if s.show_info && info_takes(s, key) {
        info_key_step(s, key, t, e)
    } else if key is Esc && s.active_panel == Panel::Sidebar && sidebar_filtered(s) {
        sidebar_search_step(s, key, t, e)
    } else {
        match key_action(
            b.entries(),
            key,
            mods.bits,
            s.active_panel,
            s.search_mode,
            s.show_help,
            !(s.overlay is Hidden),
        ) {
            Some(a) => action_step(s, c, a, t, e),
            None => t == s && e == Effect::Nothing,
        }
    }
}

impl ViewState {
    /// The view of a freshly started player: focus on the sidebar, sorted
    /// by artist, no popup, search or selection; `overlay` is open.
    pub fn new(overlay: Overlay) -> (r: ViewState)
        ensures
            r.active_panel == Panel::Sidebar,
            !r.show_help && r.help_scroll == 0,
            !r.show_info && !r.info_detailed && !r.info_editing,
            r.info_edit_field == EditField::Title,
            r.info_scroll == 0 && r.info_max_scroll == 0,
            !r.search_mode && r.search_query@.len() == 0,
            !r.sidebar_search_mode && r.sidebar_search_query@.len() == 0,
            r.sidebar_search_section is None,
            r.sidebar_expanded == (SidebarExpanded {
                artists: false,
                albums: false,
                genres: false,
                playlists: false,
            }),
            r.sidebar_index == 0 && r.track_list_index == 0 && r.queue_index == 0,
            r.selection_anchor is None,
            r.overlay == overlay,
            r.global_search_query@.len() == 0 && r.global_search_selected == 0,
            !r.lyrics.visible && r.lyrics.content is None && r.lyrics.scroll == 0,
            !r.lyrics.manual_scroll && r.lyrics.track_path is None,
            r.lyrics.fetch_status is Idle,
            !r.art_window_visible,
            r.sort_field == SortField::Artist && r.sort_order == SortOrder::Asc,
    {
        ViewState {
            active_panel: Panel::Sidebar,
            show_help: false,
            help_scroll: 0,
            show_info: false,
            info_detailed: false,
            info_editing: false,
            info_edit_field: EditField::Title,
            info_scroll: 0,
            info_max_scroll: 0,
            search_mode: false,
            search_query: String::new(),
            sidebar_search_mode: false,
            sidebar_search_query: String::new(),
            sidebar_search_section: None,
            sidebar_expanded: SidebarExpanded::new(),
            sidebar_index: 0,
            track_list_index: 0,
            selection_anchor: None,
            queue_index: 0,
            overlay,
            global_search_query: String::new(),
            global_search_selected: 0,
            lyrics: LyricsState::new(),
            art_window_visible: false,
            sort_field: SortField::Artist,
            sort_order: SortOrder::Asc,
        }
    }

    fn info_key(&mut self, key: KeyCode) -> (e: Effect)
        requires
            info_takes(*old(self), key),
        ensures
            info_key_step(*old(self), key, *final(self), e),
    {
        if key == KeyCode::Char('d') {
            self.toggle_detail();
            Effect::Nothing
        } else if self.info_editing {
            self.info_edit_key(key)
        } else if key == KeyCode::Char('e') {
            Effect::EnterInfoEdit
        } else {
            match self.info_scroll_exec(key) {
                Some(n) => {
                    self.info_scroll = n;
                },
                None => {},
            }
            Effect::Nothing
        }
    }

    fn info_takes_exec(&self, key: KeyCode) -> (b: bool)
        ensures
            b == info_takes(*self, key),
    {
        key == KeyCode::Char('d') || self.info_editing || key == KeyCode::Char('e')
            || self.info_scroll_exec(key).is_some()
    }

    /// Handles a key press: updates the view and returns the outside work
    /// the key asks for.
    pub fn handle_key(
        &mut self,
        c: &ViewContext,
        bindings: &Keybindings,
        key: KeyCode,
        mods: KeyModifiers,
    ) -> (e: Effect)
        requires
            old(self).fits(*c),
            c.queue_len + c.track_count <= usize::MAX,
        ensures
            key_step(*old(self), *c, *bindings, key, mods, *final(self), e),
    {
        if matches!(self.overlay, Overlay::GlobalSearch) {
            return self.global_search_key(c, key);
        }
        if self.sidebar_search_mode {
            return self.sidebar_search_key(key);
        }
        if self.show_info && self.info_takes_exec(key) {
            return self.info_key(key);
        }
        if key == KeyCode::Esc && self.active_panel == Panel::Sidebar && (
        !self.sidebar_search_query.as_str().is_empty() || self.sidebar_search_section.is_some()) {
            return self.sidebar_search_key(key);
        }
        let in_overlay = !matches!(self.overlay, Overlay::Hidden);
        match bindings.lookup(
            key,
            mods,
            self.active_panel,
            self.search_mode,
            self.show_help,
            in_overlay,
        ) {
            Some(a) => self.execute(c, a),
            None => Effect::Nothing,
        }
    }
}

// ---------------------------------------------------------------------------
// Laws
// ---------------------------------------------------------------------------

/// Typing a character into the track search and deleting it again leaves
/// the view as it was.
pub proof fn lemma_search_type_then_delete(
    s: ViewState,
    c: ViewContext,
    ch: char,
    t1: ViewState,
    e1: Effect,
    t2: ViewState,
    e2: Effect,
)
    requires
        action_step(s, c, Action::SearchChar(ch), t1, e1),
        action_step(t1, c, Action::SearchBackspace, t2, e2),
    ensures
        t2.search_query@ == s.search_query@,
        t2 == (ViewState { search_query: t2.search_query, ..s }),
        e1 == Effect::Research && e2 == Effect::Research,
{
    crate::overlay::lemma_type_then_backspace(s.search_query@, ch);
}

/// Cycling the focus forward and then backward gives it back to the panel
/// that had it (unless that was a lyrics panel that is not shown), and
/// leaves the lyrics panel shown or hidden.
pub proof fn lemma_cycle_round_trip(
    s: ViewState,
    c: ViewContext,
    t1: ViewState,
    e1: Effect,
    t2: ViewState,
    e2: Effect,
)
    requires
        s.active_panel != Panel::Lyrics || s.lyrics.visible,
        action_step(s, c, Action::CycleForward, t1, e1),
        action_step(t1, c, Action::CycleBackward, t2, e2),
    ensures
        t2.active_panel == s.active_panel,
        t2.lyrics.visible == s.lyrics.visible,
{
    lemma_cycle_inverse(s.active_panel, s.lyrics.visible);
}

/// Only the quit action quits, and it leaves the view as it is.
pub proof fn lemma_only_quit_quits(s: ViewState, c: ViewContext, a: Action, t: ViewState, e: Effect)
    requires
        action_step(s, c, a, t, e),
        e == Effect::Quit,
    ensures
        a == Action::Quit,
        t == s,
{
}

/// Opening and closing the help screen with the same key brings the view
/// back, scrolled to the top.
pub proof fn lemma_help_twice(
    s: ViewState,
    c: ViewContext,
    t1: ViewState,
    e1: Effect,
    t2: ViewState,
    e2: Effect,
)
    requires
        !s.show_help,
        action_step(s, c, Action::ToggleHelp, t1, e1),
        action_step(t1, c, Action::ToggleHelp, t2, e2),
    ensures
        t1.show_help,
        t2 == (ViewState { help_scroll: 0, ..s }),
{
}

/// Typing a character into the new-playlist overlay and deleting it again
/// gives back the name typed so far.
pub proof fn lemma_overlay_type_then_delete(
    s: ViewState,
    c: ViewContext,
    ch: char,
    t1: ViewState,
    e1: Effect,
    t2: ViewState,
    e2: Effect,
)
    requires
        s.overlay is NewPlaylist,
        action_step(s, c, Action::OverlayChar(ch), t1, e1),
        action_step(t1, c, Action::OverlayBackspace, t2, e2),
    ensures
        t2.overlay matches Overlay::NewPlaylist { name, .. } && s.overlay matches Overlay::NewPlaylist {
            name: n0,
            ..
        } && name@ == n0@,
        t2 == (ViewState { overlay: t2.overlay, ..s }),
{
    match s.overlay {
        Overlay::NewPlaylist { name, .. } => {
            crate::overlay::lemma_type_then_backspace(name@, ch);
        },
        _ => {},
    }
}

// ---------------------------------------------------------------------------
// The selection and the tracks a command applies to
// ---------------------------------------------------------------------------

/// The selected rows in ascending order: from the anchor to the cursor, or
/// none without an anchor.
pub open spec fn selected_rows_of(s: ViewState) -> Seq<usize> {
    match s.selection_anchor {
        None => Seq::empty(),
        Some(a) => {
            let i = s.track_list_index;
            let lo = if a <= i {
                a
            } else {
                i
            };
            let hi = if a <= i {
                i
            } else {
                a
            };
            Seq::new((hi - lo + 1) as nat, |j: int| (lo + j) as usize)
        },
    }
}

/// The rows a command applies to: the selected rows, else the row under
/// the cursor; with `clamp`, a cursor past the end of a list of `len`
/// rows counts as being on its last row (and an empty list has none).
pub open spec fn chosen_rows(s: ViewState, len: usize, clamp: bool) -> Seq<usize> {
    if s.selection_anchor is Some {
        selected_rows_of(s)
    } else if !clamp {
        seq![s.track_list_index]
    } else if len == 0 {
        Seq::empty()
    } else if s.track_list_index < len {
        seq![s.track_list_index]
    } else {
        seq![(len - 1) as usize]
    }
}

/// The paths of the tracks at `rows`, skipping rows past the end.
pub open spec fn paths_at(rows: Seq<usize>, tracks: Seq<Track>) -> Seq<Seq<char>> {
    rows.filter(|r: usize| r < tracks.len()).map_values(|r: usize| tracks[r as int].path@)
}

impl ViewState {
    /// The selected rows, in ascending order.
    pub fn selected_rows(&self) -> (r: Vec<usize>)
        ensures
            r@ == selected_rows_of(*self),
    {
        let mut r: Vec<usize> = Vec::new();
        match self.selection_anchor {
            None => {},
            Some(a) => {
                let i = self.track_list_index;
                let lo = if a <= i {
                    a
                } else {
                    i
                };
                let hi = if a <= i {
                    i
                } else {
                    a
                };
                let mut k = lo;
                loop
                    invariant_except_break
                        lo <= k <= hi,
                        r@ =~= Seq::new((k - lo) as nat, |j: int| (lo + j) as usize),
                    ensures
                        r@ =~= Seq::new((hi - lo + 1) as nat, |j: int| (lo + j) as usize),
                    decreases hi - k,
                {
                    r.push(k);
                    if k == hi {
                        assert(r@ =~= Seq::new((hi - lo + 1) as nat, |j: int| (lo + j) as usize));
                        break;
                    }
                    k = k + 1;
                }
                assert(r@ =~= Seq::new((hi - lo + 1) as nat, |j: int| (lo + j) as usize));
            },
        }
        r
    }

    /// The paths of the tracks a command applies to, in row order (see
    /// `chosen_rows`).
    pub fn chosen_paths(&self, tracks: &Vec<Arc<Track>>, clamp: bool) -> (r: Vec<String>)
        ensures
            r@.map_values(|p: String| p@) == paths_at(
                chosen_rows(*self, tracks@.len() as usize, clamp),
                crate::background::shared_view(tracks@),
            ),
    {
        let n = tracks.len();
        let rows: Vec<usize> = if self.selection_anchor.is_some() {
            self.selected_rows()
        } else if !clamp {
            vec![self.track_list_index]
        } else if n == 0 {
            Vec::new()
        } else if self.track_list_index < n {
            vec![self.track_list_index]
        } else {
            vec![n - 1]
        };
        assert(rows@ == chosen_rows(*self, tracks@.len() as usize, clamp));
        let ghost ts = crate::background::shared_view(tracks@);
        let ghost keep = |r: usize| r < ts.len();
        let ghost name = |r: usize| ts[r as int].path@;
        let mut out: Vec<String> = Vec::new();
        let mut k: usize = 0;
        proof {
            reveal(Seq::filter);
            assert(rows@.take(0).filter(keep) =~= Seq::<usize>::empty());
        }
        while k < rows.len()
            invariant
                k <= rows@.len(),
                n == tracks@.len() == ts.len(),
                ts == crate::background::shared_view(tracks@),
                keep == (|r: usize| r < ts.len()),
                name == (|r: usize| ts[r as int].path@),
                out@.map_values(|p: String| p@) == rows@.take(k as int).filter(keep).map_values(name),
            decreases rows@.len() - k,
        {
            let r = rows[k];
            let ghost before = rows@.take(k as int);
            assert(rows@.take(k + 1) =~= before.push(r));
            proof {
                before.lemma_filter_push(r, keep);
            }
            let ghost prev = out@;
            if r < n {
                let p = tracks[r].path.clone();
                out.push(p);
                assert(out@.map_values(|p: String| p@) =~= prev.map_values(|p: String| p@).push(
                    ts[r as int].path@,
                ));
                assert(before.filter(keep).push(r).map_values(name) =~= before.filter(keep).map_values(
                    name,
                ).push(name(r)));
            }
            k = k + 1;
        }
        assert(rows@.take(rows@.len() as int) =~= rows@);
        out
    }

    /// A sidebar entry's tracks are shown: the search query and the
    /// selection go, the cursor goes to the top and the entry's sort
    /// applies.  Headers show nothing and change nothing.
    pub fn show_entry(&mut self, item: &SidebarItem)
        ensures
            if item.header() {
                *final(self) == *old(self)
            } else {
                &&& *final(self) == (ViewState {
                    search_query: final(self).search_query,
                    selection_anchor: None,
                    track_list_index: 0,
                    sort_field: if *item is RecentlyAdded {
                        SortField::DateAdded
                    } else {
                        SortField::Artist
                    },
                    sort_order: if *item is RecentlyAdded {
                        SortOrder::Desc
                    } else {
                        SortOrder::Asc
                    },
                    ..*old(self)
                })
                &&& final(self).search_query@.len() == 0
            },
    {
        if item.is_header() {
            return;
        }
        let (f, o) = crate::library::selection_sort(item);
        self.search_query = String::new();
        self.selection_anchor = None;
        self.track_list_index = 0;
        self.sort_field = f;
        self.sort_order = o;
    }

    /// Keeps the track cursor on a list of `len` rows after rows were
    /// removed: a cursor past the end moves to the last row.
    pub fn clamp_track_cursor(&mut self, len: usize)
        ensures
            *final(self) == (ViewState {
                track_list_index: if old(self).track_list_index >= len && old(self).track_list_index > 0 {
                    if len > 0 {
                        (len - 1) as usize
                    } else {
                        0
                    }
                } else {
                    old(self).track_list_index
                },
                ..*old(self)
            }),
    {
        if self.track_list_index >= len && self.track_list_index > 0 {
            self.track_list_index = if len > 0 {
                len - 1
            } else {
                0
            };
        }
    }
}

// ---------------------------------------------------------------------------
// Going to a sidebar entry
// ---------------------------------------------------------------------------

/// Two sidebar entries are the same entry: same kind, same name.
pub open spec fn same_entry(a: SidebarItem, b: SidebarItem) -> bool {
    match (a, b) {
        (SidebarItem::Artist(x), SidebarItem::Artist(y)) => x@ == y@,
        (SidebarItem::Album(x), SidebarItem::Album(y)) => x@ == y@,
        (SidebarItem::Genre(x), SidebarItem::Genre(y)) => x@ == y@,
        (SidebarItem::Playlist(x), SidebarItem::Playlist(y)) => x@ == y@,
        (SidebarItem::Artist(_), _) | (SidebarItem::Album(_), _) | (SidebarItem::Genre(_), _)
        | (SidebarItem::Playlist(_), _) => false,
        (_, SidebarItem::Artist(_)) | (_, SidebarItem::Album(_)) | (_, SidebarItem::Genre(_))
        | (_, SidebarItem::Playlist(_)) => false,
        _ => a == b,
    }
}

fn same_entry_exec(a: &SidebarItem, b: &SidebarItem) -> (r: bool)
    ensures
        r == same_entry(*a, *b),
{
    match (a, b) {
        (SidebarItem::Artist(x), SidebarItem::Artist(y)) => crate::text::str_eq(x.as_str(), y.as_str()),
        (SidebarItem::Album(x), SidebarItem::Album(y)) => crate::text::str_eq(x.as_str(), y.as_str()),
        (SidebarItem::Genre(x), SidebarItem::Genre(y)) => crate::text::str_eq(x.as_str(), y.as_str()),
        (SidebarItem::Playlist(x), SidebarItem::Playlist(y)) => crate::text::str_eq(
            x.as_str(),
            y.as_str(),
        ),
        (SidebarItem::AllTracks, SidebarItem::AllTracks) => true,
        (SidebarItem::RecentlyAdded, SidebarItem::RecentlyAdded) => true,
        (SidebarItem::RecentlyPlayed, SidebarItem::RecentlyPlayed) => true,
        (SidebarItem::MostPlayed, SidebarItem::MostPlayed) => true,
        (SidebarItem::Favorites, SidebarItem::Favorites) => true,
        (SidebarItem::Artists, SidebarItem::Artists) => true,
        (SidebarItem::Albums, SidebarItem::Albums) => true,
        (SidebarItem::Genres, SidebarItem::Genres) => true,
        (SidebarItem::Playlists, SidebarItem::Playlists) => true,
        _ => false,
    }
}

/// The first row of `items` that is the entry `item`, if any.
pub open spec fn entry_row(items: Seq<SidebarItem>, item: SidebarItem) -> Option<int> {
    if exists|i: int| 0 <= i < items.len() && same_entry(items[i], item) {
        Some(
            choose|i: int|
                0 <= i < items.len() && same_entry(items[i], item) && forall|j: int|
                    0 <= j < i ==> !same_entry(items[j], item),
        )
    } else {
        None
    }
}

/// The sidebar entry a global search result leads to: a track's album (all
/// tracks for a track without one), or the album, artist, playlist or
/// genre found.
pub open spec fn result_entry(r: GlobalSearchResult) -> SidebarItem {
    match r {
        GlobalSearchResult::Track(t) => if t.album@.len() == 0 {
            SidebarItem::AllTracks
        } else {
            SidebarItem::Album(t.album)
        },
        GlobalSearchResult::Album(n) => SidebarItem::Album(n),
        GlobalSearchResult::Artist(n) => SidebarItem::Artist(n),
        GlobalSearchResult::Playlist(n) => SidebarItem::Playlist(n),
        GlobalSearchResult::Genre(n) => SidebarItem::Genre(n),
    }
}

/// The sidebar entry a global search result leads to.
pub fn entry_of_result(r: &GlobalSearchResult) -> (e: SidebarItem)
    ensures
        e == result_entry(*r),
{
    match r {
        GlobalSearchResult::Track(t) => if t.album.as_str().is_empty() {
            SidebarItem::AllTracks
        } else {
            SidebarItem::Album(t.album.clone())
        },
        GlobalSearchResult::Album(n) => SidebarItem::Album(n.clone()),
        GlobalSearchResult::Artist(n) => SidebarItem::Artist(n.clone()),
        GlobalSearchResult::Playlist(n) => SidebarItem::Playlist(n.clone()),
        GlobalSearchResult::Genre(n) => SidebarItem::Genre(n.clone()),
    }
}

impl ViewState {
    /// First half of going to a sidebar entry: the sidebar search ends and
    /// the entry's section opens.  The front end then lays out the sidebar
    /// again and calls `finish_jump`.
    pub fn start_jump(&mut self, item: &SidebarItem)
        ensures
            *final(self) == (ViewState {
                sidebar_search_mode: false,
                sidebar_search_query: final(self).sidebar_search_query,
                sidebar_search_section: None,
                sidebar_expanded: SidebarExpanded {
                    artists: old(self).sidebar_expanded.artists || *item is Artist,
                    albums: old(self).sidebar_expanded.albums || *item is Album,
                    genres: old(self).sidebar_expanded.genres || *item is Genre,
                    playlists: old(self).sidebar_expanded.playlists || *item is Playlist,
                },
                ..*old(self)
            }),
            final(self).sidebar_search_query@.len() == 0,
    {
        self.sidebar_search_mode = false;
        self.sidebar_search_query = String::new();
        self.sidebar_search_section = None;
        self.sidebar_expanded.expand_for(item);
    }

    /// Second half of going to a sidebar entry, on the new sidebar rows:
    /// the cursor goes to the entry when it is there (then the result is
    /// true and the front end shows its tracks), and the track list takes
    /// the focus at its top.
    pub fn finish_jump(&mut self, items: &Vec<SidebarItem>, item: &SidebarItem) -> (found: bool)
        ensures
            found == entry_row(items@, *item) is Some,
            *final(self) == (ViewState {
                sidebar_index: match entry_row(items@, *item) {
                    Some(i) => i as usize,
                    None => old(self).sidebar_index,
                },
                active_panel: Panel::TrackList,
                track_list_index: 0,
                ..*old(self)
            }),
    {
        let mut i: usize = 0;
        let mut found = false;
        while i < items.len()
            invariant_except_break
                i <= items@.len(),
                !found,
                forall|j: int| 0 <= j < i ==> !same_entry(items@[j], *item),
                *self == *old(self),
            ensures
                found ==> i < items@.len() && same_entry(items@[i as int], *item) && forall|j: int|
                    0 <= j < i ==> !same_entry(items@[j], *item),
                !found ==> forall|j: int| 0 <= j < items@.len() ==> !same_entry(items@[j], *item),
                *self == *old(self),
            decreases items@.len() - i,
        {
            if same_entry_exec(&items[i], item) {
                found = true;
                break;
            }
            i = i + 1;
        }
        if found {
            proof {
                let w = choose|k: int|
                    0 <= k < items@.len() && same_entry(items@[k], *item) && forall|j: int|
                        0 <= j < k ==> !same_entry(items@[j], *item);
                assert(0 <= i < items@.len() && same_entry(items@[i as int], *item) && forall|j: int|
                    0 <= j < i ==> !same_entry(items@[j], *item));
                assert(w == i) by {
                    if w < i {
                        assert(!same_entry(items@[w], *item));
                    } else if w > i {
                        assert(!same_entry(items@[i as int], *item));
                    }
                }
            }
            self.sidebar_index = i;
        }
        self.active_panel = Panel::TrackList;
        self.track_list_index = 0;
        found
    }
}

impl ViewState {
    /// Puts the track cursor on the first row of the track with path
    /// `path`, if the list has one.
    pub fn focus_track(&mut self, tracks: &Vec<Arc<Track>>, path: &str)
        ensures
            *final(self) == (ViewState {
                track_list_index: match crate::favorites::first_track_of(
                    crate::background::shared_view(tracks@),
                    path@,
                ) {
                    Some(i) => i as usize,
                    None => old(self).track_list_index,
                },
                ..*old(self)
            }),
    {
        match crate::favorites::first_track(tracks, path) {
            Some(i) => {
                self.track_list_index = i;
            },
            None => {},
        }
    }
}

impl ViewState {
    /// Opens the add-to-playlist overlay for the tracks a command applies
    /// to (see `chosen_rows`, without clamping); without playlists nothing
    /// opens and the returned status line says how to make one.
    pub fn open_add_to_playlist(&mut self, has_playlists: bool, tracks: &Vec<Arc<Track>>) -> (status: Option<String>)
        ensures
            !has_playlists ==> *final(self) == *old(self) && (status matches Some(m) && m@
                == "No playlists — press N on the Playlists header to create one"@),
            has_playlists ==> status is None && {
                let paths = paths_at(
                    chosen_rows(*old(self), tracks@.len() as usize, false),
                    crate::background::shared_view(tracks@),
                );
                if paths.len() > 0 {
                    &&& final(self).overlay matches Overlay::AddToPlaylist { track_paths }
                        && track_paths@.map_values(|p: String| p@) == paths
                    &&& only_overlay(*old(self), *final(self))
                } else {
                    *final(self) == *old(self)
                }
            },
    {
        if !has_playlists {
            return Some("No playlists — press N on the Playlists header to create one".to_string());
        }
        let paths = self.chosen_paths(tracks, false);
        if paths.len() > 0 {
            self.overlay = Overlay::AddToPlaylist { track_paths: paths };
        }
        None
    }
}

} // verus!
