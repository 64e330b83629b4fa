//! Key bindings: which action a key press means in the focused panel or the
//! open mode (search, help, an overlay), and how the bound keys are named in
//! the help screen.

use vstd::prelude::*;
use crate::keys::{KeyCode, KeyModifiers};
use crate::text::{decimal, join_texts, push_char, push_decimal, push_str};
use crate::types::Panel;

verus! {

/// What a key press asks for.
#[derive(Debug, Clone, Copy, PartialEq, Eq, Structural)]
pub enum Action {
    Quit,
    ToggleHelp,
    CycleForward,
    CycleBackward,
    JumpToSidebar,
    JumpToQueue,
    JumpToTracks,
    ToggleArtWindow,
    ToggleLyrics,
    PlayPause,
    Next,
    Previous,
    Stop,
    VolumeUp,
    VolumeDown,
    SeekForward,
    SeekBackward,
    ToggleShuffle,
    ToggleLoop,
    MoveUp,
    MoveDown,
    PageUp,
    PageDown,
    GoToTop,
    GoToBottom,
    MoveLeft,
    MoveRight,
    Enter,
    ExtendSelectionUp,
    ExtendSelectionDown,
    CycleSort,
    ToggleSortOrder,
    EnterSearch,
    AddToQueue,
    AddAllToQueue,
    RemoveFromQueue,
    ClearQueue,
    NewPlaylist,
    AddToPlaylist,
    RemoveFromPlaylist,
    MoveTrackUp,
    MoveTrackDown,
    SearchExit,
    SearchConfirm,
    SearchBackspace,
    SearchChar(char),
    HelpScroll(i32),
    HelpClose,
    LyricsReload,
    OverlayConfirm,
    OverlayCancel,
    OverlayChar(char),
    OverlayBackspace,
    OverlayNavigate(i32),
    /// Open or close the track info popup.
    ToggleInfo,
    /// Close the track info popup.
    InfoClose,
    /// Mark or unmark the selected tracks as favorites.
    ToggleFavorite,
    /// Open the global search overlay.
    GlobalSearch,
}

/// Where a binding applies.
#[derive(Debug, Clone, Copy, PartialEq, Eq, Structural)]
pub enum Context {
    Global,
    Panel(Panel),
    Search,
    Help,
    Overlay,
}

/// Keys bound to an action in a context, with the modifiers they need.
#[derive(Debug, Clone)]
pub struct Keybinding {
    pub keys: Vec<KeyCode>,
    pub action: Action,
    pub context: Context,
    pub modifiers: KeyModifiers,
}

/// A binding as plain values: keys, action, context, modifier bits.
pub type BindingView = (Seq<KeyCode>, Action, Context, u8);

impl Keybinding {
    pub open spec fn view_of(&self) -> BindingView {
        (self.keys@, self.action, self.context, self.modifiers.bits)
    }
}

/// The table of bindings, searched front to back.
pub struct Keybindings {
    pub all: Vec<Keybinding>,
}

impl Keybindings {
    pub open spec fn entries(&self) -> Seq<BindingView> {
        self.all@.map_values(|b: Keybinding| b.view_of())
    }
}

/// The bindings the player starts with.
pub open spec fn default_bindings() -> Seq<BindingView> {
    seq![
        (seq![KeyCode::Tab], Action::CycleForward, Context::Global, 0u8),
        (seq![KeyCode::BackTab], Action::CycleBackward, Context::Global, 0u8),
        (seq![KeyCode::Char('1')], Action::JumpToSidebar, Context::Global, 0u8),
        (seq![KeyCode::Char('2')], Action::JumpToTracks, Context::Global, 0u8),
        (seq![KeyCode::Char('3')], Action::JumpToQueue, Context::Global, 0u8),
        (seq![KeyCode::Char('4')], Action::ToggleArtWindow, Context::Global, 0u8),
        (seq![KeyCode::Char('L')], Action::ToggleLyrics, Context::Global, 0u8),
        (seq![KeyCode::Char('j'), KeyCode::Down], Action::MoveDown, Context::Global, 0u8),
        (seq![KeyCode::Char('k'), KeyCode::Up], Action::MoveUp, Context::Global, 0u8),
        (seq![KeyCode::Up], Action::ExtendSelectionUp, Context::Panel(Panel::TrackList), 1u8),
        (seq![KeyCode::Down], Action::ExtendSelectionDown, Context::Panel(Panel::TrackList), 1u8),
        (seq![KeyCode::Char('g'), KeyCode::Home], Action::GoToTop, Context::Global, 0u8),
        (seq![KeyCode::Char('G'), KeyCode::End], Action::GoToBottom, Context::Global, 0u8),
        (seq![KeyCode::Char('u'), KeyCode::PageUp], Action::PageUp, Context::Global, 0u8),
        (seq![KeyCode::Char('d'), KeyCode::PageDown], Action::PageDown, Context::Global, 0u8),
        (seq![KeyCode::Char('h'), KeyCode::Left], Action::MoveLeft, Context::Global, 0u8),
        (seq![KeyCode::Char('l'), KeyCode::Right], Action::MoveRight, Context::Global, 0u8),
        (seq![KeyCode::Enter], Action::Enter, Context::Global, 0u8),
        (seq![KeyCode::Char(' ')], Action::PlayPause, Context::Global, 0u8),
        (seq![KeyCode::Char('n')], Action::Next, Context::Global, 0u8),
        (seq![KeyCode::Char('p')], Action::Previous, Context::Global, 0u8),
        (seq![KeyCode::Char('s')], Action::Stop, Context::Global, 0u8),
        (seq![KeyCode::Char('+'), KeyCode::Char('=')], Action::VolumeUp, Context::Global, 0u8),
        (seq![KeyCode::Char('-'), KeyCode::Char('_')], Action::VolumeDown, Context::Global, 0u8),
        (seq![KeyCode::Char('.')], Action::SeekForward, Context::Global, 0u8),
        (seq![KeyCode::Char(',')], Action::SeekBackward, Context::Global, 0u8),
        (seq![KeyCode::Char('z')], Action::ToggleShuffle, Context::Global, 0u8),
        (seq![KeyCode::Char('o')], Action::ToggleLoop, Context::Global, 0u8),
        (seq![KeyCode::Char('a')], Action::AddToQueue, Context::Panel(Panel::TrackList), 0u8),
        (seq![KeyCode::Char('A')], Action::AddAllToQueue, Context::Panel(Panel::TrackList), 0u8),
        (seq![KeyCode::Char('x'), KeyCode::Delete], Action::RemoveFromQueue, Context::Panel(Panel::Queue), 0u8),
        (seq![KeyCode::Char('c')], Action::ClearQueue, Context::Panel(Panel::Queue), 0u8),
        (seq![KeyCode::Char('S')], Action::CycleSort, Context::Global, 0u8),
        (seq![KeyCode::Char('R')], Action::ToggleSortOrder, Context::Global, 0u8),
        (seq![KeyCode::Char('/')], Action::EnterSearch, Context::Global, 0u8),
        (seq![KeyCode::Char('N')], Action::NewPlaylist, Context::Panel(Panel::Sidebar), 0u8),
        (seq![KeyCode::Char('P')], Action::AddToPlaylist, Context::Global, 0u8),
        (seq![KeyCode::Char('x'), KeyCode::Delete], Action::RemoveFromPlaylist, Context::Panel(Panel::TrackList), 0u8),
        (seq![KeyCode::Char('K')], Action::MoveTrackUp, Context::Panel(Panel::TrackList), 0u8),
        (seq![KeyCode::Char('J')], Action::MoveTrackDown, Context::Panel(Panel::TrackList), 0u8),
        (seq![KeyCode::Char('?')], Action::ToggleHelp, Context::Global, 0u8),
        (seq![KeyCode::Char('q')], Action::Quit, Context::Global, 0u8),
        (seq![KeyCode::Char('r')], Action::LyricsReload, Context::Panel(Panel::Lyrics), 0u8),
        (seq![KeyCode::Esc], Action::SearchExit, Context::Search, 0u8),
        (seq![KeyCode::Enter], Action::SearchConfirm, Context::Search, 0u8),
        (seq![KeyCode::Backspace], Action::SearchBackspace, Context::Search, 0u8),
        (seq![KeyCode::Esc, KeyCode::Char('?')], Action::HelpClose, Context::Help, 0u8),
        (seq![KeyCode::Up, KeyCode::Char('k')], Action::HelpScroll(-1i32), Context::Help, 0u8),
        (seq![KeyCode::Down, KeyCode::Char('j')], Action::HelpScroll(1i32), Context::Help, 0u8),
        (seq![KeyCode::PageUp, KeyCode::Char('u')], Action::HelpScroll(-10i32), Context::Help, 0u8),
        (seq![KeyCode::PageDown, KeyCode::Char('d')], Action::HelpScroll(10i32), Context::Help, 0u8),
        (seq![KeyCode::Char('g')], Action::GoToTop, Context::Help, 0u8),
        (seq![KeyCode::Char('G')], Action::GoToBottom, Context::Help, 0u8),
        (seq![KeyCode::Esc], Action::OverlayCancel, Context::Overlay, 0u8),
        (seq![KeyCode::Enter], Action::OverlayConfirm, Context::Overlay, 0u8),
        (seq![KeyCode::Backspace], Action::OverlayBackspace, Context::Overlay, 0u8),
        (seq![KeyCode::Up, KeyCode::Char('k')], Action::OverlayNavigate(-1i32), Context::Overlay, 0u8),
        (seq![KeyCode::Down, KeyCode::Char('j')], Action::OverlayNavigate(1i32), Context::Overlay, 0u8),
    ]
}

fn binding(keys: Vec<KeyCode>, action: Action, context: Context, bits: u8) -> (b: Keybinding)
    ensures
        b.view_of() == (keys@, action, context, bits),
{
    Keybinding { keys, action, context, modifiers: KeyModifiers { bits } }
}

/// The action of the first binding for `ctx` that lists `key` (and, when
/// `mods` is given, asks for exactly those modifiers).
pub open spec fn first_action(bs: Seq<BindingView>, ctx: Context, key: KeyCode, mods: Option<u8>) -> Option<Action>
    decreases bs.len(),
{
    if bs.len() == 0 {
        None
    } else if bs[0].2 == ctx && bs[0].0.contains(key) && (mods matches Some(m) ==> bs[0].3 == m) {
        Some(bs[0].1)
    } else {
        first_action(bs.drop_first(), ctx, key, mods)
    }
}

/// In search mode: a bound key, else any character typed into the query.
pub open spec fn search_action(bs: Seq<BindingView>, key: KeyCode) -> Option<Action> {
    match first_action(bs, Context::Search, key, None) {
        Some(a) => Some(a),
        None => match key {
            KeyCode::Char(c) => Some(Action::SearchChar(c)),
            _ => None,
        },
    }
}

/// In an overlay: a bound key, else any character typed into its input.
pub open spec fn overlay_action(bs: Seq<BindingView>, key: KeyCode) -> Option<Action> {
    match first_action(bs, Context::Overlay, key, None) {
        Some(a) => Some(a),
        None => match key {
            KeyCode::Char(c) => Some(Action::OverlayChar(c)),
            _ => None,
        },
    }
}

/// The modifiers a binding must ask for: shift is ignored on character
/// keys, since an upper-case letter already carries it.
pub open spec fn normalized_bits(key: KeyCode, bits: u8) -> u8 {
    if key is Char {
        bits & 0xfe
    } else {
        bits
    }
}

/// The action for a key press: an overlay, the help screen and search mode
/// take the key first, in that order; otherwise a binding of the focused
/// panel, then a global one.
pub open spec fn key_action(
    bs: Seq<BindingView>,
    key: KeyCode,
    bits: u8,
    panel: Panel,
    in_search: bool,
    in_help: bool,
    in_overlay: bool,
) -> Option<Action> {
    if in_overlay {
        overlay_action(bs, key)
    } else if in_help {
        first_action(bs, Context::Help, key, None)
    } else if in_search {
        search_action(bs, key)
    } else {
        let m = normalized_bits(key, bits);
        match first_action(bs, Context::Panel(panel), key, Some(m)) {
            Some(a) => Some(a),
            None => first_action(bs, Context::Global, key, Some(m)),
        }
    }
}

fn keys_contain(keys: &Vec<KeyCode>, key: KeyCode) -> (r: bool)
    ensures
        r == keys@.contains(key),
{
    let mut i: usize = 0;
    while i < keys.len()
        invariant
            i <= keys@.len(),
            forall|j: int| 0 <= j < i ==> keys@[j] != key,
        decreases keys@.len() - i,
    {
        if keys[i] == key {
            assert(keys@[i as int] == key);
            return true;
        }
        i = i + 1;
    }
    false
}

impl Keybindings {
    /// The default table.
    pub fn new() -> (r: Keybindings)
        ensures
            r.entries() == default_bindings(),
    {
        let all = vec![
            binding(vec![KeyCode::Tab], Action::CycleForward, Context::Global, 0),
            binding(vec![KeyCode::BackTab], Action::CycleBackward, Context::Global, 0),
            binding(vec![KeyCode::Char('1')], Action::JumpToSidebar, Context::Global, 0),
            binding(vec![KeyCode::Char('2')], Action::JumpToTracks, Context::Global, 0),
            binding(vec![KeyCode::Char('3')], Action::JumpToQueue, Context::Global, 0),
            binding(vec![KeyCode::Char('4')], Action::ToggleArtWindow, Context::Global, 0),
            binding(vec![KeyCode::Char('L')], Action::ToggleLyrics, Context::Global, 0),
            binding(vec![KeyCode::Char('j'), KeyCode::Down], Action::MoveDown, Context::Global, 0),
            binding(vec![KeyCode::Char('k'), KeyCode::Up], Action::MoveUp, Context::Global, 0),
            binding(vec![KeyCode::Up], Action::ExtendSelectionUp, Context::Panel(Panel::TrackList), 1),
            binding(vec![KeyCode::Down], Action::ExtendSelectionDown, Context::Panel(Panel::TrackList), 1),
            binding(vec![KeyCode::Char('g'), KeyCode::Home], Action::GoToTop, Context::Global, 0),
            binding(vec![KeyCode::Char('G'), KeyCode::End], Action::GoToBottom, Context::Global, 0),
            binding(vec![KeyCode::Char('u'), KeyCode::PageUp], Action::PageUp, Context::Global, 0),
            binding(vec![KeyCode::Char('d'), KeyCode::PageDown], Action::PageDown, Context::Global, 0),
            binding(vec![KeyCode::Char('h'), KeyCode::Left], Action::MoveLeft, Context::Global, 0),
            binding(vec![KeyCode::Char('l'), KeyCode::Right], Action::MoveRight, Context::Global, 0),
            binding(vec![KeyCode::Enter], Action::Enter, Context::Global, 0),
            binding(vec![KeyCode::Char(' ')], Action::PlayPause, Context::Global, 0),
            binding(vec![KeyCode::Char('n')], Action::Next, Context::Global, 0),
            binding(vec![KeyCode::Char('p')], Action::Previous, Context::Global, 0),
            binding(vec![KeyCode::Char('s')], Action::Stop, Context::Global, 0),
            binding(vec![KeyCode::Char('+'), KeyCode::Char('=')], Action::VolumeUp, Context::Global, 0),
            binding(vec![KeyCode::Char('-'), KeyCode::Char('_')], Action::VolumeDown, Context::Global, 0),
            binding(vec![KeyCode::Char('.')], Action::SeekForward, Context::Global, 0),
            binding(vec![KeyCode::Char(',')], Action::SeekBackward, Context::Global, 0),
            binding(vec![KeyCode::Char('z')], Action::ToggleShuffle, Context::Global, 0),
            binding(vec![KeyCode::Char('o')], Action::ToggleLoop, Context::Global, 0),
            binding(vec![KeyCode::Char('a')], Action::AddToQueue, Context::Panel(Panel::TrackList), 0),
            binding(vec![KeyCode::Char('A')], Action::AddAllToQueue, Context::Panel(Panel::TrackList), 0),
            binding(vec![KeyCode::Char('x'), KeyCode::Delete], Action::RemoveFromQueue, Context::Panel(Panel::Queue), 0),
            binding(vec![KeyCode::Char('c')], Action::ClearQueue, Context::Panel(Panel::Queue), 0),
            binding(vec![KeyCode::Char('S')], Action::CycleSort, Context::Global, 0),
            binding(vec![KeyCode::Char('R')], Action::ToggleSortOrder, Context::Global, 0),
            binding(vec![KeyCode::Char('/')], Action::EnterSearch, Context::Global, 0),
            binding(vec![KeyCode::Char('N')], Action::NewPlaylist, Context::Panel(Panel::Sidebar), 0),
            binding(vec![KeyCode::Char('P')], Action::AddToPlaylist, Context::Global, 0),
            binding(vec![KeyCode::Char('x'), KeyCode::Delete], Action::RemoveFromPlaylist, Context::Panel(Panel::TrackList), 0),
            binding(vec![KeyCode::Char('K')], Action::MoveTrackUp, Context::Panel(Panel::TrackList), 0),
            binding(vec![KeyCode::Char('J')], Action::MoveTrackDown, Context::Panel(Panel::TrackList), 0),
            binding(vec![KeyCode::Char('?')], Action::ToggleHelp, Context::Global, 0),
            binding(vec![KeyCode::Char('q')], Action::Quit, Context::Global, 0),
            binding(vec![KeyCode::Char('r')], Action::LyricsReload, Context::Panel(Panel::Lyrics), 0),
            binding(vec![KeyCode::Esc], Action::SearchExit, Context::Search, 0),
            binding(vec![KeyCode::Enter], Action::SearchConfirm, Context::Search, 0),
            binding(vec![KeyCode::Backspace], Action::SearchBackspace, Context::Search, 0),
            binding(vec![KeyCode::Esc, KeyCode::Char('?')], Action::HelpClose, Context::Help, 0),
            binding(vec![KeyCode::Up, KeyCode::Char('k')], Action::HelpScroll(-1), Context::Help, 0),
            binding(vec![KeyCode::Down, KeyCode::Char('j')], Action::HelpScroll(1), Context::Help, 0),
            binding(vec![KeyCode::PageUp, KeyCode::Char('u')], Action::HelpScroll(-10), Context::Help, 0),
            binding(vec![KeyCode::PageDown, KeyCode::Char('d')], Action::HelpScroll(10), Context::Help, 0),
            binding(vec![KeyCode::Char('g')], Action::GoToTop, Context::Help, 0),
            binding(vec![KeyCode::Char('G')], Action::GoToBottom, Context::Help, 0),
            binding(vec![KeyCode::Esc], Action::OverlayCancel, Context::Overlay, 0),
            binding(vec![KeyCode::Enter], Action::OverlayConfirm, Context::Overlay, 0),
            binding(vec![KeyCode::Backspace], Action::OverlayBackspace, Context::Overlay, 0),
            binding(vec![KeyCode::Up, KeyCode::Char('k')], Action::OverlayNavigate(-1), Context::Overlay, 0),
            binding(vec![KeyCode::Down, KeyCode::Char('j')], Action::OverlayNavigate(1), Context::Overlay, 0),
        ];
        let r = Keybindings { all };
        assert(r.entries() =~~= default_bindings());
        r
    }

    fn find_action(&self, ctx: Context, key: KeyCode, mods: Option<u8>) -> (r: Option<Action>)
        ensures
            r == first_action(self.entries(), ctx, key, mods),
    {
        let ghost bs = self.entries();
        let mut i: usize = 0;
        assert(bs.skip(0) =~= bs);
        while i < self.all.len()
            invariant
                i <= self.all@.len(),
                bs == self.entries(),
                first_action(bs, ctx, key, mods) == first_action(bs.skip(i as int), ctx, key, mods),
            decreases self.all@.len() - i,
        {
            let b = &self.all[i];
            assert(bs.skip(i as int)[0] == b.view_of());
            assert(bs.skip(i as int).drop_first() =~= bs.skip(i + 1));
            let mods_ok = match mods {
                Some(m) => b.modifiers.bits == m,
                None => true,
            };
            if b.context == ctx && keys_contain(&b.keys, key) && mods_ok {
                return Some(b.action);
            }
            i = i + 1;
        }
        None
    }

    /// The action for a key press in the given situation.
    pub fn lookup(
        &self,
        key: KeyCode,
        modifiers: KeyModifiers,
        panel: Panel,
        in_search: bool,
        in_help: bool,
        in_overlay: bool,
    ) -> (r: Option<Action>)
        ensures
            r == key_action(self.entries(), key, modifiers.bits, panel, in_search, in_help, in_overlay),
            (in_overlay || (!in_help && in_search)) && key is Char ==> r is Some,
    {
        if in_overlay {
            return self.lookup_overlay(key);
        }
        if in_help {
            return self.lookup_help(key);
        }
        if in_search {
            return self.lookup_search(key);
        }
        let m = match key {
            KeyCode::Char(_) => modifiers.bits & 0xfe,
            _ => modifiers.bits,
        };
        match self.find_action(Context::Panel(panel), key, Some(m)) {
            Some(a) => Some(a),
            None => self.find_action(Context::Global, key, Some(m)),
        }
    }

    /// The action for a key in search mode.
    pub fn lookup_search(&self, key: KeyCode) -> (r: Option<Action>)
        ensures
            r == search_action(self.entries(), key),
    {
        match self.find_action(Context::Search, key, None) {
            Some(a) => Some(a),
            None => match key {
                KeyCode::Char(c) => Some(Action::SearchChar(c)),
                _ => None,
            },
        }
    }

    /// The action for a key on the help screen.
    pub fn lookup_help(&self, key: KeyCode) -> (r: Option<Action>)
        ensures
            r == first_action(self.entries(), Context::Help, key, None),
    {
        self.find_action(Context::Help, key, None)
    }

    /// The action for a key in an overlay.
    pub fn lookup_overlay(&self, key: KeyCode) -> (r: Option<Action>)
        ensures
            r == overlay_action(self.entries(), key),
    {
        match self.find_action(Context::Overlay, key, None) {
            Some(a) => Some(a),
            None => match key {
                KeyCode::Char(c) => Some(Action::OverlayChar(c)),
                _ => None,
            },
        }
    }
}

/// The action a panel's own key handling stands for, by the key it reacts
/// to: movement actions map to their arrow and paging keys, every other
/// action to `Null`.
pub open spec fn action_code(action: Action) -> KeyCode {
    match action {
        Action::MoveUp => KeyCode::Up,
        Action::MoveDown => KeyCode::Down,
        Action::MoveLeft => KeyCode::Left,
        Action::MoveRight => KeyCode::Right,
        Action::PageUp => KeyCode::PageUp,
        Action::PageDown => KeyCode::PageDown,
        Action::GoToTop => KeyCode::Home,
        Action::GoToBottom => KeyCode::End,
        _ => KeyCode::Null,
    }
}

/// The key a movement action stands for.
pub fn key_to_code(action: Action) -> (k: KeyCode)
    ensures
        k == action_code(action),
{
    match action {
        Action::MoveUp => KeyCode::Up,
        Action::MoveDown => KeyCode::Down,
        Action::MoveLeft => KeyCode::Left,
        Action::MoveRight => KeyCode::Right,
        Action::PageUp => KeyCode::PageUp,
        Action::PageDown => KeyCode::PageDown,
        Action::GoToTop => KeyCode::Home,
        Action::GoToBottom => KeyCode::End,
        _ => KeyCode::Null,
    }
}

} // verus!

verus! {

// ---------------------------------------------------------------------------
// Naming keys for the help screen
// ---------------------------------------------------------------------------

/// How a key is written on the help screen.
pub open spec fn key_text(k: KeyCode) -> Seq<char> {
    match k {
        KeyCode::Char(c) => if c == ' ' {
            "space"@
        } else {
            seq![c]
        },
        KeyCode::Up => "↑"@,
        KeyCode::Down => "↓"@,
        KeyCode::Left => "←"@,
        KeyCode::Right => "→"@,
        KeyCode::Tab => "Tab"@,
        KeyCode::BackTab => "Shift-Tab"@,
        KeyCode::Enter => "Enter"@,
        KeyCode::Esc => "Esc"@,
        KeyCode::Delete => "Del"@,
        KeyCode::Home => "Home"@,
        KeyCode::End => "End"@,
        KeyCode::PageUp => "PgUp"@,
        KeyCode::PageDown => "PgDn"@,
        KeyCode::Backspace => "Backspace"@,
        KeyCode::Insert => "Insert"@,
        KeyCode::F(n) => "F("@ + decimal(n as nat) + ")"@,
        KeyCode::Null => "Null"@,
        KeyCode::Other => "Other"@,
    }
}

/// The names of keys, joined by "  or  ".
pub open spec fn keys_text(keys: Seq<KeyCode>) -> Seq<char> {
    join_texts(keys.map_values(|k: KeyCode| key_text(k)), "  or  "@)
}

fn push_key_name(s: &mut String, k: KeyCode)
    ensures
        final(s)@ == old(s)@ + key_text(k),
{
    match k {
        KeyCode::Char(c) => {
            if c == ' ' {
                push_str(s, "space");
            } else {
                push_char(s, c);
                assert(old(s)@.push(c) =~= old(s)@ + seq![c]);
            }
        },
        KeyCode::Up => push_str(s, "↑"),
        KeyCode::Down => push_str(s, "↓"),
        KeyCode::Left => push_str(s, "←"),
        KeyCode::Right => push_str(s, "→"),
        KeyCode::Tab => push_str(s, "Tab"),
        KeyCode::BackTab => push_str(s, "Shift-Tab"),
        KeyCode::Enter => push_str(s, "Enter"),
        KeyCode::Esc => push_str(s, "Esc"),
        KeyCode::Delete => push_str(s, "Del"),
        KeyCode::Home => push_str(s, "Home"),
        KeyCode::End => push_str(s, "End"),
        KeyCode::PageUp => push_str(s, "PgUp"),
        KeyCode::PageDown => push_str(s, "PgDn"),
        KeyCode::Backspace => push_str(s, "Backspace"),
        KeyCode::Insert => push_str(s, "Insert"),
        KeyCode::F(n) => {
            push_str(s, "F(");
            push_decimal(s, n as u64);
            push_str(s, ")");
            assert(final(s)@ =~= old(s)@ + key_text(k));
        },
        KeyCode::Null => push_str(s, "Null"),
        KeyCode::Other => push_str(s, "Other"),
    }
}

/// Names the keys of a binding, joined by "  or  ".
pub fn format_keys(keys: &[KeyCode]) -> (r: String)
    ensures
        r@ == keys_text(keys@),
{
    let ghost names = keys@.map_values(|k: KeyCode| key_text(k));
    let mut r = String::new();
    let mut i: usize = 0;
    while i < keys.len()
        invariant
            i <= keys@.len(),
            names == keys@.map_values(|k: KeyCode| key_text(k)),
            r@ == join_texts(names.take(i as int), "  or  "@),
        decreases keys@.len() - i,
    {
        if i > 0 {
            push_str(&mut r, "  or  ");
        }
        push_key_name(&mut r, keys[i]);
        assert(names.take(i + 1).drop_last() =~= names.take(i as int));
        assert(names.take(i + 1).last() == key_text(keys@[i as int]));
        if i == 0 {
            assert(names.take(1)[0] == key_text(keys@[0]));
            assert(Seq::<char>::empty() + key_text(keys@[0]) =~= key_text(keys@[0]));
        }
        i = i + 1;
    }
    assert(names.take(keys@.len() as int) =~= names);
    r
}

/// The keys of the first binding of `action`.
pub open spec fn action_keys(bs: Seq<BindingView>, action: Action) -> Option<Seq<KeyCode>>
    decreases bs.len(),
{
    if bs.len() == 0 {
        None
    } else if bs[0].1 == action {
        Some(bs[0].0)
    } else {
        action_keys(bs.drop_first(), action)
    }
}

/// The key names of the first binding of `action`, empty when unbound.
pub open spec fn action_keys_text(bs: Seq<BindingView>, action: Action) -> Seq<char> {
    match action_keys(bs, action) {
        Some(ks) => keys_text(ks),
        None => Seq::empty(),
    }
}

/// The key names of each bound action in turn (unbound ones left out).
pub open spec fn bound_keys_texts(bs: Seq<BindingView>, actions: Seq<Action>) -> Seq<Seq<char>>
    decreases actions.len(),
{
    if actions.len() == 0 {
        Seq::empty()
    } else {
        let pre = bound_keys_texts(bs, actions.drop_last());
        match action_keys(bs, actions.last()) {
            Some(ks) => pre.push(keys_text(ks)),
            None => pre,
        }
    }
}

impl Keybindings {
    fn find_keys(&self, action: Action) -> (r: Option<&Vec<KeyCode>>)
        ensures
            match r {
                Some(v) => action_keys(self.entries(), action) == Some(v@),
                None => action_keys(self.entries(), action) is None,
            },
    {
        let ghost bs = self.entries();
        let mut i: usize = 0;
        assert(bs.skip(0) =~= bs);
        while i < self.all.len()
            invariant
                i <= self.all@.len(),
                bs == self.entries(),
                action_keys(bs, action) == action_keys(bs.skip(i as int), action),
            decreases self.all@.len() - i,
        {
            assert(bs.skip(i as int)[0] == self.all@[i as int].view_of());
            assert(bs.skip(i as int).drop_first() =~= bs.skip(i + 1));
            if self.all[i].action == action {
                return Some(&self.all[i].keys);
            }
            i = i + 1;
        }
        None
    }

    /// The key names bound to `action`, empty when it is unbound.
    pub fn keys_for_action(&self, action: Action) -> (r: String)
        ensures
            r@ == action_keys_text(self.entries(), action),
    {
        match self.find_keys(action) {
            Some(keys) => format_keys(keys.as_slice()),
            None => String::new(),
        }
    }

    /// The key names of several actions, joined by " / " (unbound actions
    /// left out).
    pub fn keys_for_actions(&self, actions: &[Action]) -> (r: String)
        ensures
            r@ == join_texts(bound_keys_texts(self.entries(), actions@), " / "@),
    {
        let ghost bs = self.entries();
        let mut r = String::new();
        let mut count: usize = 0;
        let mut i: usize = 0;
        assert(actions@.take(0) =~= Seq::<Action>::empty());
        while i < actions.len()
            invariant
                i <= actions@.len(),
                bs == self.entries(),
                count == bound_keys_texts(bs, actions@.take(i as int)).len(),
                count <= i,
                r@ == join_texts(bound_keys_texts(bs, actions@.take(i as int)), " / "@),
            decreases actions@.len() - i,
        {
            let ghost pre = bound_keys_texts(bs, actions@.take(i as int));
            assert(actions@.take(i + 1).drop_last() =~= actions@.take(i as int));
            assert(actions@.take(i + 1).last() == actions@[i as int]);
            match self.find_keys(actions[i]) {
                Some(keys) => {
                    if count > 0 {
                        push_str(&mut r, " / ");
                    }
                    let t = format_keys(keys.as_slice());
                    push_str(&mut r, t.as_str());
                    let ghost now = pre.push(t@);
                    assert(now.drop_last() =~= pre);
                    if count == 0 {
                        assert(Seq::<char>::empty() + t@ =~= t@);
                    }
                    count = count + 1;
                },
                None => {},
            }
            i = i + 1;
        }
        assert(actions@.take(actions@.len() as int) =~= actions@);
        r
    }
}

} // verus!

verus! {

// ---------------------------------------------------------------------------
// The help screen
// ---------------------------------------------------------------------------

/// A help row as text: the keys, and what they do.
pub open spec fn row_views(rows: Seq<(String, &'static str)>) -> Seq<(Seq<char>, Seq<char>)> {
    rows.map_values(|r: (String, &'static str)| (r.0@, r.1@))
}

/// Help sections as text: each title with its rows.
pub open spec fn section_views(
    v: Seq<(&'static str, Vec<(String, &'static str)>)>,
) -> Seq<(Seq<char>, Seq<(Seq<char>, Seq<char>)>)> {
    v.map_values(|s: (&'static str, Vec<(String, &'static str)>)| (s.0@, row_views(s.1@)))
}

/// The help screen for a table of bindings, section by section.
pub open spec fn help_text(bs: Seq<BindingView>) -> Seq<(Seq<char>, Seq<(Seq<char>, Seq<char>)>)> {
    seq![
        ("Navigation"@, seq![
            (join_texts(bound_keys_texts(bs, seq![Action::CycleForward, Action::CycleBackward]), " / "@), "Cycle panels"@),
            (join_texts(bound_keys_texts(bs, seq![Action::JumpToSidebar, Action::JumpToTracks, Action::JumpToQueue]), " / "@), "Jump to sidebar / tracks / queue"@),
            (action_keys_text(bs, Action::ToggleArtWindow), "Toggle album art window in sidebar"@),
            (action_keys_text(bs, Action::ToggleLyrics), "Toggle lyrics panel"@),
            (join_texts(bound_keys_texts(bs, seq![Action::MoveUp, Action::MoveDown]), " / "@), "Move up / down"@),
            (join_texts(bound_keys_texts(bs, seq![Action::GoToTop, Action::GoToBottom]), " / "@), "Go to top / bottom"@),
            (join_texts(bound_keys_texts(bs, seq![Action::PageUp, Action::PageDown]), " / "@), "Page up / down (all panels)"@),
            (join_texts(bound_keys_texts(bs, seq![Action::MoveLeft, Action::MoveRight]), " / "@), "Switch panels"@),
            (action_keys_text(bs, Action::MoveRight) + "  "@ + "on section header"@, "Expand  (or focus tracks if open)"@),
            (action_keys_text(bs, Action::MoveLeft) + "  "@ + "on section header"@, "Collapse"@),
        ]),
        ("Playback"@, seq![
            (action_keys_text(bs, Action::PlayPause), "Play selected / toggle pause"@),
            (action_keys_text(bs, Action::Next), "Next track in queue"@),
            (action_keys_text(bs, Action::Previous), "Previous track in queue"@),
            (action_keys_text(bs, Action::Stop), "Stop"@),
            (join_texts(bound_keys_texts(bs, seq![Action::VolumeUp, Action::VolumeDown]), " / "@), "Volume up / down"@),
            (join_texts(bound_keys_texts(bs, seq![Action::SeekForward, Action::SeekBackward]), " / "@), "Seek forward / backward (5 seconds)"@),
            (action_keys_text(bs, Action::ToggleShuffle), "Toggle shuffle"@),
            (action_keys_text(bs, Action::ToggleLoop), "Toggle loop (off → all → one)"@),
        ]),
        ("Queue"@, seq![
            (action_keys_text(bs, Action::AddToQueue), "Add selected track(s) to queue"@),
            (action_keys_text(bs, Action::AddAllToQueue), "Add all visible tracks to queue"@),
            (action_keys_text(bs, Action::RemoveFromQueue), "Remove selected from queue"@),
            (action_keys_text(bs, Action::ClearQueue), "Clear entire queue"@),
            ("Shift+↑ / Shift+↓"@, "Multi-select tracks (in track list)"@),
        ]),
        ("Library"@, seq![
            (action_keys_text(bs, Action::CycleSort), "Cycle sort field (title→artist→album→year→genre→dur)"@),
            (action_keys_text(bs, Action::ToggleSortOrder), "Toggle sort order (asc / desc)"@),
            (action_keys_text(bs, Action::EnterSearch), "Activate search bar (always visible above track list)"@),
            (action_keys_text(bs, Action::SearchExit), "Deactivate search bar  (results stay if query non-empty)"@),
        ]),
        ("Playlists"@, seq![
            (action_keys_text(bs, Action::NewPlaylist) + "  "@ + "on Playlists header"@, "Create a new empty playlist"@),
            (action_keys_text(bs, Action::AddToPlaylist), "Add track to an existing playlist"@),
            (action_keys_text(bs, Action::RemoveFromPlaylist) + "  "@ + "in playlist"@, "Remove track from playlist (saves immediately)"@),
            (action_keys_text(bs, Action::MoveTrackUp) + "  "@ + "in playlist"@, "Move selected track up"@),
            (action_keys_text(bs, Action::MoveTrackDown) + "  "@ + "in playlist"@, "Move selected track down"@),
        ]),
        ("Other"@, seq![
            (action_keys_text(bs, Action::ToggleHelp), "Toggle this help overlay"@),
            (action_keys_text(bs, Action::Quit), "Quit"@),
        ]),
    ]
}

impl Keybindings {
    /// The key names of `action` followed by two spaces and `ctx`.
    fn keys_in_context(&self, action: Action, ctx: &str) -> (r: String)
        ensures
            r@ == action_keys_text(self.entries(), action) + "  "@ + ctx@,
    {
        let mut r = self.keys_for_action(action);
        push_str(&mut r, "  ");
        push_str(&mut r, ctx);
        r
    }

    /// The sections of the help screen: titles, and for each row the keys
    /// as currently bound and what they do.
    #[verifier::rlimit(40)]
    pub fn help_sections(&self) -> (r: Vec<(&'static str, Vec<(String, &'static str)>)>)
        ensures
            section_views(r@) == help_text(self.entries()),
    {
        let ghost bs = self.entries();
        let navigation = vec![
            (self.keys_for_actions(vec![Action::CycleForward, Action::CycleBackward].as_slice()), "Cycle panels"),
            (self.keys_for_actions(vec![Action::JumpToSidebar, Action::JumpToTracks, Action::JumpToQueue].as_slice()), "Jump to sidebar / tracks / queue"),
            (self.keys_for_action(Action::ToggleArtWindow), "Toggle album art window in sidebar"),
            (self.keys_for_action(Action::ToggleLyrics), "Toggle lyrics panel"),
            (self.keys_for_actions(vec![Action::MoveUp, Action::MoveDown].as_slice()), "Move up / down"),
            (self.keys_for_actions(vec![Action::GoToTop, Action::GoToBottom].as_slice()), "Go to top / bottom"),
            (self.keys_for_actions(vec![Action::PageUp, Action::PageDown].as_slice()), "Page up / down (all panels)"),
            (self.keys_for_actions(vec![Action::MoveLeft, Action::MoveRight].as_slice()), "Switch panels"),
            (self.keys_in_context(Action::MoveRight, "on section header"), "Expand  (or focus tracks if open)"),
            (self.keys_in_context(Action::MoveLeft, "on section header"), "Collapse"),
        ];
        let playback = vec![
            (self.keys_for_action(Action::PlayPause), "Play selected / toggle pause"),
            (self.keys_for_action(Action::Next), "Next track in queue"),
            (self.keys_for_action(Action::Previous), "Previous track in queue"),
            (self.keys_for_action(Action::Stop), "Stop"),
            (self.keys_for_actions(vec![Action::VolumeUp, Action::VolumeDown].as_slice()), "Volume up / down"),
            (self.keys_for_actions(vec![Action::SeekForward, Action::SeekBackward].as_slice()), "Seek forward / backward (5 seconds)"),
            (self.keys_for_action(Action::ToggleShuffle), "Toggle shuffle"),
            (self.keys_for_action(Action::ToggleLoop), "Toggle loop (off → all → one)"),
        ];
        let queue = vec![
            (self.keys_for_action(Action::AddToQueue), "Add selected track(s) to queue"),
            (self.keys_for_action(Action::AddAllToQueue), "Add all visible tracks to queue"),
            (self.keys_for_action(Action::RemoveFromQueue), "Remove selected from queue"),
            (self.keys_for_action(Action::ClearQueue), "Clear entire queue"),
            ("Shift+↑ / Shift+↓".to_owned(), "Multi-select tracks (in track list)"),
        ];
        let library = vec![
            (self.keys_for_action(Action::CycleSort), "Cycle sort field (title→artist→album→year→genre→dur)"),
            (self.keys_for_action(Action::ToggleSortOrder), "Toggle sort order (asc / desc)"),
            (self.keys_for_action(Action::EnterSearch), "Activate search bar (always visible above track list)"),
            (self.keys_for_action(Action::SearchExit), "Deactivate search bar  (results stay if query non-empty)"),
        ];
        let playlists = vec![
            (self.keys_in_context(Action::NewPlaylist, "on Playlists header"), "Create a new empty playlist"),
            (self.keys_for_action(Action::AddToPlaylist), "Add track to an existing playlist"),
            (self.keys_in_context(Action::RemoveFromPlaylist, "in playlist"), "Remove track from playlist (saves immediately)"),
            (self.keys_in_context(Action::MoveTrackUp, "in playlist"), "Move selected track up"),
            (self.keys_in_context(Action::MoveTrackDown, "in playlist"), "Move selected track down"),
        ];
        let other = vec![
            (self.keys_for_action(Action::ToggleHelp), "Toggle this help overlay"),
            (self.keys_for_action(Action::Quit), "Quit"),
        ];
        let r = vec![("Navigation", navigation), ("Playback", playback), ("Queue", queue), ("Library", library), ("Playlists", playlists), ("Other", other)];
        assert(section_views(r@) =~~= help_text(bs));
        r
    }
}

} // verus!

verus! {

/// Outside the overlay, help and search modes, holding shift does not
/// change what a character key does.
pub proof fn lemma_shift_ignored_on_chars(bs: Seq<BindingView>, c: char, bits: u8, panel: Panel)
    ensures
        key_action(bs, KeyCode::Char(c), bits, panel, false, false, false) == key_action(
            bs,
            KeyCode::Char(c),
            bits | 1,
            panel,
            false,
            false,
            false,
        ),
{
    assert((bits & 0xfe) == ((bits | 1) & 0xfe)) by (bit_vector);
}

} // verus!
