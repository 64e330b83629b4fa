//! The text of the "Now Playing" bar: what is playing, how far it got, and
//! the keys that drive it.

use vstd::prelude::*;
use crate::lyrics::{find_char, first_index};
use crate::text::{chars_of, decimal, push_decimal, push_str, string_of, trim, trim_chars};
use crate::types::{duration_text, format_duration, PlayerState, Track};
use crate::util::{truncate_field, truncated};

verus! {

broadcast use vstd::string::group_string_axioms;

/// The icon in front of the title: ▶ playing, ⏸ paused, ■ stopped.
pub open spec fn state_icon_text(s: PlayerState) -> Seq<char> {
    match s {
        PlayerState::Playing => "▶"@,
        PlayerState::Paused => "⏸"@,
        PlayerState::Stopped => "■"@,
    }
}

pub fn state_icon(s: PlayerState) -> (r: &'static str)
    ensures
        r@ == state_icon_text(s),
{
    match s {
        PlayerState::Playing => "▶",
        PlayerState::Paused => "⏸",
        PlayerState::Stopped => "■",
    }
}

/// The first of a comma-separated list of genres, trimmed.
pub open spec fn first_genre(g: Seq<char>) -> Seq<char> {
    trim(g.take(first_index(g, ',')))
}

/// First line: state icon and the title cut to the column width less four.
pub open spec fn title_line_text(t: Track, state: PlayerState, width: nat) -> Seq<char> {
    state_icon_text(state) + " "@ + truncated(t.shown_title(), (width - 4) as nat)
}

/// Second line: "  Artist — Album".
pub open spec fn artist_line_text(t: Track) -> Seq<char> {
    "  "@ + t.shown_artist() + " — "@ + t.shown_album()
}

/// Third line: the year (or "Unknown Year") and the first genre
/// (or "Unknown Genre").
pub open spec fn meta_line_text(t: Track) -> Seq<char> {
    "  "@ + (if t.year > 0 {
        decimal(t.year as nat)
    } else {
        "Unknown Year"@
    }) + " "@ + (if t.genre@.len() > 0 {
        "· "@ + first_genre(t.genre@)
    } else {
        "· Unknown Genre"@
    })
}

/// The three lines shown while nothing is loaded, with the keys that play
/// and that open the help.
pub open spec fn idle_lines_text(play_keys: Seq<char>, help_keys: Seq<char>) -> (
    Seq<char>,
    Seq<char>,
    Seq<char>,
) {
    (
        "■ lyre — no track playing"@,
        "  Press ["@ + play_keys + "] to play"@,
        "  Press ["@ + help_keys + "] for help"@,
    )
}

/// The three lines of the left column of the bar.
pub open spec fn player_lines_text(
    track: Option<Track>,
    state: PlayerState,
    width: nat,
    play_keys: Seq<char>,
    help_keys: Seq<char>,
) -> (Seq<char>, Seq<char>, Seq<char>) {
    match track {
        Some(t) => (title_line_text(t, state, width), artist_line_text(t), meta_line_text(t)),
        None => idle_lines_text(play_keys, help_keys),
    }
}

fn first_genre_of(g: &str) -> (r: String)
    ensures
        r@ == first_genre(g@),
{
    let cs = chars_of(g);
    let k = find_char(&cs, ',');
    proof {
        lemma_first_index_bounds(cs@, ',');
    }
    let mut head: Vec<char> = Vec::new();
    let mut i: usize = 0;
    while i < k
        invariant
            k as int == first_index(cs@, ','),
            0 <= k <= cs@.len(),
            i <= k,
            head@ == cs@.take(i as int),
        decreases k - i,
    {
        head.push(cs[i]);
        assert(cs@.take(i + 1) =~= cs@.take(i as int).push(cs@[i as int]));
        i = i + 1;
    }
    let t = trim_chars(&head);
    string_of(&t)
}

proof fn lemma_first_index_bounds(s: Seq<char>, c: char)
    ensures
        0 <= first_index(s, c) <= s.len(),
    decreases s.len(),
{
    if s.len() > 0 && s[0] != c {
        lemma_first_index_bounds(s.drop_first(), c);
    }
}

/// The year and genre line of a track.
pub fn meta_line(t: &Track) -> (r: String)
    ensures
        r@ == meta_line_text(*t),
{
    proof {
        lemma_first_index_bounds(t.genre@, ',');
    }
    let mut r = String::new();
    push_str(&mut r, "  ");
    if t.year > 0 {
        push_decimal(&mut r, t.year as u64);
    } else {
        push_str(&mut r, "Unknown Year");
    }
    push_str(&mut r, " ");
    if !t.genre.as_str().is_empty() {
        push_str(&mut r, "· ");
        let g = first_genre_of(t.genre.as_str());
        push_str(&mut r, g.as_str());
    } else {
        push_str(&mut r, "· Unknown Genre");
    }
    r
}

/// The left column of the bar: title, artist and details of the loaded
/// track, or the idle message with the keys to press.
pub fn player_lines(
    track: Option<&Track>,
    state: PlayerState,
    width: usize,
    play_keys: &str,
    help_keys: &str,
) -> (r: (String, String, String))
    requires
        track.is_some() ==> width >= 4,
    ensures
        (r.0@, r.1@, r.2@) == player_lines_text(
            match track {
                Some(t) => Some(*t),
                None => None,
            },
            state,
            width as nat,
            play_keys@,
            help_keys@,
        ),
{
    match track {
        Some(t) => {
            let mut title = String::new();
            push_str(&mut title, state_icon(state));
            push_str(&mut title, " ");
            let cut = truncate_field(t.display_title(), width - 4);
            push_str(&mut title, cut.as_str());
            let mut artist = String::new();
            push_str(&mut artist, "  ");
            push_str(&mut artist, t.display_artist());
            push_str(&mut artist, " — ");
            push_str(&mut artist, t.display_album());
            (title, artist, meta_line(t))
        },
        None => {
            let first = "■ lyre — no track playing".to_owned();
            let mut second = String::new();
            push_str(&mut second, "  Press [");
            push_str(&mut second, play_keys);
            push_str(&mut second, "] to play");
            let mut third = String::new();
            push_str(&mut third, "  Press [");
            push_str(&mut third, help_keys);
            push_str(&mut third, "] for help");
            (first, second, third)
        },
    }
}

/// "[k] play/pause  [k] next  [k] prev  [k] shuffle  [k] loop".
pub open spec fn controls_hint_text(
    play: Seq<char>,
    next: Seq<char>,
    prev: Seq<char>,
    shuffle: Seq<char>,
    looping: Seq<char>,
) -> Seq<char> {
    "["@ + play + "] play/pause  ["@ + next + "] next  ["@ + prev + "] prev  ["@ + shuffle
        + "] shuffle  ["@ + looping + "] loop"@
}

pub fn controls_hint(play: &str, next: &str, prev: &str, shuffle: &str, looping: &str) -> (r:
    String)
    ensures
        r@ == controls_hint_text(play@, next@, prev@, shuffle@, looping@),
{
    let mut r = String::new();
    push_str(&mut r, "[");
    push_str(&mut r, play);
    push_str(&mut r, "] play/pause  [");
    push_str(&mut r, next);
    push_str(&mut r, "] next  [");
    push_str(&mut r, prev);
    push_str(&mut r, "] prev  [");
    push_str(&mut r, shuffle);
    push_str(&mut r, "] shuffle  [");
    push_str(&mut r, looping);
    push_str(&mut r, "] loop");
    r
}

/// "elapsed / total", each as a duration.
pub fn time_line(elapsed: i64, total: i64) -> (r: String)
    ensures
        r@ == duration_text(elapsed as int) + " / "@ + duration_text(total as int),
{
    let mut r = format_duration(elapsed);
    push_str(&mut r, " / ");
    let t = format_duration(total);
    push_str(&mut r, t.as_str());
    r
}

/// ⤮ when shuffling, ⇉ in order.
pub fn shuffle_indicator(shuffle: bool) -> (r: &'static str)
    ensures
        r@ == (if shuffle {
            "⤮"@
        } else {
            "⇉"@
        }),
{
    if shuffle {
        "⤮"
    } else {
        "⇉"
    }
}

} // verus!
