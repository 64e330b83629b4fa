//! The content of the lyrics panel: its title, the message shown while
//! there are no lyrics, and where it scrolls.

use vstd::prelude::*;
use crate::text::push_str;
use crate::types::LyricsFetchStatus;

verus! {

broadcast use vstd::string::group_string_axioms;

/// How a piece of the lyrics message is coloured.
#[derive(Debug, Clone, Copy, PartialEq, Eq, Structural)]
pub enum Tone {
    Normal,
    Dim,
    Accent,
}

/// The pieces of one line of the message.
pub open spec fn span_views(l: Seq<(Tone, String)>) -> Seq<(Tone, Seq<char>)> {
    l.map_values(|p: (Tone, String)| (p.0, p.1@))
}

/// The lines of the message.
pub open spec fn message_views(ls: Seq<Vec<(Tone, String)>>) -> Seq<Seq<(Tone, Seq<char>)>> {
    ls.map_values(|l: Vec<(Tone, String)>| span_views(l@))
}

/// The message of the panel when no lyrics are loaded: a short note when
/// nothing plays, else what the lyrics fetch is doing or how it ended, and
/// what the user can do next.  Empty lines separate the parts.
pub open spec fn placeholder_text(playing: bool, status: LyricsFetchStatus) -> Seq<
    Seq<(Tone, Seq<char>)>,
> {
    let blank = Seq::<(Tone, Seq<char>)>::empty();
    if !playing {
        seq![seq![(Tone::Dim, "No track is currently playing."@)]]
    } else {
        match status {
            LyricsFetchStatus::Fetching => seq![
                seq![(Tone::Normal, "Fetching lyrics from lrclib…"@)],
            ],
            LyricsFetchStatus::NotFound => seq![
                seq![(Tone::Normal, "No lyrics detected"@)],
                blank,
                seq![(Tone::Dim, "No lyrics found on lrclib for this track."@)],
            ],
            LyricsFetchStatus::Error(e) => seq![
                seq![(Tone::Normal, "No lyrics detected"@)],
                blank,
                seq![(Tone::Dim, "Error fetching lyrics: "@ + e@)],
                blank,
                seq![(Tone::Dim, "Press [Enter] to retry."@)],
            ],
            LyricsFetchStatus::Idle => seq![
                seq![(Tone::Normal, "No lyrics detected"@)],
                blank,
                seq![
                    (Tone::Dim, "Press "@),
                    (Tone::Accent, "[Enter]"@),
                    (Tone::Dim, " attempt to fetch."@),
                ],
                blank,
                seq![(Tone::Dim, "Note: lyrics may not be found for all songs"@)],
            ],
        }
    }
}

fn one(t: Tone, s: &str) -> (r: Vec<(Tone, String)>)
    ensures
        span_views(r@) == seq![(t, s@)],
{
    let v = vec![(t, s.to_owned())];
    assert(span_views(v@) =~= seq![(t, s@)]);
    v
}

/// The message shown in place of lyrics.
pub fn placeholder(playing: bool, status: &LyricsFetchStatus) -> (r: Vec<Vec<(Tone, String)>>)
    ensures
        message_views(r@) == placeholder_text(playing, *status),
{
    let blank: Vec<(Tone, String)> = Vec::new();
    let r = if !playing {
        vec![one(Tone::Dim, "No track is currently playing.")]
    } else {
        match status {
            LyricsFetchStatus::Fetching => vec![one(Tone::Normal, "Fetching lyrics from lrclib…")],
            LyricsFetchStatus::NotFound => vec![
                one(Tone::Normal, "No lyrics detected"),
                blank,
                one(Tone::Dim, "No lyrics found on lrclib for this track."),
            ],
            LyricsFetchStatus::Error(e) => {
                let mut msg = String::new();
                push_str(&mut msg, "Error fetching lyrics: ");
                push_str(&mut msg, e.as_str());
                let err_line = vec![(Tone::Dim, msg)];
                assert(span_views(err_line@) =~= seq![(Tone::Dim, "Error fetching lyrics: "@ + e@)]);
                vec![
                    one(Tone::Normal, "No lyrics detected"),
                    blank,
                    err_line,
                    Vec::new(),
                    one(Tone::Dim, "Press [Enter] to retry."),
                ]
            },
            LyricsFetchStatus::Idle => {
                let press = vec![
                    (Tone::Dim, "Press ".to_owned()),
                    (Tone::Accent, "[Enter]".to_owned()),
                    (Tone::Dim, " attempt to fetch.".to_owned()),
                ];
                assert(span_views(press@) =~= seq![
                    (Tone::Dim, "Press "@),
                    (Tone::Accent, "[Enter]"@),
                    (Tone::Dim, " attempt to fetch."@),
                ]);
                vec![
                    one(Tone::Normal, "No lyrics detected"),
                    blank,
                    press,
                    Vec::new(),
                    one(Tone::Dim, "Note: lyrics may not be found for all songs"),
                ]
            },
        }
    };
    assert(span_views(Seq::<(Tone, String)>::empty()) =~= Seq::<(Tone, Seq<char>)>::empty());
    assert(message_views(r@) =~= placeholder_text(playing, *status));
    r
}

/// "Lyrics [keys]".
pub fn lyrics_title(keys: &str) -> (r: String)
    ensures
        r@ == "Lyrics ["@ + keys@ + "]"@,
{
    let mut r = String::new();
    push_str(&mut r, "Lyrics [");
    push_str(&mut r, keys);
    push_str(&mut r, "]");
    r
}

/// The offset of timed lyrics: unless the user scrolled by hand, the
/// current line's first row is held half a screen from the top; the
/// offset never passes the largest one.  `row` is the number of wrapped
/// rows before the current line.
pub open spec fn timed_scroll_at(
    scroll: nat,
    manual: bool,
    current: Option<usize>,
    row: nat,
    visible: nat,
    max: nat,
) -> nat {
    let followed = if !manual && current is Some {
        let up: nat = if row >= visible / 2 {
            (row - visible / 2) as nat
        } else {
            0
        };
        if up < max {
            up
        } else {
            max
        }
    } else {
        scroll
    };
    if followed < max {
        followed
    } else {
        max
    }
}

pub fn timed_scroll(
    scroll: usize,
    manual: bool,
    current: Option<usize>,
    row: usize,
    visible: usize,
    max: usize,
) -> (r: usize)
    ensures
        r as nat == timed_scroll_at(
            scroll as nat,
            manual,
            current,
            row as nat,
            visible as nat,
            max as nat,
        ),
        r <= max,
{
    let mut s = scroll;
    if !manual && current.is_some() {
        let up = row.saturating_sub(visible / 2);
        s = if up < max {
            up
        } else {
            max
        };
    }
    if s < max {
        s
    } else {
        max
    }
}

/// While the panel follows the song and the content is long enough, the
/// current line's first row is on screen.
pub proof fn lemma_followed_line_shown(scroll: nat, current: usize, row: nat, visible: nat, max: nat)
    requires
        visible > 0,
        row <= max + visible - 1,
    ensures
        timed_scroll_at(scroll, false, Some(current), row, visible, max) <= row,
        row < timed_scroll_at(scroll, false, Some(current), row, visible, max) + visible,
{
}

} // verus!
