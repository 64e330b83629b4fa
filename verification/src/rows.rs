//! The rows of the track list: each track as one line cut to the column
//! widths, and as the taller block of wrapped lines shown for the track
//! under the cursor.

use std::sync::Arc;
use vstd::prelude::*;
use crate::text::{chars_of, push_repeat, push_str};
use crate::types::{duration_text, Track};
use crate::util::{padded, pad_to, spaces, string_views, truncate_field, truncated, wrap_field, wrapped};

verus! {

broadcast use vstd::string::group_string_axioms;

/// The widths of the title, artist and album columns of a track list
/// `panel` columns wide: about a third for the title (less its margin),
/// somewhat less for the others.
pub open spec fn column_widths(panel: nat) -> (nat, nat, nat) {
    let t = panel * 32 / 100;
    (if t >= 5 {
        (t - 5) as nat
    } else {
        0
    }, panel * 28 / 100, panel * 28 / 100)
}

/// The mark of a favorite track, or a blank.
pub open spec fn favorite_mark(fav: bool) -> Seq<char> {
    if fav {
        "★"@
    } else {
        " "@
    }
}

/// `s` right-aligned in `n` characters.
pub open spec fn right_aligned(s: Seq<char>, n: nat) -> Seq<char> {
    if s.len() >= n {
        s
    } else {
        spaces((n - s.len()) as nat) + s
    }
}

/// Columns set apart by two spaces, after a margin of two.
pub open spec fn joined_cells(cells: Seq<Seq<char>>) -> Seq<char>
    decreases cells.len(),
{
    if cells.len() == 0 {
        Seq::empty()
    } else {
        joined_cells(cells.drop_last()) + "  "@ + cells.last()
    }
}

/// The single line of a track: mark, title, artist and album cut to their
/// columns, and the duration.
pub open spec fn collapsed_row(t: Track, panel: nat) -> Seq<char> {
    let (tw, aw, bw) = column_widths(panel);
    joined_cells(
        seq![
            favorite_mark(t.favorite),
            truncated(t.shown_title(), tw),
            truncated(t.shown_artist(), aw),
            truncated(t.shown_album(), bw),
            right_aligned(duration_text(t.duration as int), 4),
        ],
    )
}

/// Line `r` of a wrapped column `w` wide: the wrapped line padded to the
/// column, or blank past the column's lines.
pub open spec fn wrapped_cell(lines: Seq<Seq<char>>, r: int, w: nat) -> Seq<char> {
    if r < lines.len() {
        padded(lines[r], w)
    } else {
        spaces(w)
    }
}

/// The number of lines of the wrapped block: as many as the longest
/// column needs, at least one.
pub open spec fn block_height(a: nat, b: nat, c: nat) -> nat {
    let m = if a >= b {
        a
    } else {
        b
    };
    let m = if m >= c {
        m
    } else {
        c
    };
    if m >= 1 {
        m
    } else {
        1
    }
}

/// Line `r` of the wrapped block of a track: the columns' wrapped lines,
/// with the mark and the duration on the first line only.
pub open spec fn expanded_row(t: Track, panel: nat, r: int) -> Seq<char> {
    let (tw, aw, bw) = column_widths(panel);
    let cells = seq![
        if r == 0 {
            favorite_mark(t.favorite)
        } else {
            " "@
        },
        wrapped_cell(wrapped(t.shown_title(), tw), r, tw),
        wrapped_cell(wrapped(t.shown_artist(), aw), r, aw),
        wrapped_cell(wrapped(t.shown_album(), bw), r, bw),
    ];
    if r == 0 {
        joined_cells(cells.push(right_aligned(duration_text(t.duration as int), 4)))
    } else {
        joined_cells(cells)
    }
}

/// The wrapped block of a track.
pub open spec fn expanded_rows(t: Track, panel: nat) -> Seq<Seq<char>> {
    let (tw, aw, bw) = column_widths(panel);
    let n = block_height(
        wrapped(t.shown_title(), tw).len(),
        wrapped(t.shown_artist(), aw).len(),
        wrapped(t.shown_album(), bw).len(),
    );
    Seq::new(n, |r: int| expanded_row(t, panel, r))
}

fn widths(panel: usize) -> (r: (usize, usize, usize))
    requires
        panel * 32 <= usize::MAX,
    ensures
        r.0 as nat == column_widths(panel as nat).0,
        r.1 as nat == column_widths(panel as nat).1,
        r.2 as nat == column_widths(panel as nat).2,
{
    let t = panel * 32 / 100;
    let tw = if t >= 5 {
        t - 5
    } else {
        0
    };
    let a = panel * 28 / 100;
    (tw, a, a)
}

fn push_cell(line: &mut String, cell: &str)
    ensures
        final(line)@ == old(line)@ + "  "@ + cell@,
{
    push_str(line, "  ");
    push_str(line, cell);
}

fn aligned_duration(t: &Track) -> (r: String)
    ensures
        r@ == right_aligned(duration_text(t.duration as int), 4),
{
    let d = t.duration_str();
    let n = chars_of(d.as_str()).len();
    let mut r = String::new();
    if n < 4 {
        push_repeat(&mut r, ' ', 4 - n);
    }
    push_str(&mut r, d.as_str());
    assert(spaces((4 - n) as nat) =~= Seq::new((4 - n) as nat, |_i: int| ' '));
    r
}

fn mark(fav: bool) -> (r: &'static str)
    ensures
        r@ == favorite_mark(fav),
{
    if fav {
        "★"
    } else {
        " "
    }
}

/// The single line of a track for a track list `panel` columns wide.
pub fn collapsed_line(t: &Track, panel: usize) -> (r: String)
    requires
        panel * 32 <= usize::MAX,
    ensures
        r@ == collapsed_row(*t, panel as nat),
{
    let (tw, aw, bw) = widths(panel);
    let title = truncate_field(t.display_title(), tw);
    let artist = truncate_field(t.display_artist(), aw);
    let album = truncate_field(t.display_album(), bw);
    let dur = aligned_duration(t);
    let mut line = String::new();
    push_cell(&mut line, mark(t.favorite));
    push_cell(&mut line, title.as_str());
    push_cell(&mut line, artist.as_str());
    push_cell(&mut line, album.as_str());
    push_cell(&mut line, dur.as_str());
    proof {
        let cells = seq![
            favorite_mark(t.favorite),
            truncated(t.shown_title(), tw as nat),
            truncated(t.shown_artist(), aw as nat),
            truncated(t.shown_album(), bw as nat),
            right_aligned(duration_text(t.duration as int), 4),
        ];
        assert(cells.drop_last().drop_last().drop_last().drop_last().drop_last() =~= Seq::<
            Seq<char>,
        >::empty());
        reveal_with_fuel(joined_cells, 6);
        assert(line@ =~= joined_cells(cells));
    }
    line
}

fn cell_at(lines: &Vec<String>, r: usize, w: usize) -> (c: String)
    ensures
        c@ == wrapped_cell(string_views(lines@), r as int, w as nat),
{
    if r < lines.len() {
        pad_to(lines[r].as_str(), w)
    } else {
        let mut s = String::new();
        push_repeat(&mut s, ' ', w);
        assert(s@ =~= spaces(w as nat));
        s
    }
}

/// The wrapped block of a track for a track list `panel` columns wide.
pub fn expanded_lines(t: &Track, panel: usize) -> (r: Vec<String>)
    requires
        panel * 32 <= usize::MAX,
    ensures
        string_views(r@) == expanded_rows(*t, panel as nat),
{
    let (tw, aw, bw) = widths(panel);
    let tc = wrap_field(t.display_title(), tw);
    let ac = wrap_field(t.display_artist(), aw);
    let bc = wrap_field(t.display_album(), bw);
    let mut n = if tc.len() >= ac.len() {
        tc.len()
    } else {
        ac.len()
    };
    if bc.len() > n {
        n = bc.len();
    }
    if n < 1 {
        n = 1;
    }
    let ghost target = expanded_rows(*t, panel as nat);
    assert(n == target.len());
    let dur = aligned_duration(t);
    let mut out: Vec<String> = Vec::new();
    let mut r: usize = 0;
    while r < n
        invariant
            r <= n == target.len(),
            target == expanded_rows(*t, panel as nat),
            tw as nat == column_widths(panel as nat).0,
            aw as nat == column_widths(panel as nat).1,
            bw as nat == column_widths(panel as nat).2,
            string_views(tc@) == wrapped(t.shown_title(), tw as nat),
            string_views(ac@) == wrapped(t.shown_artist(), aw as nat),
            string_views(bc@) == wrapped(t.shown_album(), bw as nat),
            dur@ == right_aligned(duration_text(t.duration as int), 4),
            string_views(out@) == target.take(r as int),
        decreases n - r,
    {
        let tcell = cell_at(&tc, r, tw);
        let acell = cell_at(&ac, r, aw);
        let bcell = cell_at(&bc, r, bw);
        let mut line = String::new();
        push_cell(&mut line, if r == 0 {
            mark(t.favorite)
        } else {
            " "
        });
        push_cell(&mut line, tcell.as_str());
        push_cell(&mut line, acell.as_str());
        push_cell(&mut line, bcell.as_str());
        if r == 0 {
            push_cell(&mut line, dur.as_str());
        }
        proof {
            let cells = seq![
                if r == 0 {
                    favorite_mark(t.favorite)
                } else {
                    " "@
                },
                wrapped_cell(wrapped(t.shown_title(), tw as nat), r as int, tw as nat),
                wrapped_cell(wrapped(t.shown_artist(), aw as nat), r as int, aw as nat),
                wrapped_cell(wrapped(t.shown_album(), bw as nat), r as int, bw as nat),
            ];
            reveal_with_fuel(joined_cells, 6);
            assert(cells.drop_last().drop_last().drop_last().drop_last() =~= Seq::<
                Seq<char>,
            >::empty());
            if r == 0 {
                let c5 = cells.push(right_aligned(duration_text(t.duration as int), 4));
                assert(c5.drop_last() =~= cells);
                assert(line@ =~= joined_cells(c5));
            } else {
                assert(line@ =~= joined_cells(cells));
            }
            assert(line@ == target[r as int]);
        }
        let ghost prev = out@;
        let ghost lv = line@;
        out.push(line);
        assert(string_views(out@) =~= string_views(prev).push(lv));
        assert(target.take(r + 1) =~= target.take(r as int).push(target[r as int]));
        r = r + 1;
    }
    assert(target.take(n as int) =~= target);
    out
}

/// The single line and the wrapped block of each track, for a track list
/// `panel` columns wide.
pub fn track_rows(tracks: &Vec<Arc<Track>>, panel: usize) -> (r: Vec<(String, Vec<String>)>)
    requires
        panel * 32 <= usize::MAX,
    ensures
        r@.len() == tracks@.len(),
        forall|i: int|
            0 <= i < tracks@.len() ==> r@[i].0@ == collapsed_row(*tracks@[i], panel as nat)
                && string_views(r@[i].1@) == expanded_rows(*tracks@[i], panel as nat),
{
    let mut out: Vec<(String, Vec<String>)> = Vec::new();
    let mut i: usize = 0;
    while i < tracks.len()
        invariant
            i <= tracks@.len(),
            panel * 32 <= usize::MAX,
            out@.len() == i,
            forall|j: int|
                0 <= j < i ==> out@[j].0@ == collapsed_row(*tracks@[j], panel as nat)
                    && string_views(out@[j].1@) == expanded_rows(*tracks@[j], panel as nat),
        decreases tracks@.len() - i,
    {
        let t = &*tracks[i];
        out.push((collapsed_line(t, panel), expanded_lines(t, panel)));
        i = i + 1;
    }
    out
}

} // verus!
