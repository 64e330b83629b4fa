//! What the track list panel shows besides its rows: the panel title, the
//! summary line, the column header, how each row looks, and which row the
//! list starts at so that the row under the cursor (drawn taller) stays in
//! view.

use std::sync::Arc;
use vstd::prelude::*;
use crate::colors::{ColorScheme, Rgb};
use crate::rows::column_widths;
use crate::text::{decimal, push_decimal, push_repeat, push_str};
use crate::types::{duration_text, format_duration, PlayerState, SortField, SortOrder, Track};

verus! {

broadcast use vstd::string::group_string_axioms;

// ---------------------------------------------------------------------------
// Which row the list starts at
// ---------------------------------------------------------------------------

/// The lines taken by rows `a..b`.
pub open spec fn span(h: Seq<usize>, a: int, b: int) -> int
    decreases b - a,
{
    if a >= b {
        0
    } else {
        h[a] + span(h, a + 1, b)
    }
}

/// Splitting rows `a..b` at `m` splits their lines.
pub proof fn lemma_span_split(h: Seq<usize>, a: int, m: int, b: int)
    requires
        a <= m <= b,
    ensures
        span(h, a, b) == span(h, a, m) + span(h, m, b),
    decreases m - a,
{
    if a < m {
        lemma_span_split(h, a + 1, m, b);
    }
}

/// Lines are never negative, and more rows take no fewer lines.
pub proof fn lemma_span_monotone(h: Seq<usize>, a: int, b: int, c: int)
    requires
        a <= b <= c,
    ensures
        0 <= span(h, b, c) <= span(h, a, c),
    decreases c - a,
{
    if a < b {
        lemma_span_monotone(h, a + 1, b, c);
    } else if b < c {
        lemma_span_monotone(h, b + 1, b + 1, c);
    }
}

/// Rows `i..=s` take at least `visible` lines.
pub open spec fn fills(h: Seq<usize>, i: int, s: int, visible: int) -> bool {
    span(h, i, s + 1) >= visible
}

/// The first row of a list scrolled so that the rows up to row `s` end at
/// its bottom: one past the last row from which rows up to `s` fill the
/// `visible` lines, or the top when all of them do not.
pub open spec fn bottom_aligned(h: Seq<usize>, s: int, visible: int) -> int {
    if exists|i: int| 0 <= i <= s && fills(h, i, s, visible) {
        (choose|i: int|
            0 <= i <= s && fills(h, i, s, visible) && forall|j: int|
                i < j <= s ==> !fills(h, j, s, visible)) + 1
    } else {
        0
    }
}

/// The first row shown after the cursor moved to `sel`, when row `i` takes
/// `h[i]` lines, the list started at row `offset` and `visible` lines are
/// shown: a cursor above the view scrolls up to it, a cursor below the view
/// scrolls the list until the cursor's row ends at the bottom; otherwise
/// the list stays.
pub open spec fn scrolled_offset(h: Seq<usize>, sel: int, offset: int, visible: int) -> int {
    let n = h.len() as int;
    if n == 0 {
        offset
    } else {
        let s = if sel < n - 1 {
            sel
        } else {
            n - 1
        };
        let start = span(h, 0, s);
        let end = start + h[s];
        let top = span(
            h,
            0,
            if offset < n {
                offset
            } else {
                n
            },
        );
        if start < top {
            s
        } else if end > top + visible {
            bottom_aligned(h, s, visible)
        } else {
            offset
        }
    }
}

fn lines_before(h: &Vec<usize>, k: usize) -> (r: usize)
    requires
        k <= h@.len(),
        span(h@, 0, h@.len() as int) <= usize::MAX,
    ensures
        r == span(h@, 0, k as int),
{
    let mut total: usize = 0;
    let mut i: usize = 0;
    while i < k
        invariant
            i <= k <= h@.len(),
            span(h@, 0, h@.len() as int) <= usize::MAX,
            total == span(h@, 0, i as int),
        decreases k - i,
    {
        proof {
            lemma_span_split(h@, 0, i as int, i + 1);
            lemma_span_split(h@, 0, i + 1, h@.len() as int);
            lemma_span_monotone(h@, i + 1, i + 1, h@.len() as int);
            assert(span(h@, i as int, i + 1) == h@[i as int] + span(h@, i + 1, i + 1));
        }
        total = total + h[i];
        i = i + 1;
    }
    total
}

fn bottom_aligned_exec(h: &Vec<usize>, s: usize, visible: usize) -> (r: usize)
    requires
        s < h@.len(),
        span(h@, 0, h@.len() as int) <= usize::MAX,
    ensures
        r == bottom_aligned(h@, s as int, visible as int),
{
    let ghost hs = h@;
    let n = h.len();
    assert(s < n);
    let mut consumed: usize = 0;
    let mut idx = s + 1;
    while idx > 0
        invariant
            idx <= s + 1,
            s < hs.len(),
            hs == h@,
            span(hs, 0, hs.len() as int) <= usize::MAX,
            consumed == span(hs, idx as int, s + 1),
            forall|j: int| idx <= j <= s ==> !fills(hs, j, s as int, visible as int),
        decreases idx,
    {
        let i = idx - 1;
        proof {
            lemma_span_split(hs, 0, i as int, s + 1);
            lemma_span_split(hs, 0, s + 1, hs.len() as int);
            lemma_span_monotone(hs, 0, 0, i as int);
            lemma_span_monotone(hs, s + 1, s + 1, hs.len() as int);
            assert(span(hs, i as int, s + 1) == hs[i as int] + span(hs, i + 1, s + 1));
        }
        consumed = consumed + h[i];
        if consumed >= visible {
            proof {
                let ii = i as int;
                assert(0 <= ii <= s && fills(hs, ii, s as int, visible as int) && forall|j: int|
                    ii < j <= s ==> !fills(hs, j, s as int, visible as int));
                let w = choose|k: int|
                    0 <= k <= s && fills(hs, k, s as int, visible as int) && forall|j: int|
                        k < j <= s ==> !fills(hs, j, s as int, visible as int);
                assert(w == ii) by {
                    if w < ii {
                        assert(!fills(hs, ii, s as int, visible as int));
                    } else if w > ii {
                        assert(!fills(hs, w, s as int, visible as int));
                    }
                }
            }
            return i + 1;
        }
        idx = i;
    }
    0
}

/// The first row shown once the cursor is on `sel` (see `scrolled_offset`).
pub fn scroll_offset(heights: &Vec<usize>, sel: usize, offset: usize, visible: usize) -> (r: usize)
    requires
        span(heights@, 0, heights@.len() as int) + visible <= usize::MAX,
    ensures
        r == scrolled_offset(heights@, sel as int, offset as int, visible as int),
{
    let n = heights.len();
    if n == 0 {
        return offset;
    }
    let s = if sel < n - 1 {
        sel
    } else {
        n - 1
    };
    let start = lines_before(heights, s);
    proof {
        lemma_span_split(heights@, 0, s as int, n as int);
        lemma_span_split(heights@, s as int, s + 1, n as int);
        lemma_span_monotone(heights@, s + 1, s + 1, n as int);
        assert(span(heights@, s as int, s + 1) == heights@[s as int] + span(heights@, s + 1, s + 1));
    }
    let end = start + heights[s];
    let top = lines_before(heights, if offset < n {
        offset
    } else {
        n
    });
    proof {
        let o = if offset < n {
            offset as int
        } else {
            n as int
        };
        lemma_span_split(heights@, 0, o, n as int);
        lemma_span_monotone(heights@, o, o, n as int);
    }
    if start < top {
        s
    } else if end > top + visible {
        bottom_aligned_exec(heights, s, visible)
    } else {
        offset
    }
}

/// Scrolling the rows up to `s` to the bottom of the view, when row `s`
/// alone is shorter than the view, starts the list at or above row `s`
/// and shows rows through `s` within the view.
pub proof fn lemma_bottom_aligned_fits(h: Seq<usize>, s: int, visible: int)
    requires
        0 <= s < h.len(),
        !fills(h, s, s, visible),
    ensures
        bottom_aligned(h, s, visible) <= s,
        span(h, bottom_aligned(h, s, visible), s + 1) < visible,
{
    if exists|i: int| 0 <= i <= s && fills(h, i, s, visible) {
        let k0 = choose|k: int| 0 <= k <= s && fills(h, k, s, visible);
        lemma_last_filling_row(h, s, visible, k0);
        let i = choose|i: int|
            0 <= i <= s && fills(h, i, s, visible) && forall|j: int|
                i < j <= s ==> !fills(h, j, s, visible);
        assert(i < s);
        assert(!fills(h, i + 1, s, visible));
    } else {
        assert(!fills(h, 0, s, visible));
    }
}

/// When the cursor's row is at least a line tall and shorter than the
/// view, the row under the cursor is in view after scrolling: the list
/// starts at or above it and the rows from the first shown one to it fit.
pub proof fn lemma_cursor_row_in_view(h: Seq<usize>, sel: int, offset: int, visible: int)
    requires
        0 <= sel < h.len(),
        0 <= offset,
        1 <= h[sel] < visible,
    ensures
        scrolled_offset(h, sel, offset, visible) <= sel,
        span(h, scrolled_offset(h, sel, offset, visible), sel + 1) <= visible,
{
    let n = h.len() as int;
    let s = sel;
    let o = if offset < n {
        offset
    } else {
        n
    };
    lemma_span_split(h, 0, s, s + 1);
    assert(span(h, s, s + 1) == h[s] + span(h, s + 1, s + 1));
    let start = span(h, 0, s);
    let top = span(h, 0, o);
    if start < top {
    } else if start + h[s] > top + visible {
        lemma_bottom_aligned_fits(h, s, visible);
    } else {
        assert(offset <= s) by {
            if offset > s {
                lemma_span_split(h, 0, s + 1, o);
                lemma_span_monotone(h, s + 1, s + 1, o);
            }
        }
        lemma_span_split(h, 0, offset, s + 1);
    }
}

/// Among the rows from which rows up to `s` fill the view, there is a
/// last one.
proof fn lemma_last_filling_row(h: Seq<usize>, s: int, visible: int, k: int)
    requires
        0 <= k <= s,
        fills(h, k, s, visible),
    ensures
        exists|i: int|
            0 <= i <= s && fills(h, i, s, visible) && forall|j: int|
                i < j <= s ==> !fills(h, j, s, visible),
    decreases s - k,
{
    if forall|j: int| k < j <= s ==> !fills(h, j, s, visible) {
        assert(0 <= k <= s && fills(h, k, s, visible) && forall|j: int|
            k < j <= s ==> !fills(h, j, s, visible));
    } else {
        let j = choose|j: int| k < j <= s && fills(h, j, s, visible);
        lemma_last_filling_row(h, s, visible, j);
    }
}

// ---------------------------------------------------------------------------
// Texts of the panel
// ---------------------------------------------------------------------------

/// The panel title: " Tracks [2] — Artist ↑ ".
pub open spec fn tracks_title_text(jump_key: Seq<char>, f: SortField, o: SortOrder) -> Seq<char> {
    " Tracks ["@ + jump_key + "] — "@ + f.label_text() + " "@ + if o == SortOrder::Asc {
        "↑"@
    } else {
        "↓"@
    } + " "@
}

pub fn tracks_title(jump_key: &str, f: SortField, o: SortOrder) -> (r: String)
    ensures
        r@ == tracks_title_text(jump_key@, f, o),
{
    let mut r = String::new();
    push_str(&mut r, " Tracks [");
    push_str(&mut r, jump_key);
    push_str(&mut r, "] — ");
    push_str(&mut r, f.label());
    push_str(&mut r, " ");
    push_str(&mut r, if o == SortOrder::Asc {
        "↑"
    } else {
        "↓"
    });
    push_str(&mut r, " ");
    r
}

/// The total playing time of a list of tracks, in seconds.
pub open spec fn total_seconds(ts: Seq<Track>) -> int
    decreases ts.len(),
{
    if ts.len() == 0 {
        0
    } else {
        total_seconds(ts.drop_last()) + ts.last().duration
    }
}

/// The summary after the heading: "(12 tracks, 45:07)".
pub open spec fn summary_text(ts: Seq<Track>) -> Seq<char> {
    "("@ + decimal(ts.len()) + " track"@ + (if ts.len() == 1 {
        ""@
    } else {
        "s"@
    }) + ", "@ + duration_text(total_seconds(ts)) + ")"@
}

/// The summary of the shown tracks.  The running total must stay within
/// `i64`.
pub fn summary(tracks: &Vec<Arc<Track>>) -> (r: String)
    requires
        forall|k: int|
            0 <= k <= tracks@.len() ==> i64::MIN <= #[trigger] total_seconds(
                crate::background::shared_view(tracks@).take(k),
            ) <= i64::MAX,
    ensures
        r@ == summary_text(crate::background::shared_view(tracks@)),
{
    let ghost ts = crate::background::shared_view(tracks@);
    let mut total: i64 = 0;
    let mut i: usize = 0;
    assert(ts.take(0) =~= Seq::<Track>::empty());
    while i < tracks.len()
        invariant
            i <= tracks@.len() == ts.len(),
            ts == crate::background::shared_view(tracks@),
            forall|k: int|
                0 <= k <= tracks@.len() ==> i64::MIN <= #[trigger] total_seconds(ts.take(k))
                    <= i64::MAX,
            total == total_seconds(ts.take(i as int)),
        decreases tracks@.len() - i,
    {
        assert(ts.take(i + 1).drop_last() =~= ts.take(i as int));
        assert(total_seconds(ts.take(i + 1)) == total_seconds(ts.take(i as int)) + ts[i as int].duration);
        total = total + tracks[i].duration;
        i = i + 1;
    }
    assert(ts.take(ts.len() as int) =~= ts);
    let n = tracks.len();
    let mut r = String::new();
    push_str(&mut r, "(");
    push_decimal(&mut r, n as u64);
    push_str(&mut r, " track");
    push_str(&mut r, if n == 1 {
        ""
    } else {
        "s"
    });
    push_str(&mut r, ", ");
    let d = format_duration(total);
    push_str(&mut r, d.as_str());
    push_str(&mut r, ")");
    r
}

/// `s` padded with spaces to `n` characters.
pub open spec fn left_aligned(s: Seq<char>, n: nat) -> Seq<char> {
    if s.len() >= n {
        s
    } else {
        s + Seq::new((n - s.len()) as nat, |_i: int| ' ')
    }
}

fn push_left_aligned(r: &mut String, s: &str, n: usize)
    ensures
        final(r)@ == old(r)@ + left_aligned(s@, n as nat),
{
    let k = crate::text::chars_of(s).len();
    push_str(r, s);
    if k < n {
        push_repeat(r, ' ', n - k);
    }
}

/// The column header of a track list `panel` columns wide.
pub open spec fn header_text(panel: nat) -> Seq<char> {
    let (tw, aw, bw) = column_widths(panel);
    "  ★  "@ + left_aligned("Title"@, tw) + "  "@ + left_aligned("Artist"@, aw) + "  "@
        + left_aligned("Album"@, bw) + " "@ + " Dur"@
}

pub fn header_line(panel: usize) -> (r: String)
    requires
        panel * 32 <= usize::MAX,
    ensures
        r@ == header_text(panel as nat),
{
    let t = panel * 32 / 100;
    let tw = if t >= 5 {
        t - 5
    } else {
        0
    };
    let a = panel * 28 / 100;
    let mut r = String::new();
    push_str(&mut r, "  ★  ");
    push_left_aligned(&mut r, "Title", tw);
    push_str(&mut r, "  ");
    push_left_aligned(&mut r, "Artist", a);
    push_str(&mut r, "  ");
    push_left_aligned(&mut r, "Album", a);
    push_str(&mut r, " ");
    push_str(&mut r, " Dur");
    r
}

/// The column header of the layout with a genre column: title 28%, artist
/// and album 22% each, genre 16% of the panel, and the duration heading
/// right-aligned in four columns.
pub open spec fn genre_header_text(panel: nat) -> Seq<char> {
    left_aligned("Title"@, panel * 28 / 100) + "  "@ + left_aligned("Artist"@, panel * 22 / 100)
        + "  "@ + left_aligned("Album"@, panel * 22 / 100) + "  "@ + left_aligned(
        "Genre"@,
        panel * 16 / 100,
    ) + "  "@ + " Dur"@
}

pub fn genre_header_line(panel: usize) -> (r: String)
    requires
        panel * 28 <= usize::MAX,
    ensures
        r@ == genre_header_text(panel as nat),
{
    let mut r = String::new();
    push_left_aligned(&mut r, "Title", panel * 28 / 100);
    push_str(&mut r, "  ");
    push_left_aligned(&mut r, "Artist", panel * 22 / 100);
    push_str(&mut r, "  ");
    push_left_aligned(&mut r, "Album", panel * 22 / 100);
    push_str(&mut r, "  ");
    push_left_aligned(&mut r, "Genre", panel * 16 / 100);
    push_str(&mut r, "  ");
    push_str(&mut r, " Dur");
    r
}

/// The panel title while a playlist is shown: its name and the keys that
/// reorder, remove and add tracks.
pub open spec fn playlist_title_text(
    name: Seq<char>,
    up: Seq<char>,
    down: Seq<char>,
    remove: Seq<char>,
    add: Seq<char>,
) -> Seq<char> {
    " ♪ "@ + name + " [playlist]  "@ + up + "/"@ + down + ":move  "@ + remove + ":remove  "@ + add
        + ":add-to "@
}

pub fn playlist_title(name: &str, up: &str, down: &str, remove: &str, add: &str) -> (r: String)
    ensures
        r@ == playlist_title_text(name@, up@, down@, remove@, add@),
{
    let mut r = String::new();
    push_str(&mut r, " ♪ ");
    push_str(&mut r, name);
    push_str(&mut r, " [playlist]  ");
    push_str(&mut r, up);
    push_str(&mut r, "/");
    push_str(&mut r, down);
    push_str(&mut r, ":move  ");
    push_str(&mut r, remove);
    push_str(&mut r, ":remove  ");
    push_str(&mut r, add);
    push_str(&mut r, ":add-to ");
    r
}

/// " position/count " in the corner of the list, the position counted
/// from one.
pub fn position_indicator(index: usize, count: usize) -> (r: String)
    requires
        index < u64::MAX,
    ensures
        r@ == " "@ + decimal((index + 1) as nat) + "/"@ + decimal(count as nat) + " "@,
{
    let mut r = String::new();
    push_str(&mut r, " ");
    push_decimal(&mut r, index as u64 + 1);
    push_str(&mut r, "/");
    push_decimal(&mut r, count as u64);
    push_str(&mut r, " ");
    r
}

// ---------------------------------------------------------------------------
// How a row looks
// ---------------------------------------------------------------------------

/// The colours, weight and marker of a row of the track list or queue.
#[derive(Debug, Clone, Copy, PartialEq, Eq, Structural)]
pub struct RowLook {
    pub bg: Rgb,
    pub fg: Rgb,
    pub bold: bool,
    pub icon: char,
}

/// How a row looks: selected rows stand out (most in the focused panel),
/// the playing track has its own colour and a play or pause marker, and
/// rows of a multi-selection are marked with `*`.
pub open spec fn row_look_of(
    c: ColorScheme,
    selected: bool,
    multi: bool,
    playing: bool,
    active: bool,
    state: PlayerState,
) -> RowLook {
    RowLook {
        bg: if selected || multi {
            c.selection_bg
        } else {
            c.background
        },
        fg: if selected && active {
            c.highlight
        } else if selected {
            c.accent2
        } else if multi {
            c.accent
        } else if playing {
            c.playing
        } else {
            c.foreground
        },
        bold: (selected && active) || multi,
        icon: if playing {
            match state {
                PlayerState::Playing => '▶',
                PlayerState::Paused => '⏸',
                PlayerState::Stopped => ' ',
            }
        } else if multi {
            '*'
        } else {
            ' '
        },
    }
}

pub fn row_look(
    c: &ColorScheme,
    selected: bool,
    multi: bool,
    playing: bool,
    active: bool,
    state: PlayerState,
) -> (r: RowLook)
    ensures
        r == row_look_of(*c, selected, multi, playing, active, state),
{
    RowLook {
        bg: if selected || multi {
            c.selection_bg
        } else {
            c.background
        },
        fg: if selected && active {
            c.highlight
        } else if selected {
            c.accent2
        } else if multi {
            c.accent
        } else if playing {
            c.playing
        } else {
            c.foreground
        },
        bold: (selected && active) || multi,
        icon: if playing {
            match state {
                PlayerState::Playing => '▶',
                PlayerState::Paused => '⏸',
                PlayerState::Stopped => ' ',
            }
        } else if multi {
            '*'
        } else {
            ' '
        },
    }
}


// ---------------------------------------------------------------------------
// The search box above the list, and the banner
// ---------------------------------------------------------------------------

/// The title of the search box: plain while typing or empty; with a typed
/// query and a known count of hits, "search  N result(s)".
pub open spec fn search_box_title_text(active: bool, has_query: bool, count: Option<usize>) -> Seq<
    char,
> {
    if active || !has_query {
        " search "@
    } else {
        " search"@ + match count {
            Some(n) => "  "@ + decimal(n as nat) + " result"@ + if n == 1 {
                ""@
            } else {
                "s"@
            },
            None => Seq::empty(),
        } + " "@
    }
}

pub fn search_box_title(active: bool, has_query: bool, count: Option<usize>) -> (r: String)
    ensures
        r@ == search_box_title_text(active, has_query, count),
{
    if active || !has_query {
        return " search ".to_owned();
    }
    let mut r = String::new();
    push_str(&mut r, " search");
    if let Some(n) = count {
        push_str(&mut r, "  ");
        push_decimal(&mut r, n as u64);
        push_str(&mut r, " result");
        push_str(&mut r, if n == 1 {
            ""
        } else {
            "s"
        });
    }
    push_str(&mut r, " ");
    r
}

/// The text inside a search box: the query with a block cursor while it is
/// typed into, the query alone once typed, else a hint.
pub open spec fn search_box_text_of(active: bool, query: Seq<char>) -> Seq<char> {
    if active {
        query + "█"@
    } else if query.len() > 0 {
        query
    } else {
        "press / to search…"@
    }
}

pub fn search_box_text(active: bool, query: &str) -> (r: String)
    ensures
        r@ == search_box_text_of(active, query@),
{
    if active {
        let mut r = String::new();
        push_str(&mut r, query);
        push_str(&mut r, "█");
        r
    } else if !query.is_empty() {
        query.to_owned()
    } else {
        "press / to search…".to_owned()
    }
}

/// The left part of the banner, with the keys that open the help.
pub fn banner_text(help_keys: &str) -> (r: String)
    ensures
        r@ == " lyre v0.1.0 ─ a music player & library manager. press ["@ + help_keys@
            + "] for help."@,
{
    let mut r = String::new();
    push_str(&mut r, " lyre v0.1.0 ─ a music player & library manager. press [");
    push_str(&mut r, help_keys);
    push_str(&mut r, "] for help.");
    r
}

} // verus!
