//! The content of the library search popup: a line per hit, the popup's
//! size, and the scroll that keeps the chosen hit in view.

use vstd::prelude::*;
use crate::geometry::{min_u16, sat_sub, Area};
use crate::text::{chars_of, push_char, push_str};
use crate::types::GlobalSearchResult;

verus! {

broadcast use vstd::string::group_string_axioms;

/// The label of a hit: an icon for its kind, then its name ("title — artist"
/// for a track).
pub open spec fn result_label_text(r: GlobalSearchResult) -> Seq<char> {
    match r {
        GlobalSearchResult::Track(t) => "🎵 "@ + t.shown_title() + " — "@ + t.shown_artist(),
        GlobalSearchResult::Album(n) => "💿 "@ + n@,
        GlobalSearchResult::Artist(n) => "🎤 "@ + n@,
        GlobalSearchResult::Playlist(n) => "📋 "@ + n@,
        GlobalSearchResult::Genre(n) => "🎸 "@ + n@,
    }
}

pub fn result_label(r: &GlobalSearchResult) -> (s: String)
    ensures
        s@ == result_label_text(*r),
{
    let mut s = String::new();
    match r {
        GlobalSearchResult::Track(t) => {
            push_str(&mut s, "🎵 ");
            push_str(&mut s, t.display_title());
            push_str(&mut s, " — ");
            push_str(&mut s, t.display_artist());
        },
        GlobalSearchResult::Album(n) => {
            push_str(&mut s, "💿 ");
            push_str(&mut s, n.as_str());
        },
        GlobalSearchResult::Artist(n) => {
            push_str(&mut s, "🎤 ");
            push_str(&mut s, n.as_str());
        },
        GlobalSearchResult::Playlist(n) => {
            push_str(&mut s, "📋 ");
            push_str(&mut s, n.as_str());
        },
        GlobalSearchResult::Genre(n) => {
            push_str(&mut s, "🎸 ");
            push_str(&mut s, n.as_str());
        },
    }
    s
}

/// A line of the result list: a hit with its index, or a note.
#[derive(Debug, Clone)]
pub struct SearchLine {
    pub text: String,
    pub index: Option<usize>,
}

pub open spec fn line_views(ls: Seq<SearchLine>) -> Seq<(Seq<char>, Option<usize>)> {
    ls.map_values(|l: SearchLine| (l.text@, l.index))
}

/// One line per hit, in order; "No results found." when nothing matched a
/// typed query; nothing at all before a query is typed.
pub open spec fn search_content_text(results: Seq<GlobalSearchResult>, query_empty: bool) -> Seq<
    (Seq<char>, Option<usize>),
> {
    if results.len() == 0 && !query_empty {
        seq![("No results found."@, None)]
    } else {
        Seq::new(results.len(), |i: int| (result_label_text(results[i]), Some(i as usize)))
    }
}

pub fn search_content(results: &[GlobalSearchResult], query_empty: bool) -> (r: Vec<SearchLine>)
    ensures
        line_views(r@) == search_content_text(results@, query_empty),
{
    let mut out: Vec<SearchLine> = Vec::new();
    if results.len() == 0 && !query_empty {
        out.push(SearchLine { text: "No results found.".to_owned(), index: None });
        assert(line_views(out@) =~= search_content_text(results@, query_empty));
        return out;
    }
    let mut i: usize = 0;
    while i < results.len()
        invariant
            i <= results@.len(),
            line_views(out@) =~= Seq::new(
                i as nat,
                |k: int| (result_label_text(results@[k]), Some(k as usize)),
            ),
        decreases results@.len() - i,
    {
        let text = result_label(&results[i]);
        let ghost before = out@;
        out.push(SearchLine { text, index: Some(i) });
        assert(line_views(out@) =~= line_views(before).push(
            (result_label_text(results@[i as int]), Some(i)),
        ));
        i = i + 1;
    }
    assert(line_views(out@) =~= search_content_text(results@, query_empty));
    out
}

/// The popup: half the area's width but at least 40 columns; tall enough
/// for its border, the query box, the lines and a footer, held to four
/// fifths of the area; its top 15% down the area.
pub open spec fn search_popup_at(area: Area, lines: nat, with_footer: bool) -> Area {
    let footer: nat = if with_footer {
        1
    } else {
        0
    };
    let natural: int = 5 + lines as int + footer as int;
    let max_h: int = area.height * 80 / 100;
    let h1: int = if natural < max_h {
        natural
    } else {
        max_h
    };
    let h2: int = if h1 < area.height {
        h1
    } else {
        area.height as int
    };
    let half: int = area.width * 50 / 100;
    let w1: int = if half > 40 {
        half
    } else {
        40
    };
    let w: int = if w1 < area.width {
        w1
    } else {
        area.width as int
    };
    let top_gap: int = area.height * 15 / 100;
    let room: int = area.height - top_gap;
    let h: int = if h2 < room {
        h2
    } else {
        room
    };
    Area {
        x: (area.x + (area.width - w) / 2) as u16,
        y: (area.y + top_gap) as u16,
        width: w as u16,
        height: h as u16,
    }
}

/// Whether the popup has a footer line: when there are hits or a query.
pub open spec fn has_footer(has_results: bool, query_empty: bool) -> bool {
    has_results || !query_empty
}

pub fn search_popup(area: Area, lines: usize, with_footer: bool) -> (r: Area)
    requires
        area.fits(),
        lines + 6 <= u16::MAX,
        area.height * 80 <= u16::MAX,
        area.width * 50 <= u16::MAX,
    ensures
        r == search_popup_at(area, lines as nat, with_footer),
        area.holds(r),
{
    let footer: u16 = if with_footer {
        1
    } else {
        0
    };
    let natural: u16 = 2 + 3 + lines as u16 + footer;
    let max_h: u16 = area.height * 80 / 100;
    let h1 = if natural < max_h {
        natural
    } else {
        max_h
    };
    let h2 = if h1 < area.height {
        h1
    } else {
        area.height
    };
    let half: u16 = area.width * 50 / 100;
    let w1 = if half > 40 {
        half
    } else {
        40
    };
    let w = if w1 < area.width {
        w1
    } else {
        area.width
    };
    let top_gap: u16 = area.height * 15 / 100;
    let room = area.height - top_gap;
    let h = if h2 < room {
        h2
    } else {
        room
    };
    Area { x: area.x + (area.width - w) / 2, y: area.y + top_gap, width: w, height: h }
}

/// The line of the chosen hit: its own index when it is a hit, else the
/// first line.
pub fn selected_line(count: usize, selected: usize) -> (r: usize)
    ensures
        r == if selected < count {
            selected
        } else {
            0
        },
{
    if selected < count {
        selected
    } else {
        0
    }
}

/// The line that `selected_line` picks for a chosen hit is the line that
/// shows that hit.
pub proof fn lemma_selected_line_holds_choice(
    results: Seq<GlobalSearchResult>,
    query_empty: bool,
    selected: usize,
)
    requires
        selected < results.len(),
    ensures
        search_content_text(results, query_empty)[selected as int] == (
            result_label_text(results[selected as int]),
            Some(selected),
        ),
{
}

/// The first shown line: none scrolled while everything fits, else the
/// chosen line held half a screen from the top, without passing the end.
pub open spec fn search_scroll_at(total: nat, visible: nat, sel: nat) -> nat {
    if total <= visible {
        0
    } else {
        let half = visible / 2;
        let up: nat = if sel >= half {
            (sel - half) as nat
        } else {
            0
        };
        let most = (total - visible) as nat;
        if up < most {
            up
        } else {
            most
        }
    }
}

pub fn search_scroll(total: usize, visible: usize, sel: usize) -> (r: usize)
    ensures
        r as nat == search_scroll_at(total as nat, visible as nat, sel as nat),
{
    if total <= visible {
        0
    } else {
        let up = sel.saturating_sub(visible / 2);
        let most = total - visible;
        if up < most {
            up
        } else {
            most
        }
    }
}

/// The chosen line is always in view, and the view never passes the end.
pub proof fn lemma_selected_line_shown(total: nat, visible: nat, sel: nat)
    requires
        sel < total,
        visible > 0,
    ensures
        search_scroll_at(total, visible, sel) <= sel,
        sel < search_scroll_at(total, visible, sel) + visible,
        total > visible ==> search_scroll_at(total, visible, sel) + visible <= total,
{
}

/// `s` cut to `max` characters with a trailing ellipsis when it is longer.
pub open spec fn cut_chars(s: Seq<char>, max: nat) -> Seq<char> {
    if s.len() > max {
        s.take(if max >= 1 {
            max - 1
        } else {
            0
        }) + "…"@
    } else {
        s
    }
}

/// The line drawn for a hit: a bullet on the chosen one, the label cut to
/// the width.
pub open spec fn result_row_text(text: Seq<char>, selected: bool, max: nat) -> Seq<char> {
    " "@ + (if selected {
        "• "@
    } else {
        "  "@
    }) + cut_chars(text, max)
}

pub fn result_row(text: &str, selected: bool, max: usize) -> (r: String)
    ensures
        r@ == result_row_text(text@, selected, max as nat),
{
    let mut r = String::new();
    push_str(&mut r, " ");
    push_str(&mut r, if selected {
        "• "
    } else {
        "  "
    });
    let cs = chars_of(text);
    if cs.len() > max {
        let keep: usize = if max >= 1 {
            max - 1
        } else {
            0
        };
        let ghost start = r@;
        let mut i: usize = 0;
        while i < keep
            invariant
                keep < cs@.len(),
                i <= keep,
                r@ == start + cs@.take(i as int),
            decreases keep - i,
        {
            push_char(&mut r, cs[i]);
            assert(cs@.take(i + 1) =~= cs@.take(i as int).push(cs@[i as int]));
            i = i + 1;
        }
        push_str(&mut r, "…");
        assert(r@ =~= start + (cs@.take(keep as int) + "…"@));
    } else {
        push_str(&mut r, text);
    }
    r
}

} // verus!
