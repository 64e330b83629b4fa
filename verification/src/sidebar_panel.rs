//! The layout of the sidebar: the text of its rows, the filter box that
//! opens under a section header, and the scroll that keeps the cursor in
//! view.

use vstd::prelude::*;
use crate::library::SidebarExpanded;
use crate::text::push_str;
use crate::types::{SidebarItem, SidebarSection};
use crate::view::is_open;

verus! {

broadcast use vstd::string::group_string_axioms;

/// The section a header opens.
pub open spec fn header_section(item: SidebarItem) -> Option<SidebarSection> {
    match item {
        SidebarItem::Artists => Some(SidebarSection::Artists),
        SidebarItem::Albums => Some(SidebarSection::Albums),
        SidebarItem::Genres => Some(SidebarSection::Genres),
        SidebarItem::Playlists => Some(SidebarSection::Playlists),
        _ => None,
    }
}

/// The text of a row: a header shows ▼ when open, ▶ when closed, then the
/// section's name; other entries show their label.
pub open spec fn sidebar_row_text(item: SidebarItem, e: SidebarExpanded) -> Seq<char> {
    match header_section(item) {
        Some(sec) => (if is_open(e, item) {
            "▼ "@
        } else {
            "▶ "@
        }) + sec.key_text(),
        None => item.label_text(),
    }
}

pub fn sidebar_row(item: &SidebarItem, e: &SidebarExpanded) -> (r: String)
    ensures
        r@ == sidebar_row_text(*item, *e),
{
    let (open, name) = match item {
        SidebarItem::Artists => (e.artists, SidebarSection::Artists.key()),
        SidebarItem::Albums => (e.albums, SidebarSection::Albums.key()),
        SidebarItem::Genres => (e.genres, SidebarSection::Genres.key()),
        SidebarItem::Playlists => (e.playlists, SidebarSection::Playlists.key()),
        _ => {
            return item.label();
        },
    };
    let mut r = String::new();
    push_str(&mut r, if open {
        "▼ "
    } else {
        "▶ "
    });
    push_str(&mut r, name);
    r
}

/// A header under which the filter box opens: an open header of the
/// section being filtered, while a filter is typed or shown.
pub open spec fn opens_box(
    item: SidebarItem,
    e: SidebarExpanded,
    section: Option<SidebarSection>,
    filtering: bool,
) -> bool {
    &&& filtering
    &&& is_open(e, item)
    &&& header_section(item) is Some
    &&& section == header_section(item)
}

/// How many of `items` open a filter box.
pub open spec fn boxes_in(
    items: Seq<SidebarItem>,
    e: SidebarExpanded,
    section: Option<SidebarSection>,
    filtering: bool,
) -> nat
    decreases items.len(),
{
    if items.len() == 0 {
        0
    } else {
        boxes_in(items.drop_last(), e, section, filtering) + if opens_box(
            items.last(),
            e,
            section,
            filtering,
        ) {
            1nat
        } else {
            0nat
        }
    }
}

/// The screen line of entry `k`: each filter box above it takes three
/// lines (a box opens below its header).
pub open spec fn display_line(
    items: Seq<SidebarItem>,
    k: int,
    e: SidebarExpanded,
    section: Option<SidebarSection>,
    filtering: bool,
) -> nat {
    (k + 3 * boxes_in(items.take(k), e, section, filtering)) as nat
}

/// The number of screen lines: one per entry, and three per filter box
/// that has an entry below it.
pub open spec fn display_total(
    items: Seq<SidebarItem>,
    e: SidebarExpanded,
    section: Option<SidebarSection>,
    filtering: bool,
) -> nat {
    if items.len() == 0 {
        0
    } else {
        (items.len() + 3 * boxes_in(items.take(items.len() - 1), e, section, filtering)) as nat
    }
}

/// The rows of the sidebar: the text of each entry, whether a filter box
/// stands just above it, the screen line of the cursor's entry (0 when the
/// cursor is past the end), and the number of screen lines.
pub struct SidebarLayout {
    pub rows: Vec<String>,
    pub box_above: Vec<bool>,
    pub selected_line: usize,
    pub total: usize,
}

proof fn lemma_boxes_bound(
    items: Seq<SidebarItem>,
    e: SidebarExpanded,
    section: Option<SidebarSection>,
    filtering: bool,
)
    ensures
        boxes_in(items, e, section, filtering) <= items.len(),
    decreases items.len(),
{
    if items.len() > 0 {
        lemma_boxes_bound(items.drop_last(), e, section, filtering);
    }
}

fn opens_box_exec(
    item: &SidebarItem,
    e: &SidebarExpanded,
    section: Option<SidebarSection>,
    filtering: bool,
) -> (b: bool)
    ensures
        b == opens_box(*item, *e, section, filtering),
{
    if !filtering {
        return false;
    }
    match (item, section) {
        (SidebarItem::Artists, Some(SidebarSection::Artists)) => e.artists,
        (SidebarItem::Albums, Some(SidebarSection::Albums)) => e.albums,
        (SidebarItem::Genres, Some(SidebarSection::Genres)) => e.genres,
        (SidebarItem::Playlists, Some(SidebarSection::Playlists)) => e.playlists,
        _ => false,
    }
}

/// Lays out the sidebar.  The screen lines must be countable in `usize`.
pub fn sidebar_layout(
    items: &[SidebarItem],
    e: &SidebarExpanded,
    section: Option<SidebarSection>,
    filtering: bool,
    selected: usize,
) -> (r: SidebarLayout)
    requires
        items@.len() * 4 <= usize::MAX,
    ensures
        r.rows@.len() == items@.len(),
        forall|k: int| 0 <= k < items@.len() ==> #[trigger] r.rows@[k]@ == sidebar_row_text(items@[k], *e),
        r.box_above@.len() == items@.len(),
        forall|k: int|
            0 <= k < items@.len() ==> #[trigger] r.box_above@[k] == (k >= 1 && opens_box(
                items@[k - 1],
                *e,
                section,
                filtering,
            )),
        r.selected_line == if selected < items@.len() {
            display_line(items@, selected as int, *e, section, filtering)
        } else {
            0
        },
        r.total == display_total(items@, *e, section, filtering),
{
    let mut rows: Vec<String> = Vec::new();
    let mut box_above: Vec<bool> = Vec::new();
    let mut line: usize = 0;
    let mut sel_line: usize = 0;
    let mut prev_opens = false;
    let mut i: usize = 0;
    assert(items@.take(0) =~= Seq::<SidebarItem>::empty());
    while i < items.len()
        invariant
            i <= items@.len(),
            items@.len() * 4 <= usize::MAX,
            rows@.len() == i,
            box_above@.len() == i,
            forall|k: int| 0 <= k < i ==> #[trigger] rows@[k]@ == sidebar_row_text(items@[k], *e),
            forall|k: int|
                0 <= k < i ==> #[trigger] box_above@[k] == (k >= 1 && opens_box(
                    items@[k - 1],
                    *e,
                    section,
                    filtering,
                )),
            i >= 1 ==> prev_opens == opens_box(items@[i - 1], *e, section, filtering),
            i == 0 ==> !prev_opens,
            i == 0 ==> line == 0,
            i >= 1 ==> line == (i - 1) + 1 + 3 * boxes_in(
                items@.take(i - 1),
                *e,
                section,
                filtering,
            ),
            sel_line == if selected < i {
                display_line(items@, selected as int, *e, section, filtering)
            } else {
                0
            },
        decreases items@.len() - i,
    {
        proof {
            lemma_boxes_bound(items@.take(i as int), *e, section, filtering);
            if i >= 1 {
                assert(items@.take(i as int).drop_last() =~= items@.take(i - 1));
            }
        }
        let extra: usize = if prev_opens {
            3
        } else {
            0
        };
        let here = line + extra;
        assert(here == display_line(items@, i as int, *e, section, filtering));
        if selected == i {
            sel_line = here;
        }
        rows.push(sidebar_row(&items[i], e));
        box_above.push(prev_opens);
        prev_opens = opens_box_exec(&items[i], e, section, filtering);
        line = here + 1;
        i = i + 1;
    }
    SidebarLayout { rows, box_above, selected_line: sel_line, total: line }
}

/// Consecutive entries sit on consecutive lines, three apart where a filter
/// box opens between them, and the last entry takes the last line.
pub proof fn lemma_lines_follow(
    items: Seq<SidebarItem>,
    e: SidebarExpanded,
    section: Option<SidebarSection>,
    filtering: bool,
    k: int,
)
    requires
        0 <= k < items.len(),
    ensures
        k + 1 < items.len() ==> display_line(items, k + 1, e, section, filtering) == display_line(
            items,
            k,
            e,
            section,
            filtering,
        ) + 1 + if opens_box(items[k], e, section, filtering) {
            3int
        } else {
            0int
        },
        k + 1 == items.len() ==> display_line(items, k, e, section, filtering) + 1 == display_total(
            items,
            e,
            section,
            filtering,
        ),
{
    assert(items.take(k + 1).drop_last() =~= items.take(k));
}

/// The first shown line: held to the content, then moved the least that
/// brings the cursor's line into view.
pub open spec fn sidebar_offset_at(offset: nat, total: nat, sel: nat, visible: nat) -> nat {
    let o1: nat = if total <= visible {
        0
    } else if offset > total - visible {
        (total - visible) as nat
    } else {
        offset
    };
    if sel < o1 {
        sel
    } else if sel >= o1 + visible {
        (sel - (visible - 1)) as nat
    } else {
        o1
    }
}

pub fn sidebar_offset(offset: usize, total: usize, sel: usize, visible: usize) -> (r: usize)
    requires
        visible > 0,
        total + visible <= usize::MAX,
    ensures
        r as nat == sidebar_offset_at(offset as nat, total as nat, sel as nat, visible as nat),
{
    let o1 = if total <= visible {
        0
    } else if offset > total - visible {
        total - visible
    } else {
        offset
    };
    if sel < o1 {
        sel
    } else if sel >= o1 + visible {
        sel - (visible - 1)
    } else {
        o1
    }
}

/// The cursor's line is always on screen after the sidebar scrolls.
pub proof fn lemma_cursor_line_shown(offset: nat, total: nat, sel: nat, visible: nat)
    requires
        visible > 0,
    ensures
        sidebar_offset_at(offset, total, sel, visible) <= sel,
        sel < sidebar_offset_at(offset, total, sel, visible) + visible,
{
}

} // verus!
