//! The content of the track information popup: the lines it shows, where
//! it scrolls to, and its title and footer.

use vstd::prelude::*;
use crate::metadata::FieldValues;
use crate::text::{decimal, push_decimal, push_str};
use crate::types::{EditField, Panel};

verus! {

broadcast use vstd::string::group_string_axioms;

/// How a line of the popup is drawn.
#[derive(Debug, Clone, Copy, PartialEq, Eq, Structural)]
pub enum InfoStyle {
    Blank,
    Label,
    Active,
    Title,
    Value,
    Dim,
}

/// One line of the popup.
#[derive(Debug, Clone)]
pub struct InfoLine {
    pub style: InfoStyle,
    pub text: String,
}

/// The lines as (style, text) pairs.
pub open spec fn info_views(ls: Seq<InfoLine>) -> Seq<(InfoStyle, Seq<char>)> {
    ls.map_values(|l: InfoLine| (l.style, l.text@))
}

/// The label line of a field; the field being edited gets a ▶ marker.
pub open spec fn label_line(f: EditField, is_active: bool) -> (InfoStyle, Seq<char>) {
    (InfoStyle::Label, if is_active {
        "▶ "@ + f.label_text()
    } else {
        f.label_text()
    })
}

/// The value line of a field: the edit buffer with a cursor while it is
/// edited, else the value, or a dash when it is empty.
pub open spec fn value_line(f: EditField, raw: Seq<char>, is_active: bool) -> (InfoStyle, Seq<char>) {
    if is_active {
        (InfoStyle::Active, raw + "▏"@)
    } else {
        (
            if f == EditField::Title {
                InfoStyle::Title
            } else {
                InfoStyle::Value
            },
            if raw.len() == 0 {
                "—"@
            } else {
                raw
            },
        )
    }
}

/// The text of a field's buffer, empty when it has none.
pub open spec fn raw_value(values: FieldValues, f: EditField) -> Seq<char> {
    match values.value(f) {
        Some(v) => v,
        None => Seq::empty(),
    }
}

/// Two lines per shown field, in order.
pub open spec fn field_lines(
    fields: Seq<EditField>,
    values: FieldValues,
    editing: bool,
    active: EditField,
) -> Seq<(InfoStyle, Seq<char>)>
    decreases fields.len(),
{
    if fields.len() == 0 {
        Seq::empty()
    } else {
        let f = fields.last();
        let a = editing && f == active;
        field_lines(fields.drop_last(), values, editing, active) + seq![
            label_line(f, a),
            value_line(f, raw_value(values, f), a),
        ]
    }
}

/// Two lines per read-only (label, value) pair.
pub open spec fn readonly_lines(ro: Seq<(Seq<char>, Seq<char>)>) -> Seq<(InfoStyle, Seq<char>)>
    decreases ro.len(),
{
    if ro.len() == 0 {
        Seq::empty()
    } else {
        readonly_lines(ro.drop_last()) + seq![
            (InfoStyle::Label, ro.last().0),
            (InfoStyle::Value, ro.last().1),
        ]
    }
}

pub open spec fn pair_views(ro: Seq<(String, String)>) -> Seq<(Seq<char>, Seq<char>)> {
    ro.map_values(|p: (String, String)| (p.0@, p.1@))
}

/// All lines of the popup: a blank line, the fields, the file path and the
/// duration, then the read-only pairs.
pub open spec fn info_lines_text(
    fields: Seq<EditField>,
    values: FieldValues,
    editing: bool,
    active: EditField,
    path: Seq<char>,
    duration: Seq<char>,
    ro: Seq<(Seq<char>, Seq<char>)>,
) -> Seq<(InfoStyle, Seq<char>)> {
    seq![(InfoStyle::Blank, Seq::<char>::empty())] + field_lines(fields, values, editing, active)
        + seq![
        (InfoStyle::Label, "File Path"@),
        (InfoStyle::Dim, path),
        (InfoStyle::Label, "Duration"@),
        (InfoStyle::Value, duration),
    ] + readonly_lines(ro)
}

/// The line of the label of the field being edited, if it is shown.
pub open spec fn active_line(fields: Seq<EditField>, editing: bool, active: EditField) -> Option<nat>
    decreases fields.len(),
{
    if fields.len() == 0 {
        None
    } else if editing && fields.last() == active {
        Some((2 * fields.len() - 1) as nat)
    } else {
        active_line(fields.drop_last(), editing, active)
    }
}

proof fn lemma_field_lines_len(
    fields: Seq<EditField>,
    values: FieldValues,
    editing: bool,
    active: EditField,
)
    ensures
        field_lines(fields, values, editing, active).len() == 2 * fields.len(),
    decreases fields.len(),
{
    if fields.len() > 0 {
        lemma_field_lines_len(fields.drop_last(), values, editing, active);
    }
}

proof fn lemma_active_line_bound(fields: Seq<EditField>, editing: bool, active: EditField)
    ensures
        active_line(fields, editing, active) matches Some(i) ==> i < 2 * fields.len(),
    decreases fields.len(),
{
    if fields.len() > 0 {
        lemma_active_line_bound(fields.drop_last(), editing, active);
    }
}

proof fn lemma_field_lines_at(
    fields: Seq<EditField>,
    values: FieldValues,
    editing: bool,
    active: EditField,
    k: int,
)
    requires
        0 <= k < fields.len(),
    ensures
        field_lines(fields, values, editing, active)[2 * k] == label_line(
            fields[k],
            editing && fields[k] == active,
        ),
    decreases fields.len(),
{
    lemma_field_lines_len(fields.drop_last(), values, editing, active);
    if k < fields.len() - 1 {
        lemma_field_lines_at(fields.drop_last(), values, editing, active, k);
    }
}

proof fn lemma_active_line_field(fields: Seq<EditField>, editing: bool, active: EditField)
    ensures
        active_line(fields, editing, active) matches Some(i) ==> {
            &&& editing
            &&& i >= 1
            &&& (i - 1) % 2 == 0
            &&& (i - 1) / 2 < fields.len()
            &&& fields[(i - 1) / 2] == active
        },
    decreases fields.len(),
{
    if fields.len() > 0 {
        lemma_active_line_field(fields.drop_last(), editing, active);
    }
}

/// The line that `info_lines` reports for the edited field is that field's
/// label, marked with ▶.
pub proof fn lemma_active_line_is_marked_label(
    fields: Seq<EditField>,
    values: FieldValues,
    active: EditField,
    path: Seq<char>,
    duration: Seq<char>,
    ro: Seq<(Seq<char>, Seq<char>)>,
    i: nat,
)
    requires
        active_line(fields, true, active) == Some(i),
    ensures
        i < info_lines_text(fields, values, true, active, path, duration, ro).len(),
        info_lines_text(fields, values, true, active, path, duration, ro)[i as int] == (
            InfoStyle::Label,
            "▶ "@ + active.label_text(),
        ),
{
    lemma_active_line_field(fields, true, active);
    lemma_field_lines_len(fields, values, true, active);
    let j: int = (i - 1) / 2;
    lemma_field_lines_at(fields, values, true, active, j);
    let fl = field_lines(fields, values, true, active);
    let all = info_lines_text(fields, values, true, active, path, duration, ro);
    assert(i - 1 == 2 * j);
    assert(all[i as int] == fl[2 * j]);
}

fn push_line(out: &mut Vec<InfoLine>, style: InfoStyle, text: String)
    ensures
        info_views(final(out)@) == info_views(old(out)@).push((style, text@)),
        final(out)@.len() == old(out)@.len() + 1,
{
    let ghost before = out@;
    out.push(InfoLine { style, text });
    assert(info_views(out@) =~= info_views(before).push((style, text@)));
}

/// The lines of the popup and the line of the label being edited.
pub fn info_lines(
    fields: &[EditField],
    values: &FieldValues,
    editing: bool,
    active: EditField,
    path: &str,
    duration: &str,
    readonly: &[(String, String)],
) -> (r: (Vec<InfoLine>, Option<usize>))
    ensures
        info_views(r.0@) == info_lines_text(
            fields@,
            *values,
            editing,
            active,
            path@,
            duration@,
            pair_views(readonly@),
        ),
        match r.1 {
            Some(i) => active_line(fields@, editing, active) == Some(i as nat),
            None => active_line(fields@, editing, active) is None,
        },
{
    let mut out: Vec<InfoLine> = Vec::new();
    push_line(&mut out, InfoStyle::Blank, String::new());
    let mut act: Option<usize> = None;
    let mut i: usize = 0;
    assert(fields@.take(0) =~= Seq::<EditField>::empty());
    while i < fields.len()
        invariant
            i <= fields@.len(),
            info_views(out@) == seq![(InfoStyle::Blank, Seq::<char>::empty())] + field_lines(
                fields@.take(i as int),
                *values,
                editing,
                active,
            ),
            out@.len() == 1 + 2 * i,
            match act {
                Some(k) => active_line(fields@.take(i as int), editing, active) == Some(k as nat),
                None => active_line(fields@.take(i as int), editing, active) is None,
            },
        decreases fields@.len() - i,
    {
        let f = fields[i];
        let a = editing && f == active;
        assert(fields@.take(i + 1).drop_last() =~= fields@.take(i as int));
        if a {
            act = Some(out.len());
        }
        let label = if a {
            let mut s = String::new();
            push_str(&mut s, "▶ ");
            push_str(&mut s, f.label());
            s
        } else {
            f.label().to_owned()
        };
        push_line(&mut out, InfoStyle::Label, label);
        let raw = values.text(f);
        let (style, text) = if a {
            let mut s = raw;
            push_str(&mut s, "▏");
            (InfoStyle::Active, s)
        } else {
            let st = if f == EditField::Title {
                InfoStyle::Title
            } else {
                InfoStyle::Value
            };
            if raw.as_str().is_empty() {
                (st, "—".to_owned())
            } else {
                (st, raw)
            }
        };
        push_line(&mut out, style, text);
        i = i + 1;
    }
    assert(fields@.take(fields@.len() as int) =~= fields@);
    push_line(&mut out, InfoStyle::Label, "File Path".to_owned());
    push_line(&mut out, InfoStyle::Dim, path.to_owned());
    push_line(&mut out, InfoStyle::Label, "Duration".to_owned());
    push_line(&mut out, InfoStyle::Value, duration.to_owned());
    let ghost head = info_views(out@);
    let mut j: usize = 0;
    assert(pair_views(readonly@).take(0) =~= Seq::<(Seq<char>, Seq<char>)>::empty());
    assert(head + readonly_lines(Seq::empty()) =~= head);
    while j < readonly.len()
        invariant
            j <= readonly@.len(),
            info_views(out@) == head + readonly_lines(pair_views(readonly@).take(j as int)),
        decreases readonly@.len() - j,
    {
        let ghost before = info_views(out@);
        let (l, v) = &readonly[j];
        push_line(&mut out, InfoStyle::Label, l.clone());
        push_line(&mut out, InfoStyle::Value, v.clone());
        let ghost pv = pair_views(readonly@);
        assert(pv.take(j + 1).drop_last() =~= pv.take(j as int));
        assert(pv[j as int] == (l@, v@));
        assert(info_views(out@) =~= head + readonly_lines(pv.take(j + 1)));
        j = j + 1;
    }
    assert(pair_views(readonly@).take(readonly@.len() as int) =~= pair_views(readonly@));
    assert(info_views(out@) =~= info_lines_text(
        fields@,
        *values,
        editing,
        active,
        path@,
        duration@,
        pair_views(readonly@),
    ));
    (out, act)
}

/// Where the popup scrolls to, and how far it can scroll: the requested
/// offset held to the content, then moved so that the label of the field
/// being edited, and its value where there is room, can be seen.
pub open spec fn info_scroll_at(total: nat, visible: nat, scroll: nat, active: Option<nat>) -> (
    nat,
    nat,
) {
    let max = if total > visible {
        (total - visible) as nat
    } else {
        0nat
    };
    let s0 = if scroll < max {
        scroll
    } else {
        max
    };
    match active {
        None => (s0, max),
        Some(idx) => {
            let last = if idx + 1 < total - 1 {
                idx + 1
            } else if total >= 1 {
                (total - 1) as nat
            } else {
                0nat
            };
            let s1 = if last >= s0 + visible {
                (last + 1 - visible) as nat
            } else {
                s0
            };
            let s2 = if idx < s1 {
                if idx >= 1 {
                    (idx - 1) as nat
                } else {
                    0nat
                }
            } else {
                s1
            };
            (s2, max)
        },
    }
}

/// Scroll offset and largest offset of the popup's content.
pub fn info_scroll(total: usize, visible: usize, scroll: usize, active: Option<usize>) -> (r: (
    usize,
    usize,
))
    requires
        total + visible <= usize::MAX,
        active matches Some(i) ==> i < usize::MAX,
    ensures
        (r.0 as nat, r.1 as nat) == info_scroll_at(
            total as nat,
            visible as nat,
            scroll as nat,
            match active {
                Some(i) => Some(i as nat),
                None => None,
            },
        ),
{
    let max = total.saturating_sub(visible);
    let mut s = if scroll < max {
        scroll
    } else {
        max
    };
    if let Some(idx) = active {
        let cap = total.saturating_sub(1);
        let last = if idx + 1 < cap {
            idx + 1
        } else {
            cap
        };
        if last >= s + visible {
            s = last + 1 - visible;
        }
        if idx < s {
            s = idx.saturating_sub(1);
        }
    }
    (s, max)
}

/// While a field is edited and at least two rows are shown, the label of
/// that field is on screen after the popup scrolls.
pub proof fn lemma_active_label_visible(total: nat, visible: nat, scroll: nat, idx: nat)
    requires
        idx < total,
        visible >= 2,
    ensures
        info_scroll_at(total, visible, scroll, Some(idx)).0 <= idx,
        idx < info_scroll_at(total, visible, scroll, Some(idx)).0 + visible,
{
}

/// Without a field being edited, the offset never passes the largest one.
pub proof fn lemma_scroll_within_content(total: nat, visible: nat, scroll: nat)
    ensures
        info_scroll_at(total, visible, scroll, None).0 <= info_scroll_at(
            total,
            visible,
            scroll,
            None,
        ).1,
        info_scroll_at(total, visible, scroll, None).1 + visible >= total,
{
}

/// The popup's title.
pub fn info_title(detailed: bool) -> (r: &'static str)
    ensures
        r@ == (if detailed {
            " ♫ Track Information (detailed) "@
        } else {
            " ♫ Track Information "@
        }),
{
    if detailed {
        " ♫ Track Information (detailed) "
    } else {
        " ♫ Track Information "
    }
}

/// The view that `d` switches to.
pub open spec fn other_mode(detailed: bool) -> Seq<char> {
    if detailed {
        "simple"@
    } else {
        "detailed"@
    }
}

/// The footer: the keys of the mode, and, when the content scrolls, the
/// position as "[offset+1/max+1]".
pub open spec fn info_footer_text(editing: bool, detailed: bool, scroll: nat, max: nat) -> Seq<
    char,
> {
    if editing {
        "[Tab/↑↓] field [Enter] save [Esc] cancel [d] "@ + other_mode(detailed)
    } else {
        "[↑↓] scroll [e] edit [d] "@ + other_mode(detailed) + " view [i] close"@ + if max > 0 {
            "  ["@ + decimal(scroll + 1) + "/"@ + decimal(max + 1) + "]"@
        } else {
            Seq::empty()
        }
    }
}

pub fn info_footer(editing: bool, detailed: bool, scroll: usize, max: usize) -> (r: String)
    requires
        scroll < u64::MAX,
        max < u64::MAX,
    ensures
        r@ == info_footer_text(editing, detailed, scroll as nat, max as nat),
{
    let mode = if detailed {
        "simple"
    } else {
        "detailed"
    };
    let mut r = String::new();
    if editing {
        push_str(&mut r, "[Tab/↑↓] field [Enter] save [Esc] cancel [d] ");
        push_str(&mut r, mode);
    } else {
        push_str(&mut r, "[↑↓] scroll [e] edit [d] ");
        push_str(&mut r, mode);
        push_str(&mut r, " view [i] close");
        if max > 0 {
            push_str(&mut r, "  [");
            push_decimal(&mut r, scroll as u64 + 1);
            push_str(&mut r, "/");
            push_decimal(&mut r, max as u64 + 1);
            push_str(&mut r, "]");
        }
    }
    r
}

/// Whether the focused panel has a track to describe: the queue when it is
/// focused, else the shown track list.
pub fn info_has_track(panel: Panel, queue_len: usize, track_count: usize) -> (b: bool)
    ensures
        b == if panel == Panel::Queue {
            queue_len > 0
        } else {
            track_count > 0
        },
{
    if panel == Panel::Queue {
        queue_len > 0
    } else {
        track_count > 0
    }
}

} // verus!
