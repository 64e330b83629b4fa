//! The help popup: its lines, how far it scrolls, and its footer.

use vstd::prelude::*;
use crate::keybindings::{row_views, section_views};
use crate::text::{chars_of, decimal, push_decimal, push_repeat, push_str};
use crate::util::spaces;

verus! {

broadcast use vstd::string::group_string_axioms;

/// The kind of a help line.
#[derive(Debug, Clone, Copy, PartialEq, Eq, Structural)]
pub enum HelpKind {
    Section,
    Entry,
    Blank,
}

/// A line of the help popup: a section title (in `text`), a binding (its
/// keys, indented and padded, in `keys`; what it does in `text`), or a
/// blank line.
#[derive(Debug, Clone)]
pub struct HelpLine {
    pub kind: HelpKind,
    pub keys: String,
    pub text: String,
}

pub open spec fn help_views(ls: Seq<HelpLine>) -> Seq<(HelpKind, Seq<char>, Seq<char>)> {
    ls.map_values(|l: HelpLine| (l.kind, l.keys@, l.text@))
}

/// `s` followed by spaces up to `n` characters.
pub open spec fn pad_chars(s: Seq<char>, n: nat) -> Seq<char> {
    if s.len() < n {
        s + spaces((n - s.len()) as nat)
    } else {
        s
    }
}

/// The lines of one binding row: two spaces, the keys padded to 28
/// characters, and the description.
pub open spec fn entry_lines(rows: Seq<(Seq<char>, Seq<char>)>) -> Seq<(HelpKind, Seq<char>, Seq<char>)>
    decreases rows.len(),
{
    if rows.len() == 0 {
        Seq::empty()
    } else {
        entry_lines(rows.drop_last()).push(
            (HelpKind::Entry, "  "@ + pad_chars(rows.last().0, 28), rows.last().1),
        )
    }
}

/// The lines of all sections: each title, its rows, and a blank line.
pub open spec fn help_lines_text(sections: Seq<(Seq<char>, Seq<(Seq<char>, Seq<char>)>)>) -> Seq<
    (HelpKind, Seq<char>, Seq<char>),
>
    decreases sections.len(),
{
    if sections.len() == 0 {
        Seq::empty()
    } else {
        let s = sections.last();
        help_lines_text(sections.drop_last()) + seq![(HelpKind::Section, Seq::empty(), s.0)]
            + entry_lines(s.1) + seq![(HelpKind::Blank, Seq::empty(), Seq::empty())]
    }
}

fn push_help(out: &mut Vec<HelpLine>, kind: HelpKind, keys: String, text: String)
    ensures
        help_views(final(out)@) == help_views(old(out)@).push((kind, keys@, text@)),
{
    let ghost before = out@;
    out.push(HelpLine { kind, keys, text });
    assert(help_views(out@) =~= help_views(before).push((kind, keys@, text@)));
}

/// The keys column of a binding row.
fn entry_keys(keys: &str) -> (r: String)
    ensures
        r@ == "  "@ + pad_chars(keys@, 28),
{
    let n = chars_of(keys).len();
    let mut r = String::new();
    push_str(&mut r, "  ");
    push_str(&mut r, keys);
    if n < 28 {
        push_repeat(&mut r, ' ', 28 - n);
    }
    r
}

/// The lines of the help popup for the given sections.
pub fn help_lines(sections: &[(&'static str, Vec<(String, &'static str)>)]) -> (r: Vec<HelpLine>)
    ensures
        help_views(r@) == help_lines_text(section_views(sections@)),
{
    let mut out: Vec<HelpLine> = Vec::new();
    let mut i: usize = 0;
    assert(section_views(sections@).take(0) =~= Seq::<
        (Seq<char>, Seq<(Seq<char>, Seq<char>)>),
    >::empty());
    while i < sections.len()
        invariant
            i <= sections@.len(),
            help_views(out@) == help_lines_text(section_views(sections@).take(i as int)),
        decreases sections@.len() - i,
    {
        let ghost sv = section_views(sections@);
        let ghost start = help_views(out@);
        let (title, rows) = &sections[i];
        push_help(&mut out, HelpKind::Section, String::new(), (*title).to_owned());
        let ghost mid = help_views(out@);
        let mut j: usize = 0;
        assert(row_views(rows@).take(0) =~= Seq::<(Seq<char>, Seq<char>)>::empty());
        assert(mid + entry_lines(Seq::empty()) =~= mid);
        while j < rows.len()
            invariant
                j <= rows@.len(),
                help_views(out@) == mid + entry_lines(row_views(rows@).take(j as int)),
            decreases rows@.len() - j,
        {
            let (k, d) = &rows[j];
            let keys = entry_keys(k.as_str());
            let ghost rv = row_views(rows@);
            assert(rv.take(j + 1).drop_last() =~= rv.take(j as int));
            assert(rv[j as int] == (k@, d@));
            push_help(&mut out, HelpKind::Entry, keys, (*d).to_owned());
            assert(help_views(out@) =~= mid + entry_lines(rv.take(j + 1)));
            j = j + 1;
        }
        assert(row_views(rows@).take(rows@.len() as int) =~= row_views(rows@));
        push_help(&mut out, HelpKind::Blank, String::new(), String::new());
        assert(sv.take(i + 1).drop_last() =~= sv.take(i as int));
        assert(sv[i as int] == (title@, row_views(rows@)));
        assert(help_views(out@) =~= help_lines_text(sv.take(i + 1)));
        i = i + 1;
    }
    assert(section_views(sections@).take(sections@.len() as int) =~= section_views(sections@));
    out
}

/// The first shown line: the requested one, held so that the last screen
/// is full.
pub fn help_offset(total: usize, visible: usize, scroll: usize) -> (r: usize)
    ensures
        r == if scroll < total - visible {
            scroll as int
        } else if total > visible {
            total - visible
        } else {
            0
        },
{
    let max = total.saturating_sub(visible);
    if scroll < max {
        scroll
    } else {
        max
    }
}

/// The footer: the position while the help does not fit, else how to close.
pub open spec fn help_footer_text(total: nat, visible: nat, scroll: nat) -> Seq<char> {
    if total > visible {
        "↑/↓ to scroll ("@ + decimal(scroll + 1) + "/"@ + decimal((total - visible + 1) as nat)
            + ") · Esc to close"@
    } else {
        "Esc or ? to close"@
    }
}

pub fn help_footer(total: usize, visible: usize, scroll: usize) -> (r: String)
    requires
        scroll < u64::MAX,
        total < u64::MAX,
    ensures
        r@ == help_footer_text(total as nat, visible as nat, scroll as nat),
{
    if total > visible {
        let mut r = String::new();
        push_str(&mut r, "↑/↓ to scroll (");
        push_decimal(&mut r, scroll as u64 + 1);
        push_str(&mut r, "/");
        push_decimal(&mut r, (total - visible) as u64 + 1);
        push_str(&mut r, ") · Esc to close");
        r
    } else {
        "Esc or ? to close".to_owned()
    }
}

} // verus!
