//! Resolving duplicate tracks: what the user is offered for a group of
//! copies, and which copies a choice removes.

use vstd::prelude::*;
use crate::text::{push_signed, push_str, signed_decimal, str_eq};

verus! {

broadcast use vstd::string::group_string_axioms;

/// The heading of a group of copies: "Artist - Title (xN)".
pub fn dup_heading(artist: &str, title: &str, count: i64) -> (r: String)
    ensures
        r@ == artist@ + " - "@ + title@ + " (x"@ + signed_decimal(count as int) + ")"@,
{
    let mut r = String::new();
    push_str(&mut r, artist);
    push_str(&mut r, " - ");
    push_str(&mut r, title);
    push_str(&mut r, " (x");
    push_signed(&mut r, count);
    push_str(&mut r, ")");
    r
}

/// A group is offered for fixing when fixing was asked for, it has more
/// than one copy, and the user has not chosen to keep all of them before.
pub fn offers_fix(fix: bool, copies: usize, kept: bool) -> (b: bool)
    ensures
        b == (fix && copies > 1 && !kept),
{
    fix && copies > 1 && !kept
}

pub open spec fn copy_views(copies: Seq<(i64, String)>) -> Seq<(i64, Seq<char>)> {
    copies.map_values(|c: (i64, String)| (c.0, c.1@))
}

/// The choices offered: skip, keep every copy, or keep one copy by path.
pub open spec fn dup_options_text(copies: Seq<(i64, Seq<char>)>) -> Seq<Seq<char>> {
    seq!["Skip"@, "Keep both"@] + copies.map_values(|c: (i64, Seq<char>)| c.1)
}

pub open spec fn string_views(v: Seq<String>) -> Seq<Seq<char>> {
    v.map_values(|s: String| s@)
}

pub fn dup_options(copies: &[(i64, String)]) -> (r: Vec<String>)
    ensures
        string_views(r@) == dup_options_text(copy_views(copies@)),
{
    let mut r: Vec<String> = Vec::new();
    r.push("Skip".to_owned());
    r.push("Keep both".to_owned());
    let mut i: usize = 0;
    while i < copies.len()
        invariant
            i <= copies@.len(),
            string_views(r@) =~= seq!["Skip"@, "Keep both"@] + copy_views(copies@).take(
                i as int,
            ).map_values(|c: (i64, Seq<char>)| c.1),
        decreases copies@.len() - i,
    {
        let ghost before = string_views(r@);
        r.push(copies[i].1.clone());
        assert(copy_views(copies@).take(i + 1) =~= copy_views(copies@).take(i as int).push(
            (copies@[i as int].0, copies@[i as int].1@),
        ));
        assert(string_views(r@) =~= before.push(copies@[i as int].1@));
        i = i + 1;
    }
    assert(copy_views(copies@).take(copies@.len() as int) =~= copy_views(copies@));
    r
}

/// What a choice does to a group of copies.
#[derive(Debug, Clone, PartialEq, Eq)]
pub enum DupDecision {
    /// Leave the group as it is.
    Skip,
    /// Keep every copy and stop asking about the group.
    KeepAll,
    /// Remove these copies (id and path): every copy at another path than
    /// the chosen one.
    Remove(Vec<(i64, String)>),
}

/// The copies whose path differs from `keep`, in order.
pub open spec fn others(copies: Seq<(i64, Seq<char>)>, keep: Seq<char>) -> Seq<(i64, Seq<char>)> {
    copies.filter(|c: (i64, Seq<char>)| c.1 != keep)
}

/// The decision for a chosen option (none when the prompt was cancelled):
/// "Keep both" keeps all, "Skip" and a cancelled prompt skip, and a path
/// removes every copy at another path.
pub open spec fn dup_decision_text(sel: Option<Seq<char>>, copies: Seq<(i64, Seq<char>)>) -> Option<
    Seq<(i64, Seq<char>)>,
> {
    match sel {
        Some(s) => if s != "Skip"@ && s != "Keep both"@ {
            Some(others(copies, s))
        } else {
            None
        },
        None => None,
    }
}

pub fn dup_decision(sel: Option<&str>, copies: &[(i64, String)]) -> (r: DupDecision)
    ensures
        match r {
            DupDecision::Remove(v) => dup_decision_text(
                match sel {
                    Some(s) => Some(s@),
                    None => None,
                },
                copy_views(copies@),
            ) == Some(copy_views(v@)),
            DupDecision::KeepAll => sel matches Some(s) && s@ == "Keep both"@,
            DupDecision::Skip => sel is None || (sel matches Some(s) && s@ == "Skip"@),
        },
{
    let s = match sel {
        Some(s) => s,
        None => {
            return DupDecision::Skip;
        },
    };
    if str_eq(s, "Skip") {
        return DupDecision::Skip;
    }
    if str_eq(s, "Keep both") {
        return DupDecision::KeepAll;
    }
    let ghost cv = copy_views(copies@);
    let mut out: Vec<(i64, String)> = Vec::new();
    let mut i: usize = 0;
    assert(cv.take(0).filter(|c: (i64, Seq<char>)| c.1 != s@) =~= Seq::<(i64, Seq<char>)>::empty());
    while i < copies.len()
        invariant
            i <= copies@.len(),
            cv == copy_views(copies@),
            copy_views(out@) == cv.take(i as int).filter(|c: (i64, Seq<char>)| c.1 != s@),
        decreases copies@.len() - i,
    {
        let ghost before = copy_views(out@);
        assert(cv.take(i + 1).drop_last() =~= cv.take(i as int));
        reveal(Seq::filter);
        if !str_eq(copies[i].1.as_str(), s) {
            out.push((copies[i].0, copies[i].1.clone()));
            assert(copy_views(out@) =~= before.push(cv[i as int]));
        } else {
            assert(copy_views(out@) =~= before);
        }
        i = i + 1;
    }
    assert(cv.take(copies@.len() as int) =~= cv);
    DupDecision::Remove(out)
}

/// A chosen copy is never among the removed ones, and every copy at
/// another path is.
pub proof fn lemma_chosen_copy_survives(copies: Seq<(i64, Seq<char>)>, keep: Seq<char>)
    ensures
        forall|j: int|
            0 <= j < others(copies, keep).len() ==> #[trigger] others(copies, keep)[j].1 != keep,
        forall|j: int|
            0 <= j < copies.len() && copies[j].1 != keep ==> others(copies, keep).contains(
                #[trigger] copies[j],
            ),
{
    broadcast use vstd::seq_lib::group_filter_ensures;
}

} // verus!
