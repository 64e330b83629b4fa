//! The indexer's ignore patterns: which files of the music directory a walk
//! skips.

use vstd::prelude::*;
use crate::util::string_views;

verus! {

/// Whether the valid patterns among `patterns` compile into one glob set
/// (invalid patterns are left out).
pub uninterp spec fn ignore_set_builds(patterns: Seq<Seq<char>>) -> bool;

/// Whether the glob set of the valid patterns among `patterns` matches the
/// path `rel`.
pub uninterp spec fn ignored_by(rel: Seq<char>, patterns: Seq<Seq<char>>) -> bool;

/// `globset::GlobSetBuilder::build` over the patterns that `Glob::new`
/// accepts: the claim is only that whether it succeeds depends on the
/// patterns alone.
#[verifier::external_body]
fn glob_set_builds(patterns: &Vec<String>) -> (r: bool)
    ensures
        r == ignore_set_builds(string_views(patterns@)),
{
    let mut b = globset::GlobSetBuilder::new();
    for p in patterns {
        if let Ok(g) = globset::Glob::new(p) {
            b.add(g);
        }
    }
    b.build().is_ok()
}

/// `globset::GlobSet::is_match` of the set built as `glob_set_builds`
/// builds it, on the path `rel`: the claim is only that the answer depends
/// on the path and the patterns alone.  The set must build.
#[verifier::external_body]
fn glob_matches(rel: &str, patterns: &Vec<String>) -> (r: bool)
    requires
        ignore_set_builds(string_views(patterns@)),
    ensures
        r == ignored_by(rel@, string_views(patterns@)),
{
    let mut b = globset::GlobSetBuilder::new();
    for p in patterns {
        if let Ok(g) = globset::Glob::new(p) {
            b.add(g);
        }
    }
    b.build().unwrap().is_match(std::path::Path::new(rel))
}

/// The positions of the paths that no pattern matches, in order.
pub open spec fn kept_positions(rels: Seq<Seq<char>>, patterns: Seq<Seq<char>>) -> Seq<usize>
    decreases rels.len(),
{
    if rels.len() == 0 {
        Seq::empty()
    } else {
        let pre = kept_positions(rels.drop_last(), patterns);
        if ignored_by(rels.last(), patterns) {
            pre
        } else {
            pre.push((rels.len() - 1) as usize)
        }
    }
}

/// The files a walk keeps, given their paths relative to the music
/// directory: the positions of those that no ignore pattern matches, in
/// order; `None` when the patterns do not compile into a glob set.
pub fn unignored(rels: &Vec<String>, patterns: &Vec<String>) -> (r: Option<Vec<usize>>)
    ensures
        match r {
            Some(v) => ignore_set_builds(string_views(patterns@)) && v@ == kept_positions(
                string_views(rels@),
                string_views(patterns@),
            ),
            None => !ignore_set_builds(string_views(patterns@)),
        },
{
    if !glob_set_builds(patterns) {
        return None;
    }
    let ghost rv = string_views(rels@);
    let ghost pv = string_views(patterns@);
    let mut out: Vec<usize> = Vec::new();
    let mut i: usize = 0;
    assert(rv.take(0) =~= Seq::<Seq<char>>::empty());
    while i < rels.len()
        invariant
            i <= rels@.len(),
            rv == string_views(rels@),
            pv == string_views(patterns@),
            ignore_set_builds(pv),
            out@ == kept_positions(rv.take(i as int), pv),
        decreases rels@.len() - i,
    {
        assert(rv.take(i + 1).drop_last() =~= rv.take(i as int));
        assert(rv.take(i + 1).last() == rels@[i as int]@);
        if !glob_matches(rels[i].as_str(), patterns) {
            out.push(i);
        }
        i = i + 1;
    }
    assert(rv.take(rels@.len() as int) =~= rv);
    Some(out)
}

} // verus!
