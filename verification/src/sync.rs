//! Syncing one music library onto another: which tracks (and playlists) to
//! copy, which to remove, and which to refresh, from the paths each library
//! holds.  The copying itself is the caller's part.

use vstd::prelude::*;
use crate::paths::{extension_of, path_extension, path_strip_prefix, stripped_of};
use crate::text::str_eq;
use crate::util::string_views;

verus! {

/// The elements of `a` that `b` holds (`present`) or lacks (`!present`),
/// in the order of `a`.
pub open spec fn select(a: Seq<Seq<char>>, b: Seq<Seq<char>>, present: bool) -> Seq<Seq<char>>
    decreases a.len(),
{
    if a.len() == 0 {
        Seq::empty()
    } else {
        let pre = select(a.drop_last(), b, present);
        if b.contains(a.last()) == present {
            pre.push(a.last())
        } else {
            pre
        }
    }
}

/// What a sync does, as relative paths.
#[derive(Debug, Clone)]
pub struct SyncPlan {
    /// In the source only: copied over.
    pub to_add: Vec<String>,
    /// In the destination only: removed (none when deletion is skipped).
    pub to_remove: Vec<String>,
    /// In both: refreshed from the source.
    pub to_update: Vec<String>,
}

fn contains_text(v: &Vec<String>, x: &str) -> (r: bool)
    ensures
        r == string_views(v@).contains(x@),
{
    let mut i: usize = 0;
    while i < v.len()
        invariant
            i <= v@.len(),
            forall|j: int| 0 <= j < i ==> v@[j]@ != x@,
        decreases v@.len() - i,
    {
        if str_eq(v[i].as_str(), x) {
            assert(string_views(v@)[i as int] == x@);
            return true;
        }
        i = i + 1;
    }
    assert forall|j: int| 0 <= j < string_views(v@).len() implies string_views(v@)[j] != x@ by {
        assert(string_views(v@)[j] == v@[j]@);
    }
    false
}

fn select_exec(a: &Vec<String>, b: &Vec<String>, present: bool) -> (r: Vec<String>)
    ensures
        string_views(r@) == select(string_views(a@), string_views(b@), present),
{
    let ghost av = string_views(a@);
    let mut r: Vec<String> = Vec::new();
    let mut i: usize = 0;
    assert(av.take(0) =~= Seq::<Seq<char>>::empty());
    while i < a.len()
        invariant
            i <= a@.len(),
            av == string_views(a@),
            string_views(r@) == select(av.take(i as int), string_views(b@), present),
        decreases a@.len() - i,
    {
        assert(av.take(i + 1).drop_last() =~= av.take(i as int));
        assert(av.take(i + 1).last() == a@[i as int]@);
        if contains_text(b, a[i].as_str()) == present {
            let ghost pre = string_views(r@);
            r.push(a[i].clone());
            assert(string_views(r@) =~= pre.push(a@[i as int]@));
        }
        i = i + 1;
    }
    assert(av.take(a@.len() as int) =~= av);
    r
}

/// The plan for syncing the destination's paths to the source's: add what
/// only the source has, remove what only the destination has (unless
/// deletion is skipped), refresh what both have.  Each list keeps the order
/// of the library it comes from.
pub fn sync_plan(src: &Vec<String>, dst: &Vec<String>, no_delete: bool) -> (p: SyncPlan)
    ensures
        string_views(p.to_add@) == select(string_views(src@), string_views(dst@), false),
        string_views(p.to_update@) == select(string_views(src@), string_views(dst@), true),
        no_delete ==> p.to_remove@.len() == 0,
        !no_delete ==> string_views(p.to_remove@) == select(string_views(dst@), string_views(src@), false),
{
    let to_add = select_exec(src, dst, false);
    let to_update = select_exec(src, dst, true);
    let to_remove = if no_delete {
        Vec::new()
    } else {
        select_exec(dst, src, false)
    };
    SyncPlan { to_add, to_remove, to_update }
}

proof fn lemma_select_contains(a: Seq<Seq<char>>, b: Seq<Seq<char>>, present: bool, x: Seq<char>)
    ensures
        select(a, b, present).contains(x) <==> (a.contains(x) && b.contains(x) == present),
    decreases a.len(),
{
    if a.len() > 0 {
        let d = a.drop_last();
        lemma_select_contains(d, b, present, x);
        assert(a =~= d.push(a.last()));
        let pre = select(d, b, present);
        if b.contains(a.last()) == present {
            assert(pre.push(a.last()).contains(x) <==> (pre.contains(x) || x == a.last())) by {
                if pre.push(a.last()).contains(x) {
                    let k = choose|k: int| 0 <= k < pre.push(a.last()).len() && pre.push(a.last())[k] == x;
                    if k < pre.len() {
                        assert(pre[k] == x);
                    }
                }
                if pre.contains(x) {
                    let k = choose|k: int| 0 <= k < pre.len() && pre[k] == x;
                    assert(pre.push(a.last())[k] == x);
                }
                if x == a.last() {
                    assert(pre.push(a.last())[pre.len() as int] == x);
                }
            }
        }
        assert(a.contains(x) <==> (d.contains(x) || x == a.last())) by {
            if a.contains(x) {
                let k = choose|k: int| 0 <= k < a.len() && a[k] == x;
                if k < d.len() {
                    assert(d[k] == x);
                }
            }
            if d.contains(x) {
                let k = choose|k: int| 0 <= k < d.len() && d[k] == x;
                assert(a[k] == x);
            }
            if x == a.last() {
                assert(a[a.len() - 1] == x);
            }
        }
    }
}

/// After a sync with deletion the destination holds exactly the source's
/// paths: what it kept, less what was removed, plus what was added.  Every
/// source path is either added or refreshed, never both.
pub proof fn lemma_sync_plan_complete(src: Seq<Seq<char>>, dst: Seq<Seq<char>>, x: Seq<char>)
    ensures
        ({
            let add = select(src, dst, false);
            let upd = select(src, dst, true);
            let rem = select(dst, src, false);
            &&& ((dst.contains(x) && !rem.contains(x)) || add.contains(x)) <==> src.contains(x)
            &&& src.contains(x) ==> (add.contains(x) != upd.contains(x))
        }),
{
    lemma_select_contains(src, dst, false, x);
    lemma_select_contains(src, dst, true, x);
    lemma_select_contains(dst, src, false, x);
}

/// A playlist file: its extension is `m3u` or `m3u8`.
pub open spec fn is_playlist_file(p: Seq<char>) -> bool {
    extension_of(p) == Some("m3u"@) || extension_of(p) == Some("m3u8"@)
}

/// The playlist files among `files`, as paths relative to `dir` (files
/// outside it are left out), in order.
pub open spec fn playlist_rels(files: Seq<Seq<char>>, dir: Seq<char>) -> Seq<Seq<char>>
    decreases files.len(),
{
    if files.len() == 0 {
        Seq::empty()
    } else {
        let pre = playlist_rels(files.drop_last(), dir);
        let f = files.last();
        if is_playlist_file(f) && stripped_of(f, dir) is Some {
            pre.push(stripped_of(f, dir)->0)
        } else {
            pre
        }
    }
}

fn playlist_rels_exec(files: &Vec<String>, dir: &str) -> (r: Vec<String>)
    ensures
        string_views(r@) == playlist_rels(string_views(files@), dir@),
{
    let ghost fv = string_views(files@);
    let mut r: Vec<String> = Vec::new();
    let mut i: usize = 0;
    assert(fv.take(0) =~= Seq::<Seq<char>>::empty());
    while i < files.len()
        invariant
            i <= files@.len(),
            fv == string_views(files@),
            string_views(r@) == playlist_rels(fv.take(i as int), dir@),
        decreases files@.len() - i,
    {
        assert(fv.take(i + 1).drop_last() =~= fv.take(i as int));
        assert(fv.take(i + 1).last() == files@[i as int]@);
        let f = files[i].as_str();
        let is_list = match path_extension(f) {
            Some(e) => str_eq(e.as_str(), "m3u") || str_eq(e.as_str(), "m3u8"),
            None => false,
        };
        if is_list {
            if let Some(rel) = path_strip_prefix(f, dir) {
                let ghost pre = string_views(r@);
                r.push(rel);
                assert(string_views(r@) =~= pre.push(stripped_of(f@, dir@)->0));
            }
        }
        i = i + 1;
    }
    assert(fv.take(files@.len() as int) =~= fv);
    r
}

/// The plan for syncing playlists: the playlist files (`.m3u`, `.m3u8`) of
/// each music directory, compared by their paths relative to it, as
/// `sync_plan` compares tracks.
pub fn playlist_sync_plan(
    src_files: &Vec<String>,
    src_dir: &str,
    dst_files: &Vec<String>,
    dst_dir: &str,
    no_delete: bool,
) -> (p: SyncPlan)
    ensures
        ({
            let s = playlist_rels(string_views(src_files@), src_dir@);
            let d = playlist_rels(string_views(dst_files@), dst_dir@);
            &&& string_views(p.to_add@) == select(s, d, false)
            &&& string_views(p.to_update@) == select(s, d, true)
            &&& no_delete ==> p.to_remove@.len() == 0
            &&& !no_delete ==> string_views(p.to_remove@) == select(d, s, false)
        }),
{
    let s = playlist_rels_exec(src_files, src_dir);
    let d = playlist_rels_exec(dst_files, dst_dir);
    sync_plan(&s, &d, no_delete)
}

} // verus!
