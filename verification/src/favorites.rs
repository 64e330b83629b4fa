//! Marking tracks as favorites: whether a toggle marks or unmarks, the
//! tracks it changes, and the list of favorites that remains.

use std::sync::Arc;
use vstd::prelude::*;
use crate::background::shared_view;
use crate::text::{decimal, push_decimal, push_str, str_eq};
use crate::types::Track;

verus! {

broadcast use vstd::string::group_string_axioms;

/// The first row of `all` whose track has path `p`.
pub open spec fn first_track_of(all: Seq<Track>, p: Seq<char>) -> Option<int> {
    if exists|i: int| 0 <= i < all.len() && all[i].path@ == p {
        Some(
            choose|i: int|
                0 <= i < all.len() && all[i].path@ == p && forall|j: int|
                    0 <= j < i ==> all[j].path@ != p,
        )
    } else {
        None
    }
}

/// A toggle of the favorite mark of the tracks at `paths` marks them when
/// one of them is a library track (the first with its path) that is not
/// marked yet, and unmarks them otherwise.
pub open spec fn favorite_target(all: Seq<Track>, paths: Seq<Seq<char>>) -> bool {
    exists|k: int| 0 <= k < paths.len() && #[trigger] unmarked_at(all, paths[k])
}

/// The first library track with path `p` exists and is not marked.
pub open spec fn unmarked_at(all: Seq<Track>, p: Seq<char>) -> bool {
    match first_track_of(all, p) {
        Some(i) => !all[i].favorite,
        None => false,
    }
}

pub(crate) fn first_track(all: &Vec<Arc<Track>>, p: &str) -> (r: Option<usize>)
    ensures
        r matches Some(i) ==> i < all@.len() && first_track_of(shared_view(all@), p@) == Some(i as int),
        r is None ==> first_track_of(shared_view(all@), p@) is None,
{
    let ghost ts = shared_view(all@);
    let mut i: usize = 0;
    while i < all.len()
        invariant
            i <= all@.len() == ts.len(),
            ts == shared_view(all@),
            forall|j: int| 0 <= j < i ==> ts[j].path@ != p@,
        decreases all@.len() - i,
    {
        if str_eq(all[i].path.as_str(), p) {
            proof {
                assert(ts[i as int].path@ == p@);
                let w = choose|k: int|
                    0 <= k < ts.len() && ts[k].path@ == p@ && forall|j: int|
                        0 <= j < k ==> ts[j].path@ != p@;
                assert(0 <= i < ts.len() && ts[i as int].path@ == p@ && forall|j: int|
                    0 <= j < i ==> ts[j].path@ != p@);
                assert(w == i) by {
                    if w < i {
                        assert(ts[w].path@ != p@);
                    } else if w > i {
                        assert(ts[i as int].path@ != p@);
                    }
                }
            }
            return Some(i);
        }
        i = i + 1;
    }
    None
}

/// Whether toggling the favorite mark of the tracks at `paths` marks them
/// (see `favorite_target`).
pub fn toggle_target(all: &Vec<Arc<Track>>, paths: &Vec<String>) -> (b: bool)
    ensures
        b == favorite_target(shared_view(all@), paths@.map_values(|p: String| p@)),
{
    let ghost ts = shared_view(all@);
    let ghost ps = paths@.map_values(|p: String| p@);
    let mut k: usize = 0;
    while k < paths.len()
        invariant
            k <= paths@.len() == ps.len(),
            ts == shared_view(all@),
            ps == paths@.map_values(|p: String| p@),
            forall|m: int| 0 <= m < k ==> !unmarked_at(ts, #[trigger] ps[m]),
        decreases paths@.len() - k,
    {
        match first_track(all, paths[k].as_str()) {
            Some(i) => {
                if !all[i].favorite {
                    assert(ts[i as int] == *all@[i as int]);
                    assert(unmarked_at(ts, ps[k as int]));
                    return true;
                }
            },
            None => {},
        }
        k = k + 1;
    }
    false
}

/// The track at row `i` of `ts` once the tracks at `paths` are marked
/// (`target`) or unmarked.
pub open spec fn marked(ts: Seq<Track>, paths: Seq<Seq<char>>, target: bool, i: int) -> Track {
    if paths.contains(ts[i].path@) {
        Track { favorite: target, ..ts[i] }
    } else {
        ts[i]
    }
}

fn with_favorite(t: &Track, f: bool) -> (r: Track)
    ensures
        r == (Track { favorite: f, ..*t }),
{
    Track {
        path: t.path.clone(),
        artist: t.artist.clone(),
        album: t.album.clone(),
        albumartist: t.albumartist.clone(),
        title: t.title.clone(),
        duration: t.duration,
        year: t.year,
        genre: t.genre.clone(),
        added_at: t.added_at,
        favorite: f,
        play_count: t.play_count,
        last_played: t.last_played,
    }
}

fn has_path(paths: &Vec<String>, p: &str) -> (b: bool)
    ensures
        b == paths@.map_values(|s: String| s@).contains(p@),
{
    let ghost ps = paths@.map_values(|s: String| s@);
    let mut k: usize = 0;
    while k < paths.len()
        invariant
            k <= paths@.len() == ps.len(),
            ps == paths@.map_values(|s: String| s@),
            forall|m: int| 0 <= m < k ==> ps[m] != p@,
        decreases paths@.len() - k,
    {
        if str_eq(paths[k].as_str(), p) {
            assert(ps[k as int] == p@);
            return true;
        }
        k = k + 1;
    }
    false
}

/// Marks (`target`) or unmarks every track of `tracks` whose path is one
/// of `paths`.
pub fn mark_favorites(tracks: &mut Vec<Arc<Track>>, paths: &Vec<String>, target: bool)
    ensures
        final(tracks)@.len() == old(tracks)@.len(),
        forall|i: int|
            0 <= i < old(tracks)@.len() ==> *final(tracks)@[i] == marked(
                shared_view(old(tracks)@),
                paths@.map_values(|p: String| p@),
                target,
                i,
            ),
{
    let ghost ts = shared_view(tracks@);
    let ghost ps = paths@.map_values(|p: String| p@);
    let n = tracks.len();
    let mut i: usize = 0;
    while i < n
        invariant
            n == ts.len() == tracks@.len(),
            i <= n,
            ps == paths@.map_values(|p: String| p@),
            forall|j: int| 0 <= j < i ==> *tracks@[j] == marked(ts, ps, target, j),
            forall|j: int| i <= j < n ==> *tracks@[j] == ts[j],
        decreases n - i,
    {
        if has_path(paths, tracks[i].path.as_str()) {
            let t = with_favorite(&*tracks[i], target);
            tracks.set(i, Arc::new(t));
        }
        i = i + 1;
    }
}

/// The favorites among `tracks`, in order.
pub fn keep_favorites(tracks: &Vec<Arc<Track>>) -> (r: Vec<Arc<Track>>)
    ensures
        shared_view(r@) == shared_view(tracks@).filter(|t: Track| t.favorite),
{
    let ghost ts = shared_view(tracks@);
    let ghost fav = |t: Track| t.favorite;
    let mut r: Vec<Arc<Track>> = Vec::new();
    let mut i: usize = 0;
    proof {
        reveal(Seq::filter);
        assert(ts.take(0).filter(fav) =~= Seq::<Track>::empty());
    }
    while i < tracks.len()
        invariant
            i <= tracks@.len() == ts.len(),
            ts == shared_view(tracks@),
            fav == (|t: Track| t.favorite),
            shared_view(r@) == ts.take(i as int).filter(fav),
        decreases tracks@.len() - i,
    {
        let ghost before = ts.take(i as int);
        assert(ts.take(i + 1) =~= before.push(ts[i as int]));
        proof {
            before.lemma_filter_push(ts[i as int], fav);
        }
        if tracks[i].favorite {
            r.push(crate::library::share(&tracks[i]));
            assert(shared_view(r@) =~= before.filter(fav).push(ts[i as int]));
        }
        i = i + 1;
    }
    assert(ts.take(ts.len() as int) =~= ts);
    r
}

/// The status line after a toggle: "Favorited 3 tracks", "Unfavorited 1
/// track".
pub open spec fn favorite_status_text(target: bool, n: nat) -> Seq<char> {
    (if target {
        "Favorited"@
    } else {
        "Unfavorited"@
    }) + " "@ + decimal(n) + " track"@ + (if n == 1 {
        ""@
    } else {
        "s"@
    })
}

pub fn favorite_status(target: bool, updated: usize) -> (r: String)
    ensures
        r@ == favorite_status_text(target, updated as nat),
{
    let mut r = String::new();
    push_str(&mut r, if target {
        "Favorited"
    } else {
        "Unfavorited"
    });
    push_str(&mut r, " ");
    push_decimal(&mut r, updated as u64);
    push_str(&mut r, " track");
    push_str(&mut r, if updated == 1 {
        ""
    } else {
        "s"
    });
    r
}

} // verus!
