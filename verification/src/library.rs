//! The library views: ordering the track list by a sort field, the subsets
//! the sidebar entries show, and fuzzy search over tracks and sidebar
//! entries.

use vstd::prelude::*;
use std::sync::Arc;
use fuzzy_matcher::FuzzyMatcher;
use crate::order::{
    chars_le, lemma_insert_by_at, lemma_sort_by, lemma_text_le_total, lemma_text_le_trans,
    sort_by, sorted_by, text_le, total_preorder,
};
use crate::lyrics::{ascii_lower, ascii_lowercase};
use crate::text::{
    chars_eq, chars_of, lowercase, push_str, split_chars, split_on, str_eq, to_lowercase, trim,
    trim_chars, views,
};
use crate::util::string_views;
use crate::playlist::Playlist;
use crate::types::{GlobalSearchResult, SidebarItem, SortField, SortOrder, Track};

verus! {

// ---------------------------------------------------------------------------
// Fuzzy matching (fuzzy-matcher)
// ---------------------------------------------------------------------------

/// The score `SkimMatcherV2` (default settings) gives `choice` for
/// `pattern`, or `None` when it does not match.
pub uninterp spec fn skim_score(choice: Seq<char>, pattern: Seq<char>) -> Option<i64>;

/// `SkimMatcherV2::default().fuzzy_match`.  The claim is that the score is
/// determined by the two texts, and (as the crate's source shows) that an
/// empty pattern matches everything with score 0.
#[verifier::external_body]
fn fuzzy_score(choice: &str, pattern: &str) -> (r: Option<i64>)
    ensures
        r == skim_score(choice@, pattern@),
        pattern@.len() == 0 ==> r == Some(0i64),
{
    fuzzy_matcher::skim::SkimMatcherV2::default().fuzzy_match(choice, pattern)
}

// ---------------------------------------------------------------------------
// Ordering by score
// ---------------------------------------------------------------------------

/// Higher scores first.
pub open spec fn by_score_desc<T>() -> spec_fn((i64, T), (i64, T)) -> bool {
    |a: (i64, T), b: (i64, T)| a.0 >= b.0
}

pub proof fn lemma_by_score_desc_total<T>()
    ensures
        total_preorder(by_score_desc::<T>()),
{
}

/// Sorts scored items by score, highest first, keeping the order of items
/// with equal scores.
pub fn sort_scored<T>(v: Vec<(i64, T)>) -> (r: Vec<(i64, T)>)
    ensures
        r@ == sort_by(v@, by_score_desc::<T>()),
{
    let ghost all = v@;
    let n = v.len();
    let mut src = v;
    let mut out: Vec<(i64, T)> = Vec::new();
    let mut k: usize = 0;
    assert(all.take(0) =~= Seq::<(i64, T)>::empty());
    assert(all.skip(0) =~= all);
    while src.len() > 0
        invariant
            k <= all.len() == n,
            src@ == all.skip(k as int),
            out@ == sort_by(all.take(k as int), by_score_desc::<T>()),
        decreases src@.len(),
    {
        assert(k < all.len());
        let x = src.remove(0);
        assert(x == all[k as int]);
        let ghost s = out@;
        let mut j: usize = out.len();
        while j > 0 && out[j - 1].0 < x.0
            invariant
                j <= out@.len(),
                s == out@,
                forall|i: int| j <= i < s.len() ==> !(by_score_desc::<T>())(#[trigger] s[i], x),
            decreases j,
        {
            j = j - 1;
        }
        proof {
            lemma_insert_by_at(s, x, by_score_desc::<T>(), j as int);
        }
        out.insert(j, x);
        assert(all.take(k + 1).drop_last() =~= all.take(k as int));
        assert(all.take(k + 1).last() == all[k as int]);
        assert(all.skip(k + 1) =~= all.skip(k as int).drop_first());
        k = k + 1;
    }
    assert(all.take(k as int) =~= all);
    out
}

/// The second components, in order.
pub open spec fn seconds<T>(v: Seq<(i64, T)>) -> Seq<T> {
    v.map_values(|p: (i64, T)| p.1)
}

fn drop_scores<T>(v: Vec<(i64, T)>, limit: usize) -> (r: Vec<T>)
    ensures
        r@ == seconds(v@).take(if v@.len() < limit { v@.len() as int } else { limit as int }),
{
    let ghost all = v@;
    let n = v.len();
    let m = if n < limit { n } else { limit };
    let mut src = v;
    let mut out: Vec<T> = Vec::new();
    let mut k: usize = 0;
    assert(all.skip(0) =~= all);
    while k < m
        invariant
            k <= m <= n == all.len(),
            src@ == all.skip(k as int),
            out@ == seconds(all).take(k as int),
        decreases m - k,
    {
        let x = src.remove(0);
        assert(x == all[k as int]);
        out.push(x.1);
        assert(out@ =~= seconds(all).take(k + 1));
        assert(all.skip(k + 1) =~= all.skip(k as int).drop_first());
        k = k + 1;
    }
    out
}

} // verus!

verus! {

// ---------------------------------------------------------------------------
// Sharing tracks
// ---------------------------------------------------------------------------

/// `Arc::clone`: another handle to the same value.
#[verifier::external_body]
pub(crate) fn share<T>(a: &Arc<T>) -> (r: Arc<T>)
    ensures
        r == *a,
{
    Arc::clone(a)
}

// ---------------------------------------------------------------------------
// Fuzzy search over tracks
// ---------------------------------------------------------------------------

/// The text a track is searched by: title, artist, album artist and album,
/// separated by spaces.
pub open spec fn search_text(t: Track) -> Seq<char> {
    t.title@ + " "@ + t.artist@ + " "@ + t.albumartist@ + " "@ + t.album@
}

fn search_text_of(t: &Track) -> (r: String)
    ensures
        r@ == search_text(*t),
{
    let mut h = String::new();
    push_str(&mut h, t.title.as_str());
    push_str(&mut h, " ");
    push_str(&mut h, t.artist.as_str());
    push_str(&mut h, " ");
    push_str(&mut h, t.albumartist.as_str());
    push_str(&mut h, " ");
    push_str(&mut h, t.album.as_str());
    h
}

/// The tracks that match `q`, each with its score, in library order.
pub open spec fn scored_tracks(ts: Seq<Arc<Track>>, q: Seq<char>) -> Seq<(i64, Arc<Track>)>
    decreases ts.len(),
{
    if ts.len() == 0 {
        Seq::empty()
    } else {
        let pre = scored_tracks(ts.drop_last(), q);
        match skim_score(search_text(*ts.last()), q) {
            Some(s) => pre.push((s, ts.last())),
            None => pre,
        }
    }
}

/// The tracks a search shows: all of them for an empty query, else those
/// matching it, best match first (ties in library order).
pub open spec fn searched_tracks(ts: Seq<Arc<Track>>, q: Seq<char>) -> Seq<Arc<Track>> {
    if q.len() == 0 {
        ts
    } else {
        let s = sort_by(scored_tracks(ts, q), by_score_desc::<Arc<Track>>());
        seconds(s)
    }
}

fn score_tracks(ts: &Vec<Arc<Track>>, query: &str) -> (r: Vec<(i64, Arc<Track>)>)
    ensures
        r@ == scored_tracks(ts@, query@),
{
    let mut r: Vec<(i64, Arc<Track>)> = Vec::new();
    let mut i: usize = 0;
    assert(ts@.take(0) =~= Seq::<Arc<Track>>::empty());
    while i < ts.len()
        invariant
            i <= ts@.len(),
            r@ == scored_tracks(ts@.take(i as int), query@),
        decreases ts@.len() - i,
    {
        let h = search_text_of(&ts[i]);
        assert(ts@.take(i + 1).drop_last() =~= ts@.take(i as int));
        assert(ts@.take(i + 1).last() == ts@[i as int]);
        match fuzzy_score(h.as_str(), query) {
            Some(s) => {
                r.push((s, share(&ts[i])));
            },
            None => {},
        }
        i = i + 1;
    }
    assert(ts@.take(ts@.len() as int) =~= ts@);
    r
}

fn share_all(ts: &Vec<Arc<Track>>) -> (r: Vec<Arc<Track>>)
    ensures
        r@ == ts@,
{
    let mut r: Vec<Arc<Track>> = Vec::new();
    let mut i: usize = 0;
    while i < ts.len()
        invariant
            i <= ts@.len(),
            r@ == ts@.take(i as int),
        decreases ts@.len() - i,
    {
        r.push(share(&ts[i]));
        assert(r@ =~= ts@.take(i + 1));
        i = i + 1;
    }
    assert(ts@.take(ts@.len() as int) =~= ts@);
    r
}

/// The tracks shown for a search query over `base`.
pub fn fuzzy_search_tracks(base: &Vec<Arc<Track>>, query: &str) -> (r: Vec<Arc<Track>>)
    ensures
        r@ == searched_tracks(base@, query@),
{
    if query.is_empty() {
        return share_all(base);
    }
    let scored = score_tracks(base, query);
    let sorted = sort_scored(scored);
    let n = sorted.len();
    let r = drop_scores(sorted, n);
    assert(seconds(sort_by(scored_tracks(base@, query@), by_score_desc::<Arc<Track>>())).take(n as int)
        =~= seconds(sort_by(scored_tracks(base@, query@), by_score_desc::<Arc<Track>>())));
    r
}

/// Every track a non-empty search shows matches the query, and no matching
/// track is left out.
pub proof fn lemma_search_shows_matches(ts: Seq<Arc<Track>>, q: Seq<char>)
    ensures
        sort_by(scored_tracks(ts, q), by_score_desc::<Arc<Track>>()).to_multiset()
            == scored_tracks(ts, q).to_multiset(),
        sorted_by(sort_by(scored_tracks(ts, q), by_score_desc::<Arc<Track>>()), by_score_desc::<Arc<Track>>()),
{
    lemma_sort_by(scored_tracks(ts, q), by_score_desc::<Arc<Track>>());
}

/// Ranking scored items puts the best match first: the result holds the
/// same items, and every item's score is at least the score of every item
/// after it.
pub proof fn lemma_sort_scored_best_first<T>(s: Seq<(i64, T)>)
    ensures
        sort_by(s, by_score_desc::<T>()).len() == s.len(),
        sort_by(s, by_score_desc::<T>()).to_multiset() == s.to_multiset(),
        forall|i: int, j: int|
            0 <= i < j < s.len() ==> (#[trigger] sort_by(s, by_score_desc::<T>())[i]).0 >= (
            #[trigger] sort_by(s, by_score_desc::<T>())[j]).0,
{
    let r = sort_by(s, by_score_desc::<T>());
    lemma_sort_by(s, by_score_desc::<T>());
    assert forall|i: int, j: int| 0 <= i < j < s.len() implies (#[trigger] r[i]).0 >= (#[trigger] r[j]).0 by {
        assert((by_score_desc::<T>())(r[i], r[j]));
    }
}

proof fn lemma_scored_tracks_scores(ts: Seq<Arc<Track>>, q: Seq<char>)
    ensures
        forall|k: int|
            0 <= k < scored_tracks(ts, q).len() ==> skim_score(
                search_text(*(#[trigger] scored_tracks(ts, q)[k]).1),
                q,
            ) == Some(scored_tracks(ts, q)[k].0),
    decreases ts.len(),
{
    if ts.len() > 0 {
        lemma_scored_tracks_scores(ts.drop_last(), q);
    }
}

/// A search over tracks shows the best match first: every shown track
/// matches the query, and its score is at least the score of every track
/// shown after it.
pub proof fn lemma_search_best_first(ts: Seq<Arc<Track>>, q: Seq<char>)
    requires
        q.len() > 0,
    ensures
        forall|i: int|
            0 <= i < searched_tracks(ts, q).len() ==> skim_score(
                search_text(*#[trigger] searched_tracks(ts, q)[i]),
                q,
            ) is Some,
        forall|i: int, j: int|
            0 <= i < j < searched_tracks(ts, q).len() ==> skim_score(
                search_text(*#[trigger] searched_tracks(ts, q)[i]),
                q,
            )->0 >= skim_score(search_text(*#[trigger] searched_tracks(ts, q)[j]), q)->0,
{
    broadcast use vstd::seq_lib::group_to_multiset_ensures;

    let s = scored_tracks(ts, q);
    let r = sort_by(s, by_score_desc::<Arc<Track>>());
    let out = searched_tracks(ts, q);
    lemma_sort_scored_best_first(s);
    lemma_scored_tracks_scores(ts, q);
    assert(out == seconds(r));
    assert forall|i: int| 0 <= i < r.len() implies skim_score(search_text(*(#[trigger] r[i]).1), q) == Some(
        r[i].0,
    ) by {
        assert(r.to_multiset().count(r[i]) > 0);
        assert(s.contains(r[i]));
        let k = choose|k: int| 0 <= k < s.len() && s[k] == r[i];
        assert(s[k] == r[i]);
    }
    assert forall|i: int| 0 <= i < out.len() implies skim_score(search_text(*#[trigger] out[i]), q) is Some by {
        assert(out[i] == r[i].1);
        assert(skim_score(search_text(*r[i].1), q) == Some(r[i].0));
    }
    assert forall|i: int, j: int| 0 <= i < j < out.len() implies skim_score(search_text(*#[trigger] out[i]), q)->0
        >= skim_score(search_text(*#[trigger] out[j]), q)->0 by {
        assert(out[i] == r[i].1);
        assert(out[j] == r[j].1);
        assert(skim_score(search_text(*r[i].1), q) == Some(r[i].0));
        assert(skim_score(search_text(*r[j].1), q) == Some(r[j].0));
        assert(r[i].0 >= r[j].0);
    }
}

} // verus!

verus! {

// ---------------------------------------------------------------------------
// Sorting the track list
// ---------------------------------------------------------------------------

/// Fields compared as lower-cased text.
pub open spec fn is_text_field(f: SortField) -> bool {
    f is Title || f is Artist || f is Album || f is Genre
}

/// The lower-cased text a track is sorted by for a text field.
pub open spec fn text_key(f: SortField, t: Track) -> Seq<char> {
    match f {
        SortField::Title => lowercase(t.title@),
        SortField::Artist => lowercase(t.shown_artist()),
        SortField::Album => lowercase(t.album@),
        SortField::Genre => lowercase(t.genre@),
        _ => Seq::empty(),
    }
}

/// The number a track is sorted by for a numeric field.
pub open spec fn num_key(f: SortField, t: Track) -> int {
    match f {
        SortField::Year => t.year as int,
        SortField::Duration => t.duration as int,
        SortField::DateAdded => t.added_at as int,
        SortField::PlayCount => t.play_count as int,
        SortField::LastPlayed => t.last_played as int,
        _ => 0,
    }
}

/// `a` sorts at or before `b` by field `f`, ascending.
pub open spec fn field_le(f: SortField, a: Track, b: Track) -> bool {
    if is_text_field(f) {
        text_le(text_key(f, a), text_key(f, b))
    } else {
        num_key(f, a) <= num_key(f, b)
    }
}

/// The order of the track list for a sort field and direction.
pub open spec fn track_order(f: SortField, o: SortOrder) -> spec_fn(Arc<Track>, Arc<Track>) -> bool {
    |a: Arc<Track>, b: Arc<Track>|
        if o == SortOrder::Asc {
            field_le(f, *a, *b)
        } else {
            field_le(f, *b, *a)
        }
}

/// What a track is compared by.
struct SortKey {
    text: Vec<char>,
    num: i64,
}

impl SortKey {
    spec fn fits(&self, f: SortField, t: Track) -> bool {
        if is_text_field(f) {
            self.text@ == text_key(f, t)
        } else {
            self.num as int == num_key(f, t)
        }
    }
}

fn sort_key(f: SortField, t: &Track) -> (k: SortKey)
    ensures
        k.fits(f, *t),
{
    match f {
        SortField::Title => SortKey { text: chars_of(to_lowercase(t.title.as_str()).as_str()), num: 0 },
        SortField::Artist => SortKey {
            text: chars_of(to_lowercase(t.display_artist()).as_str()),
            num: 0,
        },
        SortField::Album => SortKey { text: chars_of(to_lowercase(t.album.as_str()).as_str()), num: 0 },
        SortField::Genre => SortKey { text: chars_of(to_lowercase(t.genre.as_str()).as_str()), num: 0 },
        SortField::Year => SortKey { text: Vec::new(), num: t.year as i64 },
        SortField::Duration => SortKey { text: Vec::new(), num: t.duration },
        SortField::DateAdded => SortKey { text: Vec::new(), num: t.added_at },
        SortField::PlayCount => SortKey { text: Vec::new(), num: t.play_count },
        SortField::LastPlayed => SortKey { text: Vec::new(), num: t.last_played },
    }
}

fn key_le(f: SortField, o: SortOrder, a: &SortKey, b: &SortKey) -> (r: bool)
    ensures
        forall|ta: Track, tb: Track|
            a.fits(f, ta) && b.fits(f, tb) ==> r == (if o == SortOrder::Asc {
                field_le(f, ta, tb)
            } else {
                field_le(f, tb, ta)
            }),
{
    let text = match f {
        SortField::Title | SortField::Artist | SortField::Album | SortField::Genre => true,
        _ => false,
    };
    let asc = match o {
        SortOrder::Asc => true,
        SortOrder::Desc => false,
    };
    if text {
        if asc {
            chars_le(a.text.as_slice(), b.text.as_slice())
        } else {
            chars_le(b.text.as_slice(), a.text.as_slice())
        }
    } else {
        if asc {
            a.num <= b.num
        } else {
            b.num <= a.num
        }
    }
}

/// Sorts tracks by a field, ascending or descending, keeping tracks that
/// compare equal in the order given.
pub fn sort_tracks(tracks: Vec<Arc<Track>>, field: SortField, order: SortOrder) -> (r: Vec<Arc<Track>>)
    ensures
        r@ == sort_by(tracks@, track_order(field, order)),
{
    let ghost all = tracks@;
    let ghost le = track_order(field, order);
    let n = tracks.len();
    let mut src = tracks;
    let mut out: Vec<Arc<Track>> = Vec::new();
    let mut keys: Vec<SortKey> = Vec::new();
    let mut k: usize = 0;
    assert(all.take(0) =~= Seq::<Arc<Track>>::empty());
    assert(all.skip(0) =~= all);
    while src.len() > 0
        invariant
            k <= all.len() == n,
            le == track_order(field, order),
            src@ == all.skip(k as int),
            out@ == sort_by(all.take(k as int), le),
            keys@.len() == out@.len(),
            forall|i: int| 0 <= i < out@.len() ==> (#[trigger] keys@[i]).fits(field, *out@[i]),
        decreases src@.len(),
    {
        assert(k < all.len());
        let x = src.remove(0);
        assert(x == all[k as int]);
        let kx = sort_key(field, &x);
        let ghost s = out@;
        let mut j: usize = out.len();
        while j > 0 && !key_le(field, order, &keys[j - 1], &kx)
            invariant
                j <= out@.len(),
                s == out@,
                le == track_order(field, order),
                keys@.len() == out@.len(),
                forall|i: int| 0 <= i < out@.len() ==> (#[trigger] keys@[i]).fits(field, *out@[i]),
                kx.fits(field, *x),
                k < all.len(),
                x == all[k as int],
                forall|i: int| j <= i < s.len() ==> !le(#[trigger] s[i], x),
            decreases j,
        {
            j = j - 1;
        }
        proof {
            lemma_insert_by_at(s, x, le, j as int);
        }
        let ghost keys_before = keys@;
        out.insert(j, x);
        keys.insert(j, kx);
        assert forall|i: int| 0 <= i < out@.len() implies (#[trigger] keys@[i]).fits(field, *out@[i]) by {
            if i < j {
                assert(keys@[i] == keys_before[i]);
                assert(out@[i] == s[i]);
            } else if i > j {
                assert(keys@[i] == keys_before[i - 1]);
                assert(out@[i] == s[i - 1]);
            }
        }
        assert(all.take(k + 1).drop_last() =~= all.take(k as int));
        assert(all.take(k + 1).last() == x);
        assert(all.skip(k + 1) =~= all.skip(k as int).drop_first());
        k = k + 1;
    }
    assert(all.take(k as int) =~= all);
    out
}

/// The sorted track list is in order by the chosen field and direction, and
/// holds exactly the tracks it was given.
pub proof fn lemma_sorted_tracks(tracks: Seq<Arc<Track>>, field: SortField, order: SortOrder)
    ensures
        sorted_by(sort_by(tracks, track_order(field, order)), track_order(field, order)),
        sort_by(tracks, track_order(field, order)).to_multiset() == tracks.to_multiset(),
{
    let le = track_order(field, order);
    assert(total_preorder(le)) by {
        assert forall|a: Arc<Track>, b: Arc<Track>| #[trigger] le(a, b) || le(b, a) by {
            if is_text_field(field) {
                lemma_text_le_total(text_key(field, *a), text_key(field, *b));
            }
        }
        assert forall|a: Arc<Track>, b: Arc<Track>, c: Arc<Track>|
            #[trigger] le(a, b) && #[trigger] le(b, c) implies le(a, c) by {
            if is_text_field(field) {
                if order == SortOrder::Asc {
                    lemma_text_le_trans(text_key(field, *a), text_key(field, *b), text_key(field, *c));
                } else {
                    lemma_text_le_trans(text_key(field, *c), text_key(field, *b), text_key(field, *a));
                }
            }
        }
    }
    lemma_sort_by(tracks, le);
}

/// Track `a` may stand before track `b` when sorting ascending by `field`:
/// text fields compare lower-cased text, the others compare numbers.
pub open spec fn may_precede(field: SortField, a: Track, b: Track) -> bool {
    match field {
        SortField::Title => text_le(lowercase(a.title@), lowercase(b.title@)),
        SortField::Artist => text_le(lowercase(a.shown_artist()), lowercase(b.shown_artist())),
        SortField::Album => text_le(lowercase(a.album@), lowercase(b.album@)),
        SortField::Genre => text_le(lowercase(a.genre@), lowercase(b.genre@)),
        SortField::Year => a.year <= b.year,
        SortField::Duration => a.duration <= b.duration,
        SortField::DateAdded => a.added_at <= b.added_at,
        SortField::PlayCount => a.play_count <= b.play_count,
        SortField::LastPlayed => a.last_played <= b.last_played,
    }
}

/// The sorted track list is ordered by the chosen field: ascending, each
/// track may precede every later one (sorted by duration, each duration is
/// at most every later one); descending, the reverse.  It holds the tracks
/// it was given.
pub proof fn lemma_sorted_tracks_by_field(tracks: Seq<Arc<Track>>, field: SortField, order: SortOrder)
    ensures
        sort_by(tracks, track_order(field, order)).to_multiset() == tracks.to_multiset(),
        forall|i: int, j: int|
            0 <= i < j < sort_by(tracks, track_order(field, order)).len() ==> if order == SortOrder::Asc {
                may_precede(
                    field,
                    *#[trigger] sort_by(tracks, track_order(field, order))[i],
                    *#[trigger] sort_by(tracks, track_order(field, order))[j],
                )
            } else {
                may_precede(
                    field,
                    *sort_by(tracks, track_order(field, order))[j],
                    *sort_by(tracks, track_order(field, order))[i],
                )
            },
{
    let r = sort_by(tracks, track_order(field, order));
    lemma_sorted_tracks(tracks, field, order);
    assert forall|i: int, j: int| 0 <= i < j < r.len() implies if order == SortOrder::Asc {
        may_precede(field, *#[trigger] r[i], *#[trigger] r[j])
    } else {
        may_precede(field, *r[j], *r[i])
    } by {
        assert((track_order(field, order))(r[i], r[j]));
    }
}

} // verus!

verus! {

// ---------------------------------------------------------------------------
// What a sidebar entry shows
// ---------------------------------------------------------------------------

/// Equal up to ASCII case (`str::eq_ignore_ascii_case`).
pub open spec fn eq_ascii_nocase(a: Seq<char>, b: Seq<char>) -> bool {
    ascii_lower(a) == ascii_lower(b)
}

fn eq_ignore_ascii_case(a: &str, b: &str) -> (r: bool)
    ensures
        r == eq_ascii_nocase(a@, b@),
{
    let la = ascii_lowercase(chars_of(a).as_slice());
    let lb = ascii_lowercase(chars_of(b).as_slice());
    chars_eq(la.as_slice(), lb.as_slice())
}

/// A subset of the library picked from the sidebar.
#[derive(Debug, Clone)]
pub enum TrackFilter {
    Favorites,
    Artist(String),
    Album(String),
    Genre(String),
}

/// Some comma-separated piece of the genre, trimmed, is `g` up to ASCII
/// case.
pub open spec fn has_genre(genre: Seq<char>, g: Seq<char>) -> bool {
    exists|i: int|
        0 <= i < split_on(genre, ',').len() && eq_ascii_nocase(trim(#[trigger] split_on(genre, ',')[i]), g)
}

/// The track belongs to the subset.
pub open spec fn filter_holds(f: TrackFilter, t: Track) -> bool {
    match f {
        TrackFilter::Favorites => t.favorite,
        TrackFilter::Artist(a) => eq_ascii_nocase(t.artist@, a@) || eq_ascii_nocase(t.albumartist@, a@),
        TrackFilter::Album(a) => eq_ascii_nocase(t.album@, a@),
        TrackFilter::Genre(g) => has_genre(t.genre@, g@),
    }
}

/// The tracks of the subset, in library order.
pub open spec fn filtered(ts: Seq<Arc<Track>>, f: TrackFilter) -> Seq<Arc<Track>>
    decreases ts.len(),
{
    if ts.len() == 0 {
        Seq::empty()
    } else {
        let pre = filtered(ts.drop_last(), f);
        if filter_holds(f, *ts.last()) {
            pre.push(ts.last())
        } else {
            pre
        }
    }
}

fn genre_matches(genre: &str, g: &str) -> (r: bool)
    ensures
        r == has_genre(genre@, g@),
{
    let pieces = split_chars(chars_of(genre).as_slice(), ',');
    let ghost ps = split_on(genre@, ',');
    let lg = ascii_lowercase(chars_of(g).as_slice());
    let mut i: usize = 0;
    while i < pieces.len()
        invariant
            i <= pieces@.len(),
            views(pieces@) == ps,
            ps == split_on(genre@, ','),
            lg@ == ascii_lower(g@),
            forall|j: int| 0 <= j < i ==> !eq_ascii_nocase(trim(#[trigger] ps[j]), g@),
        decreases pieces@.len() - i,
    {
        let t = trim_chars(pieces[i].as_slice());
        let lt = ascii_lowercase(t.as_slice());
        assert(ps[i as int] == pieces@[i as int]@);
        if chars_eq(lt.as_slice(), lg.as_slice()) {
            assert(eq_ascii_nocase(trim(ps[i as int]), g@));
            return true;
        }
        i = i + 1;
    }
    false
}

fn filter_holds_exec(f: &TrackFilter, t: &Track) -> (r: bool)
    ensures
        r == filter_holds(*f, *t),
{
    match f {
        TrackFilter::Favorites => t.favorite,
        TrackFilter::Artist(a) => eq_ignore_ascii_case(t.artist.as_str(), a.as_str())
            || eq_ignore_ascii_case(t.albumartist.as_str(), a.as_str()),
        TrackFilter::Album(a) => eq_ignore_ascii_case(t.album.as_str(), a.as_str()),
        TrackFilter::Genre(g) => genre_matches(t.genre.as_str(), g.as_str()),
    }
}

/// The tracks of `all` in the subset, in library order.
pub fn filter_tracks(all: &Vec<Arc<Track>>, f: &TrackFilter) -> (r: Vec<Arc<Track>>)
    ensures
        r@ == filtered(all@, *f),
{
    let mut r: Vec<Arc<Track>> = Vec::new();
    let mut i: usize = 0;
    assert(all@.take(0) =~= Seq::<Arc<Track>>::empty());
    while i < all.len()
        invariant
            i <= all@.len(),
            r@ == filtered(all@.take(i as int), *f),
        decreases all@.len() - i,
    {
        assert(all@.take(i + 1).drop_last() =~= all@.take(i as int));
        assert(all@.take(i + 1).last() == all@[i as int]);
        if filter_holds_exec(f, &all[i]) {
            r.push(share(&all[i]));
        }
        i = i + 1;
    }
    assert(all@.take(all@.len() as int) =~= all@);
    r
}

/// Newest additions first (ties in library order).
pub open spec fn newest_first() -> spec_fn(Arc<Track>, Arc<Track>) -> bool {
    |a: Arc<Track>, b: Arc<Track>| a.added_at >= b.added_at
}

/// The fifty most recently added tracks, newest first.
pub open spec fn recently_added(all: Seq<Arc<Track>>) -> Seq<Arc<Track>> {
    let s = sort_by(all, newest_first());
    if s.len() <= 50 {
        s
    } else {
        s.take(50)
    }
}

/// The tracks of the "Recently Added" entry.
pub fn recently_added_tracks(all: &Vec<Arc<Track>>) -> (r: Vec<Arc<Track>>)
    ensures
        r@ == recently_added(all@),
{
    let copy = share_all(all);
    let sorted = sort_tracks(copy, SortField::DateAdded, SortOrder::Desc);
    assert(track_order(SortField::DateAdded, SortOrder::Desc) =~= newest_first());
    let mut sorted = sorted;
    if sorted.len() > 50 {
        sorted.truncate(50);
    }
    sorted
}

/// The track a playlist entry names: the last library track with that
/// path.
pub open spec fn track_at_path(all: Seq<Arc<Track>>, p: Seq<char>) -> Option<Arc<Track>>
    decreases all.len(),
{
    if all.len() == 0 {
        None
    } else if all.last().path@ == p {
        Some(all.last())
    } else {
        track_at_path(all.drop_last(), p)
    }
}

/// The library tracks of playlist entries, in playlist order (entries not
/// in the library left out).
pub open spec fn entry_tracks(all: Seq<Arc<Track>>, entries: Seq<Seq<char>>) -> Seq<Arc<Track>>
    decreases entries.len(),
{
    if entries.len() == 0 {
        Seq::empty()
    } else {
        let pre = entry_tracks(all, entries.drop_last());
        match track_at_path(all, entries.last()) {
            Some(t) => pre.push(t),
            None => pre,
        }
    }
}

fn find_by_path(all: &Vec<Arc<Track>>, p: &str) -> (r: Option<Arc<Track>>)
    ensures
        r == track_at_path(all@, p@),
{
    let mut i: usize = all.len();
    assert(all@.take(all@.len() as int) =~= all@);
    while i > 0
        invariant
            i <= all@.len(),
            track_at_path(all@, p@) == track_at_path(all@.take(i as int), p@),
        decreases i,
    {
        assert(all@.take(i as int).last() == all@[i - 1]);
        assert(all@.take(i as int).drop_last() =~= all@.take(i - 1));
        if str_eq(all[i - 1].path.as_str(), p) {
            return Some(share(&all[i - 1]));
        }
        i = i - 1;
    }
    None
}

/// The library tracks of a playlist's entries, in playlist order.
pub fn playlist_tracks(all: &Vec<Arc<Track>>, entries: &Vec<String>) -> (r: Vec<Arc<Track>>)
    ensures
        r@ == entry_tracks(all@, string_views(entries@)),
{
    let ghost es = string_views(entries@);
    let mut r: Vec<Arc<Track>> = Vec::new();
    let mut i: usize = 0;
    assert(es.take(0) =~= Seq::<Seq<char>>::empty());
    while i < entries.len()
        invariant
            i <= entries@.len(),
            es == string_views(entries@),
            r@ == entry_tracks(all@, es.take(i as int)),
        decreases entries@.len() - i,
    {
        assert(es.take(i + 1).drop_last() =~= es.take(i as int));
        assert(es.take(i + 1).last() == entries@[i as int]@);
        match find_by_path(all, entries[i].as_str()) {
            Some(t) => r.push(t),
            None => {},
        }
        i = i + 1;
    }
    assert(es.take(entries@.len() as int) =~= es);
    r
}

} // verus!

verus! {

// ---------------------------------------------------------------------------
// Sidebar search and the global search
// ---------------------------------------------------------------------------

/// The positions of the entries that match `q`, each with its score.
pub open spec fn scored_positions(items: Seq<String>, q: Seq<char>) -> Seq<(i64, usize)>
    decreases items.len(),
{
    if items.len() == 0 {
        Seq::empty()
    } else {
        let pre = scored_positions(items.drop_last(), q);
        match skim_score(items.last()@, q) {
            Some(s) => pre.push((s, (items.len() - 1) as usize)),
            None => pre,
        }
    }
}

/// The filter a sidebar search puts on a section: none for an empty query,
/// else the positions of the matching entries, best match first.
pub open spec fn section_filter_of(items: Seq<String>, q: Seq<char>) -> Option<Seq<usize>> {
    if q.len() == 0 {
        None
    } else {
        Some(seconds(sort_by(scored_positions(items, q), by_score_desc::<usize>())))
    }
}

/// Computes the filter of a sidebar section for a search query.
pub fn section_filter(items: &Vec<String>, query: &str) -> (r: Option<Vec<usize>>)
    ensures
        match r {
            None => section_filter_of(items@, query@) is None,
            Some(v) => section_filter_of(items@, query@) == Some(v@),
        },
{
    if query.is_empty() {
        return None;
    }
    let mut scored: Vec<(i64, usize)> = Vec::new();
    let mut i: usize = 0;
    assert(items@.take(0) =~= Seq::<String>::empty());
    while i < items.len()
        invariant
            i <= items@.len(),
            scored@ == scored_positions(items@.take(i as int), query@),
        decreases items@.len() - i,
    {
        assert(items@.take(i + 1).drop_last() =~= items@.take(i as int));
        assert(items@.take(i + 1).last() == items@[i as int]);
        match fuzzy_score(items[i].as_str(), query) {
            Some(s) => scored.push((s, i)),
            None => {},
        }
        i = i + 1;
    }
    assert(items@.take(items@.len() as int) =~= items@);
    let sorted = sort_scored(scored);
    let n = sorted.len();
    let r = drop_scores(sorted, n);
    assert(seconds(sort_by(scored_positions(items@, query@), by_score_desc::<usize>())).take(n as int)
        =~= seconds(sort_by(scored_positions(items@, query@), by_score_desc::<usize>())));
    Some(r)
}

/// A named hit of the global search, by kind: album, artist, playlist or
/// genre.
pub open spec fn named_hit(kind: int, s: String) -> GlobalSearchResult {
    if kind == 1 {
        GlobalSearchResult::Album(s)
    } else if kind == 2 {
        GlobalSearchResult::Artist(s)
    } else if kind == 3 {
        GlobalSearchResult::Playlist(s)
    } else {
        GlobalSearchResult::Genre(s)
    }
}

/// The named entries that match `q`, with their scores, in order.
pub open spec fn name_hits(names: Seq<String>, q: Seq<char>, kind: int) -> Seq<(i64, GlobalSearchResult)>
    decreases names.len(),
{
    if names.len() == 0 {
        Seq::empty()
    } else {
        let pre = name_hits(names.drop_last(), q, kind);
        match skim_score(names.last()@, q) {
            Some(s) => pre.push((s, named_hit(kind, names.last()))),
            None => pre,
        }
    }
}

/// The tracks that match `q`, with their scores, in order.
pub open spec fn track_hits(ts: Seq<Arc<Track>>, q: Seq<char>) -> Seq<(i64, GlobalSearchResult)> {
    scored_tracks(ts, q).map_values(|p: (i64, Arc<Track>)| (p.0, GlobalSearchResult::Track(p.1)))
}

/// What the global search shows: nothing for an empty query, else the best
/// fifty hits among tracks, albums, artists, playlists and genres (ties in
/// that order).
pub open spec fn global_results(
    tracks: Seq<Arc<Track>>,
    albums: Seq<String>,
    artists: Seq<String>,
    playlists: Seq<String>,
    genres: Seq<String>,
    q: Seq<char>,
) -> Seq<GlobalSearchResult> {
    if q.len() == 0 {
        Seq::empty()
    } else {
        let hits = track_hits(tracks, q) + name_hits(albums, q, 1) + name_hits(artists, q, 2)
            + name_hits(playlists, q, 3) + name_hits(genres, q, 4);
        let s = seconds(sort_by(hits, by_score_desc::<GlobalSearchResult>()));
        if s.len() <= 50 {
            s
        } else {
            s.take(50)
        }
    }
}

fn push_name_hits(out: &mut Vec<(i64, GlobalSearchResult)>, names: &Vec<String>, query: &str, kind: u8)
    requires
        1 <= kind <= 4,
    ensures
        final(out)@ == old(out)@ + name_hits(names@, query@, kind as int),
{
    let ghost start = out@;
    let mut i: usize = 0;
    assert(names@.take(0) =~= Seq::<String>::empty());
    assert(start + Seq::<(i64, GlobalSearchResult)>::empty() =~= start);
    while i < names.len()
        invariant
            i <= names@.len(),
            1 <= kind <= 4,
            out@ == start + name_hits(names@.take(i as int), query@, kind as int),
        decreases names@.len() - i,
    {
        assert(names@.take(i + 1).drop_last() =~= names@.take(i as int));
        assert(names@.take(i + 1).last() == names@[i as int]);
        match fuzzy_score(names[i].as_str(), query) {
            Some(s) => {
                let name = names[i].clone();
                let hit = if kind == 1 {
                    GlobalSearchResult::Album(name)
                } else if kind == 2 {
                    GlobalSearchResult::Artist(name)
                } else if kind == 3 {
                    GlobalSearchResult::Playlist(name)
                } else {
                    GlobalSearchResult::Genre(name)
                };
                out.push((s, hit));
                assert(out@ =~= start + name_hits(names@.take(i + 1), query@, kind as int));
            },
            None => {},
        }
        i = i + 1;
    }
    assert(names@.take(names@.len() as int) =~= names@);
}

/// The results of the global search.
pub fn global_search(
    tracks: &Vec<Arc<Track>>,
    albums: &Vec<String>,
    artists: &Vec<String>,
    playlists: &Vec<String>,
    genres: &Vec<String>,
    query: &str,
) -> (r: Vec<GlobalSearchResult>)
    ensures
        r@ == global_results(tracks@, albums@, artists@, playlists@, genres@, query@),
{
    if query.is_empty() {
        return Vec::new();
    }
    let scored = score_tracks(tracks, query);
    let mut hits: Vec<(i64, GlobalSearchResult)> = Vec::new();
    let mut i: usize = 0;
    while i < scored.len()
        invariant
            i <= scored@.len(),
            scored@ == scored_tracks(tracks@, query@),
            hits@ == track_hits(tracks@, query@).take(i as int),
        decreases scored@.len() - i,
    {
        let t = share(&scored[i].1);
        hits.push((scored[i].0, GlobalSearchResult::Track(t)));
        assert(hits@ =~= track_hits(tracks@, query@).take(i + 1));
        i = i + 1;
    }
    assert(track_hits(tracks@, query@).take(scored@.len() as int) =~= track_hits(tracks@, query@));
    push_name_hits(&mut hits, albums, query, 1);
    push_name_hits(&mut hits, artists, query, 2);
    push_name_hits(&mut hits, playlists, query, 3);
    push_name_hits(&mut hits, genres, query, 4);
    let sorted = sort_scored(hits);
    let r = drop_scores(sorted, 50);
    r
}

} // verus!

verus! {

// ---------------------------------------------------------------------------
// The sidebar list
// ---------------------------------------------------------------------------

/// Which sidebar sections are open.
#[derive(Debug, Clone, Copy, PartialEq, Eq, Structural)]
pub struct SidebarExpanded {
    pub artists: bool,
    pub albums: bool,
    pub genres: bool,
    pub playlists: bool,
}

impl SidebarExpanded {
    /// All sections closed.
    pub fn new() -> (r: SidebarExpanded)
        ensures
            !r.artists && !r.albums && !r.genres && !r.playlists,
    {
        SidebarExpanded { artists: false, albums: false, genres: false, playlists: false }
    }

    /// Opens or closes the section of a section header; other entries change
    /// nothing.
    pub fn toggle(&mut self, item: &SidebarItem)
        ensures
            final(self).artists == (old(self).artists != (*item is Artists)),
            final(self).albums == (old(self).albums != (*item is Albums)),
            final(self).genres == (old(self).genres != (*item is Genres)),
            final(self).playlists == (old(self).playlists != (*item is Playlists)),
    {
        match item {
            SidebarItem::Artists => self.artists = !self.artists,
            SidebarItem::Albums => self.albums = !self.albums,
            SidebarItem::Genres => self.genres = !self.genres,
            SidebarItem::Playlists => self.playlists = !self.playlists,
            _ => {},
        }
    }

    /// Opens the section an entry belongs to.
    pub fn expand_for(&mut self, item: &SidebarItem)
        ensures
            final(self).artists == (old(self).artists || *item is Artist),
            final(self).albums == (old(self).albums || *item is Album),
            final(self).genres == (old(self).genres || *item is Genre),
            final(self).playlists == (old(self).playlists || *item is Playlist),
    {
        match item {
            SidebarItem::Artist(_) => self.artists = true,
            SidebarItem::Album(_) => self.albums = true,
            SidebarItem::Genre(_) => self.genres = true,
            SidebarItem::Playlist(_) => self.playlists = true,
            _ => {},
        }
    }
}

/// The entries of a section, by kind: artists, albums, genres, playlists.
pub open spec fn section_entries(names: Seq<String>, kind: int) -> Seq<SidebarItem> {
    names.map_values(
        |s: String|
            if kind == 1 {
                SidebarItem::Artist(s)
            } else if kind == 2 {
                SidebarItem::Album(s)
            } else if kind == 3 {
                SidebarItem::Genre(s)
            } else {
                SidebarItem::Playlist(s)
            },
    )
}

/// The sidebar: the fixed entries, then each section's header followed by
/// its shown entries when the section is open.
pub open spec fn sidebar_layout(
    e: SidebarExpanded,
    artists: Seq<String>,
    albums: Seq<String>,
    genres: Seq<String>,
    playlists: Seq<String>,
) -> Seq<SidebarItem> {
    seq![SidebarItem::AllTracks, SidebarItem::Favorites, SidebarItem::RecentlyAdded, SidebarItem::Artists]
        + (if e.artists { section_entries(artists, 1) } else { Seq::empty() })
        + seq![SidebarItem::Albums]
        + (if e.albums { section_entries(albums, 2) } else { Seq::empty() })
        + seq![SidebarItem::Genres]
        + (if e.genres { section_entries(genres, 3) } else { Seq::empty() })
        + seq![SidebarItem::Playlists]
        + (if e.playlists { section_entries(playlists, 4) } else { Seq::empty() })
}

fn push_section(out: &mut Vec<SidebarItem>, names: Vec<String>, kind: u8)
    requires
        1 <= kind <= 4,
    ensures
        final(out)@ == old(out)@ + section_entries(names@, kind as int),
{
    let ghost start = out@;
    let ghost all = names@;
    let n = names.len();
    let mut src = names;
    let mut k: usize = 0;
    assert(all.skip(0) =~= all);
    assert(start + section_entries(all.take(0), kind as int) =~= start);
    while src.len() > 0
        invariant
            k <= all.len() == n,
            1 <= kind <= 4,
            src@ == all.skip(k as int),
            out@ == start + section_entries(all.take(k as int), kind as int),
        decreases src@.len(),
    {
        assert(k < all.len());
        let s = src.remove(0);
        assert(s == all[k as int]);
        let item = if kind == 1 {
            SidebarItem::Artist(s)
        } else if kind == 2 {
            SidebarItem::Album(s)
        } else if kind == 3 {
            SidebarItem::Genre(s)
        } else {
            SidebarItem::Playlist(s)
        };
        out.push(item);
        assert(out@ =~= start + section_entries(all.take(k + 1), kind as int));
        assert(all.skip(k + 1) =~= all.skip(k as int).drop_first());
        k = k + 1;
    }
    assert(all.take(k as int) =~= all);
}

/// Lays out the sidebar from the open sections and the entries each section
/// shows.
pub fn sidebar_items(
    e: &SidebarExpanded,
    artists: Vec<String>,
    albums: Vec<String>,
    genres: Vec<String>,
    playlists: Vec<String>,
) -> (r: Vec<SidebarItem>)
    ensures
        r@ == sidebar_layout(*e, artists@, albums@, genres@, playlists@),
{
    let ghost (ar, al, ge, pl) = (artists@, albums@, genres@, playlists@);
    let mut items: Vec<SidebarItem> = vec![
        SidebarItem::AllTracks,
        SidebarItem::Favorites,
        SidebarItem::RecentlyAdded,
        SidebarItem::Artists,
    ];
    let ghost s0 = items@;
    if e.artists {
        push_section(&mut items, artists, 1);
    }
    assert(items@ =~= s0 + (if e.artists { section_entries(ar, 1) } else { Seq::empty() }));
    let ghost s1 = items@;
    items.push(SidebarItem::Albums);
    if e.albums {
        push_section(&mut items, albums, 2);
    }
    let ghost s2 = items@;
    assert(s2 =~= s1 + seq![SidebarItem::Albums] + (if e.albums { section_entries(al, 2) } else { Seq::empty() }));
    items.push(SidebarItem::Genres);
    if e.genres {
        push_section(&mut items, genres, 3);
    }
    let ghost s3 = items@;
    assert(s3 =~= s2 + seq![SidebarItem::Genres] + (if e.genres { section_entries(ge, 3) } else { Seq::empty() }));
    items.push(SidebarItem::Playlists);
    if e.playlists {
        push_section(&mut items, playlists, 4);
    }
    assert(items@ =~= s3 + seq![SidebarItem::Playlists] + (if e.playlists { section_entries(pl, 4) } else { Seq::empty() }));
    assert(items@ =~= sidebar_layout(*e, ar, al, ge, pl));
    items
}

/// The sidebar position kept after the list changed: the last entry when
/// the old position is past the end.
pub fn clamp_sidebar_index(index: usize, len: usize) -> (r: usize)
    ensures
        r == if index >= len {
            if len == 0 {
                0
            } else {
                (len - 1) as usize
            }
        } else {
            index
        },
{
    if index >= len {
        if len == 0 {
            0
        } else {
            len - 1
        }
    } else {
        index
    }
}

// ---------------------------------------------------------------------------
// Choosing a sidebar entry
// ---------------------------------------------------------------------------

/// The first playlist with the given name.
pub open spec fn playlist_named(pls: Seq<Playlist>, name: Seq<char>) -> Option<Playlist>
    decreases pls.len(),
{
    if pls.len() == 0 {
        None
    } else if pls[0].name@ == name {
        Some(pls[0])
    } else {
        playlist_named(pls.drop_first(), name)
    }
}

/// The tracks a sidebar entry shows.
pub open spec fn entry_selection(item: SidebarItem, all: Seq<Arc<Track>>, pls: Seq<Playlist>) -> Seq<Arc<Track>> {
    match item {
        SidebarItem::Favorites => filtered(all, TrackFilter::Favorites),
        SidebarItem::RecentlyAdded => recently_added(all),
        SidebarItem::Artist(a) => filtered(all, TrackFilter::Artist(a)),
        SidebarItem::Album(a) => filtered(all, TrackFilter::Album(a)),
        SidebarItem::Genre(g) => filtered(all, TrackFilter::Genre(g)),
        SidebarItem::Playlist(n) => match playlist_named(pls, n@) {
            Some(p) => entry_tracks(all, string_views(p.entries@)),
            None => Seq::empty(),
        },
        _ => all,
    }
}

fn find_playlist<'a>(pls: &'a Vec<Playlist>, name: &str) -> (r: Option<&'a Playlist>)
    ensures
        match r {
            Some(p) => playlist_named(pls@, name@) == Some(*p),
            None => playlist_named(pls@, name@) is None,
        },
{
    let mut i: usize = 0;
    assert(pls@.skip(0) =~= pls@);
    while i < pls.len()
        invariant
            i <= pls@.len(),
            playlist_named(pls@, name@) == playlist_named(pls@.skip(i as int), name@),
        decreases pls@.len() - i,
    {
        assert(pls@.skip(i as int)[0] == pls@[i as int]);
        assert(pls@.skip(i as int).drop_first() =~= pls@.skip(i + 1));
        if str_eq(pls[i].name.as_str(), name) {
            return Some(&pls[i]);
        }
        i = i + 1;
    }
    None
}

/// The tracks shown when a sidebar entry is chosen (headers show the whole
/// library).
pub fn selection_tracks(item: &SidebarItem, all: &Vec<Arc<Track>>, playlists: &Vec<Playlist>) -> (r: Vec<Arc<Track>>)
    ensures
        r@ == entry_selection(*item, all@, playlists@),
{
    match item {
        SidebarItem::Favorites => filter_tracks(all, &TrackFilter::Favorites),
        SidebarItem::RecentlyAdded => recently_added_tracks(all),
        SidebarItem::Artist(a) => filter_tracks(all, &TrackFilter::Artist(a.clone())),
        SidebarItem::Album(a) => filter_tracks(all, &TrackFilter::Album(a.clone())),
        SidebarItem::Genre(g) => filter_tracks(all, &TrackFilter::Genre(g.clone())),
        SidebarItem::Playlist(n) => match find_playlist(playlists, n.as_str()) {
            Some(p) => playlist_tracks(all, &p.entries),
            None => Vec::new(),
        },
        _ => share_all(all),
    }
}

/// The sort a sidebar entry starts with: newest first for recent
/// additions, by artist otherwise.
pub fn selection_sort(item: &SidebarItem) -> (r: (SortField, SortOrder))
    ensures
        r == if *item is RecentlyAdded {
            (SortField::DateAdded, SortOrder::Desc)
        } else {
            (SortField::Artist, SortOrder::Asc)
        },
{
    match item {
        SidebarItem::RecentlyAdded => (SortField::DateAdded, SortOrder::Desc),
        _ => (SortField::Artist, SortOrder::Asc),
    }
}

} // verus!
