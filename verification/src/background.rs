//! Folding the results of background work into the player's state: a
//! finished lyrics download, lyrics waiting to be written into the files'
//! tags, and track durations measured after indexing.

use std::sync::Arc;
use vstd::prelude::*;
use crate::lyrics::{lyric_lines_of, parse_lyrics, parsed_as};
use crate::text::str_eq;
use crate::types::{LyricsFetchResult, LyricsFetchStatus, LyricsState, Track};

verus! {

/// The paths and texts of (path, text) pairs, as character sequences.
pub open spec fn pair_views(s: Seq<(String, String)>) -> Seq<(Seq<char>, Seq<char>)> {
    s.map_values(|p: (String, String)| (p.0@, p.1@))
}

/// No path occurs twice.
pub open spec fn distinct_paths(s: Seq<(Seq<char>, Seq<char>)>) -> bool {
    forall|i: int, j: int| 0 <= i < j < s.len() ==> s[i].0 != s[j].0
}

/// The pairs after storing `text` for `path`: the text of an entry for
/// the path is replaced, else the pair is appended.
pub open spec fn stored(
    s: Seq<(Seq<char>, Seq<char>)>,
    path: Seq<char>,
    text: Seq<char>,
) -> Seq<(Seq<char>, Seq<char>)> {
    if exists|i: int| 0 <= i < s.len() && s[i].0 == path {
        let i = choose|i: int| 0 <= i < s.len() && s[i].0 == path;
        s.update(i, (path, text))
    } else {
        s.push((path, text))
    }
}

/// Filtering keeps the paths distinct, and keeps only pairs of the
/// sequence.
pub proof fn lemma_filter_keeps_distinct(
    s: Seq<(Seq<char>, Seq<char>)>,
    p: spec_fn((Seq<char>, Seq<char>)) -> bool,
)
    requires
        distinct_paths(s),
    ensures
        distinct_paths(s.filter(p)),
        forall|i: int| 0 <= i < s.filter(p).len() ==> s.contains(#[trigger] s.filter(p)[i]),
    decreases s.len(),
{
    if s.len() == 0 {
        reveal(Seq::filter);
        assert(s.filter(p) =~= s);
    } else {
        let init = s.drop_last();
        let x = s.last();
        assert(init.push(x) =~= s);
        lemma_filter_keeps_distinct(init, p);
        init.lemma_filter_push(x, p);
        let f = init.filter(p);
        assert forall|i: int| 0 <= i < f.len() implies s.contains(#[trigger] f[i]) by {
            let j = choose|j: int| 0 <= j < init.len() && init[j] == f[i];
            assert(s[j] == f[i]);
        }
        if p(x) {
            assert forall|i: int| 0 <= i < f.len() implies #[trigger] f[i].0 != x.0 by {
                let j = choose|j: int| 0 <= j < init.len() && init[j] == f[i];
                assert(s[j] == init[j]);
                assert(s[j].0 != s[s.len() - 1].0);
            }
            let g = f.push(x);
            assert forall|i: int| 0 <= i < g.len() implies s.contains(#[trigger] g[i]) by {
                if i == f.len() {
                    assert(s[s.len() - 1] == g[i]);
                } else {
                    assert(g[i] == f[i]);
                }
            }
            assert forall|i: int, j: int| 0 <= i < j < g.len() implies g[i].0 != g[j].0 by {
                if j == f.len() {
                    assert(g[i] == f[i]);
                } else {
                    assert(g[i] == f[i] && g[j] == f[j]);
                }
            }
        }
    }
}

/// Downloaded lyrics not yet written into a file's tag, at most one text
/// per track path.  Tags of the file being played are not rewritten: that
/// would spoil its decoding, so its lyrics wait until it stops playing.
#[derive(Debug)]
pub struct PendingLyrics {
    pub entries: Vec<(String, String)>,
}

impl PendingLyrics {
    pub open spec fn pairs(&self) -> Seq<(Seq<char>, Seq<char>)> {
        pair_views(self.entries@)
    }

    pub open spec fn well_formed(&self) -> bool {
        distinct_paths(self.pairs())
    }

    pub fn new() -> (r: PendingLyrics)
        ensures
            r.pairs().len() == 0,
            r.well_formed(),
    {
        PendingLyrics { entries: Vec::new() }
    }

    pub fn is_empty(&self) -> (b: bool)
        ensures
            b == (self.pairs().len() == 0),
    {
        self.entries.len() == 0
    }

    /// Keeps `text` to be written into the tag of `path`, in place of
    /// lyrics kept for it before.
    pub fn insert(&mut self, path: String, text: String)
        requires
            old(self).well_formed(),
        ensures
            final(self).well_formed(),
            final(self).pairs() == stored(old(self).pairs(), path@, text@),
    {
        let ghost s = self.pairs();
        let n = self.entries.len();
        let mut i: usize = 0;
        while i < n
            invariant
                n == self.entries@.len(),
                i <= n,
                s == self.pairs(),
                s == old(self).pairs(),
                distinct_paths(s),
                forall|j: int| 0 <= j < i ==> s[j].0 != path@,
            decreases n - i,
        {
            if str_eq(self.entries[i].0.as_str(), path.as_str()) {
                proof {
                    assert(s[i as int].0 == path@);
                    assert(exists|k: int| 0 <= k < s.len() && s[k].0 == path@);
                    let w = choose|k: int| 0 <= k < s.len() && s[k].0 == path@;
                    assert(w == i) by {
                        if w != i {
                            if w < i {
                                assert(s[w].0 != path@);
                            } else {
                                assert(s[i as int].0 != s[w].0);
                            }
                        }
                    }
                }
                let ghost before = self.entries@;
                self.entries.set(i, (path, text));
                proof {
                    let u = s.update(i as int, (path@, text@));
                    assert(self.pairs() =~= u);
                    assert(stored(s, path@, text@) == u);
                    assert forall|a: int, b: int| 0 <= a < b < u.len() implies u[a].0 != u[b].0 by {
                        assert(s[a].0 != s[b].0);
                    }
                }
                return;
            }
            i = i + 1;
        }
        proof {
            assert(!exists|k: int| 0 <= k < s.len() && s[k].0 == path@);
        }
        self.entries.push((path, text));
        assert(self.pairs() =~= s.push((path@, text@)));
    }

    /// Takes out the lyrics of every track but the one playing (`current`),
    /// to be written now; the playing track's lyrics stay.
    pub fn take_flushable(&mut self, current: Option<&str>) -> (out: Vec<(String, String)>)
        requires
            old(self).well_formed(),
        ensures
            final(self).well_formed(),
            pair_views(out@) == old(self).pairs().filter(
                |p: (Seq<char>, Seq<char>)| !(current matches Some(c) && p.0 == c@),
            ),
            final(self).pairs() == old(self).pairs().filter(
                |p: (Seq<char>, Seq<char>)| current matches Some(c) && p.0 == c@,
            ),
    {
        let ghost s = self.pairs();
        let ghost flush = |p: (Seq<char>, Seq<char>)| !(current matches Some(c) && p.0 == c@);
        let ghost stay = |p: (Seq<char>, Seq<char>)| current matches Some(c) && p.0 == c@;
        let mut src: Vec<(String, String)> = Vec::new();
        std::mem::swap(&mut src, &mut self.entries);
        let mut out: Vec<(String, String)> = Vec::new();
        let mut keep: Vec<(String, String)> = Vec::new();
        let ghost all = src@;
        let n = src.len();
        let mut k: usize = 0;
        assert(all.skip(0) =~= all);
        proof {
            reveal(Seq::filter);
            assert(pair_views(all.take(0)) =~= Seq::<(Seq<char>, Seq<char>)>::empty());
            assert(pair_views(out@) =~= pair_views(all.take(0)).filter(flush));
            assert(pair_views(keep@) =~= pair_views(all.take(0)).filter(stay));
        }
        while k < n
            invariant
                n == all.len(),
                k <= n,
                s == pair_views(all),
                src@ == all.skip(k as int),
                pair_views(out@) == pair_views(all.take(k as int)).filter(flush),
                pair_views(keep@) == pair_views(all.take(k as int)).filter(stay),
                flush == (|p: (Seq<char>, Seq<char>)| !(current matches Some(c) && p.0 == c@)),
                stay == (|p: (Seq<char>, Seq<char>)| current matches Some(c) && p.0 == c@),
            decreases n - k,
        {
            let e = src.remove(0);
            assert(e == all[k as int]);
            let playing = match current {
                Some(c) => str_eq(e.0.as_str(), c),
                None => false,
            };
            let ghost pv = pair_views(all.take(k as int));
            assert(pair_views(all.take(k + 1)) =~= pv.push((e.0@, e.1@)));
            proof {
                pv.lemma_filter_push((e.0@, e.1@), flush);
                pv.lemma_filter_push((e.0@, e.1@), stay);
            }
            if playing {
                keep.push(e);
                assert(pair_views(keep@) =~= pair_views(keep@.drop_last()).push(
                    (keep@.last().0@, keep@.last().1@),
                ));
            } else {
                out.push(e);
                assert(pair_views(out@) =~= pair_views(out@.drop_last()).push(
                    (out@.last().0@, out@.last().1@),
                ));
            }
            assert(all.skip(k + 1) =~= all.skip(k as int).drop_first());
            k = k + 1;
        }
        assert(all.take(n as int) =~= all);
        self.entries = keep;
        proof {
            lemma_filter_keeps_distinct(s, stay);
        }
        out
    }
}

// ---------------------------------------------------------------------------
// Lyrics downloads
// ---------------------------------------------------------------------------

/// Folds a finished lyrics download into the lyrics panel: found lyrics
/// are shown from the top with the automatic follow on, and wait to be
/// written into the track's tag; otherwise the panel says why there are
/// none.  `stamps` are the timestamp keys of the found text's lyric lines
/// (see `parse_lyrics`).  Returns the status message to show.
pub fn apply_fetch_result(
    lyrics: &mut LyricsState,
    pending: &mut PendingLyrics,
    result: LyricsFetchResult,
    stamps: &Vec<Option<i64>>,
) -> (status: Option<String>)
    requires
        old(pending).well_formed(),
        result matches LyricsFetchResult::Found { text, .. } ==> stamps@.len()
            == lyric_lines_of(text@).len(),
    ensures
        final(pending).well_formed(),
        match result {
            LyricsFetchResult::Found { path, text } => {
                &&& final(lyrics).content matches Some(l) && parsed_as(l, text@, stamps@)
                &&& *final(lyrics) == (LyricsState {
                    content: final(lyrics).content,
                    fetch_status: LyricsFetchStatus::Idle,
                    scroll: 0,
                    manual_scroll: false,
                    ..*old(lyrics)
                })
                &&& final(pending).pairs() == stored(old(pending).pairs(), path@, text@)
                &&& status matches Some(m) && m@ == "Lyrics fetched from lrclib"@
            },
            LyricsFetchResult::NotFound => {
                &&& *final(lyrics) == (LyricsState {
                    fetch_status: LyricsFetchStatus::NotFound,
                    ..*old(lyrics)
                })
                &&& final(pending).pairs() == old(pending).pairs()
                &&& status is None
            },
            LyricsFetchResult::Error(m) => {
                &&& *final(lyrics) == (LyricsState {
                    fetch_status: LyricsFetchStatus::Error(m),
                    ..*old(lyrics)
                })
                &&& final(pending).pairs() == old(pending).pairs()
                &&& status is None
            },
        },
{
    match result {
        LyricsFetchResult::Found { path, text } => {
            lyrics.content = Some(parse_lyrics(text.as_str(), stamps));
            lyrics.fetch_status = LyricsFetchStatus::Idle;
            lyrics.scroll = 0;
            lyrics.manual_scroll = false;
            pending.insert(path, text);
            Some("Lyrics fetched from lrclib".to_string())
        },
        LyricsFetchResult::NotFound => {
            lyrics.fetch_status = LyricsFetchStatus::NotFound;
            None
        },
        LyricsFetchResult::Error(m) => {
            lyrics.fetch_status = LyricsFetchStatus::Error(m);
            None
        },
    }
}

/// The download's channel closed without an answer: a running download
/// counts as failed.
pub fn fetch_channel_closed(lyrics: &mut LyricsState)
    ensures
        if old(lyrics).fetch_status is Fetching {
            &&& *final(lyrics) == (LyricsState { fetch_status: final(lyrics).fetch_status, ..*old(lyrics) })
            &&& final(lyrics).fetch_status matches LyricsFetchStatus::Error(m) && m@ == "channel closed"@
        } else {
            *final(lyrics) == *old(lyrics)
        },
{
    let fetching = match lyrics.fetch_status {
        LyricsFetchStatus::Fetching => true,
        _ => false,
    };
    if fetching {
        lyrics.fetch_status = LyricsFetchStatus::Error("channel closed".to_string());
    }
}

/// Whether two optional paths name the same track (or both none).
pub open spec fn same_path(a: Option<Seq<char>>, b: Option<Seq<char>>) -> bool {
    a == b
}

/// Whether the shown lyrics panel holds the lyrics of another track than
/// the one playing (`current`), so that they must be loaded again.
pub fn lyrics_stale(lyrics: &LyricsState, current: Option<&str>) -> (b: bool)
    ensures
        b == (lyrics.visible && !same_path(
            match current {
                Some(c) => Some(c@),
                None => None,
            },
            match lyrics.track_path {
                Some(p) => Some(p@),
                None => None,
            },
        )),
{
    if !lyrics.visible {
        return false;
    }
    match (current, &lyrics.track_path) {
        (None, None) => false,
        (Some(c), Some(p)) => !str_eq(c, p.as_str()),
        _ => true,
    }
}

// ---------------------------------------------------------------------------
// Track durations
// ---------------------------------------------------------------------------

/// The duration measured last for `path` among `updates`, if any.
pub open spec fn measured(updates: Seq<(String, i64)>, path: Seq<char>) -> Option<i64>
    decreases updates.len(),
{
    if updates.len() == 0 {
        None
    } else if updates.last().0@ == path {
        Some(updates.last().1)
    } else {
        measured(updates.drop_last(), path)
    }
}

/// Row `i` is the first row of its track's path.
pub open spec fn first_of_path(ts: Seq<Track>, i: int) -> bool {
    forall|j: int| 0 <= j < i ==> ts[j].path@ != ts[i].path@
}

/// Row `i` of `ts` once the measured durations are in: the first row of a
/// measured path takes the duration measured last for it.
pub open spec fn refreshed(ts: Seq<Track>, updates: Seq<(String, i64)>, i: int) -> Track {
    match measured(updates, ts[i].path@) {
        Some(d) => if first_of_path(ts, i) {
            Track { duration: d, ..ts[i] }
        } else {
            ts[i]
        },
        None => ts[i],
    }
}

fn with_duration(t: &Track, d: i64) -> (r: Track)
    ensures
        r == (Track { duration: d, ..*t }),
{
    Track {
        path: t.path.clone(),
        artist: t.artist.clone(),
        album: t.album.clone(),
        albumartist: t.albumartist.clone(),
        title: t.title.clone(),
        duration: d,
        year: t.year,
        genre: t.genre.clone(),
        added_at: t.added_at,
        favorite: t.favorite,
        play_count: t.play_count,
        last_played: t.last_played,
    }
}

fn first_with_path(tracks: &Vec<Track>, path: &str) -> (r: Option<usize>)
    ensures
        match r {
            Some(i) => i < tracks@.len() && tracks@[i as int].path@ == path@ && forall|j: int|
                0 <= j < i ==> tracks@[j].path@ != path@,
            None => forall|j: int| 0 <= j < tracks@.len() ==> tracks@[j].path@ != path@,
        },
{
    let mut i: usize = 0;
    while i < tracks.len()
        invariant
            i <= tracks@.len(),
            forall|j: int| 0 <= j < i ==> tracks@[j].path@ != path@,
        decreases tracks@.len() - i,
    {
        if str_eq(tracks[i].path.as_str(), path) {
            return Some(i);
        }
        i = i + 1;
    }
    None
}

/// Puts measured durations into a list of tracks: for each (path,
/// duration) in turn, the first track with that path takes the duration.
pub fn apply_durations(tracks: &mut Vec<Track>, updates: &Vec<(String, i64)>)
    ensures
        final(tracks)@.len() == old(tracks)@.len(),
        forall|i: int|
            0 <= i < old(tracks)@.len() ==> final(tracks)@[i] == refreshed(
                old(tracks)@,
                updates@,
                i,
            ),
{
    let ghost ts = tracks@;
    let n = tracks.len();
    let m = updates.len();
    let mut k: usize = 0;
    while k < m
        invariant
            m == updates@.len(),
            n == ts.len(),
            k <= m,
            tracks@.len() == n,
            forall|i: int| 0 <= i < n ==> tracks@[i] == refreshed(ts, updates@.take(k as int), i),
        decreases m - k,
    {
        let path = updates[k].0.as_str();
        let d = updates[k].1;
        let ghost ups = updates@.take(k as int);
        let ghost next = updates@.take(k + 1);
        assert(next.drop_last() =~= ups);
        assert(next.last() == updates@[k as int]);
        proof {
            assert forall|j: int| 0 <= j < n implies #[trigger] tracks@[j].path@ == ts[j].path@ by {
                assert(tracks@[j] == refreshed(ts, ups, j));
            }
        }
        let found = first_with_path(tracks, path);
        let ghost before = tracks@;
        match found {
            Some(f) => {
                let t = with_duration(&tracks[f], d);
                tracks.set(f, t);
            },
            None => {},
        }
        assert forall|i: int| 0 <= i < n implies tracks@[i] == refreshed(ts, next, i) by {
            assert(before[i].path@ == ts[i].path@);
            assert(measured(next, ts[i].path@) == if path@ == ts[i].path@ {
                Some(d)
            } else {
                measured(ups, ts[i].path@)
            });
            if path@ == ts[i].path@ {
                match found {
                    Some(f) => {
                        if f != i {
                            assert(f < i) by {
                                if f > i {
                                    assert(before[i].path@ != path@);
                                }
                            }
                            assert(!first_of_path(ts, i)) by {
                                assert(before[f as int].path@ == ts[f as int].path@);
                                assert(ts[f as int].path@ == ts[i].path@);
                            }
                        } else {
                            assert(first_of_path(ts, i)) by {
                                assert forall|j: int| 0 <= j < i implies ts[j].path@ != ts[i].path@ by {
                                    assert(before[j].path@ == ts[j].path@);
                                }
                            }
                        }
                    },
                    None => {
                        assert(ts[i].path@ != path@);
                    },
                }
            }
        }
        k = k + 1;
    }
    assert(updates@.take(m as int) =~= updates@);
}

/// The tracks a list of shared tracks points to.
pub open spec fn shared_view(ts: Seq<Arc<Track>>) -> Seq<Track> {
    ts.map_values(|a: Arc<Track>| *a)
}

fn first_with_path_shared(tracks: &Vec<Arc<Track>>, path: &str) -> (r: Option<usize>)
    ensures
        match r {
            Some(i) => i < tracks@.len() && tracks@[i as int].path@ == path@ && forall|j: int|
                0 <= j < i ==> tracks@[j].path@ != path@,
            None => forall|j: int| 0 <= j < tracks@.len() ==> tracks@[j].path@ != path@,
        },
{
    let mut i: usize = 0;
    while i < tracks.len()
        invariant
            i <= tracks@.len(),
            forall|j: int| 0 <= j < i ==> tracks@[j].path@ != path@,
        decreases tracks@.len() - i,
    {
        if str_eq(tracks[i].path.as_str(), path) {
            return Some(i);
        }
        i = i + 1;
    }
    None
}

/// Puts measured durations into a list of shared tracks, as
/// `apply_durations` does: for each (path,
/// duration) in turn, the first track with that path takes the duration.
pub fn apply_durations_shared(tracks: &mut Vec<Arc<Track>>, updates: &Vec<(String, i64)>)
    ensures
        final(tracks)@.len() == old(tracks)@.len(),
        forall|i: int|
            0 <= i < old(tracks)@.len() ==> *final(tracks)@[i] == refreshed(
                shared_view(old(tracks)@),
                updates@,
                i,
            ),
{
    let ghost ts = shared_view(tracks@);
    let n = tracks.len();
    let m = updates.len();
    let mut k: usize = 0;
    while k < m
        invariant
            m == updates@.len(),
            n == ts.len(),
            k <= m,
            tracks@.len() == n,
            forall|i: int| 0 <= i < n ==> *tracks@[i] == refreshed(ts, updates@.take(k as int), i),
        decreases m - k,
    {
        let path = updates[k].0.as_str();
        let d = updates[k].1;
        let ghost ups = updates@.take(k as int);
        let ghost next = updates@.take(k + 1);
        assert(next.drop_last() =~= ups);
        assert(next.last() == updates@[k as int]);
        proof {
            assert forall|j: int| 0 <= j < n implies #[trigger] tracks@[j].path@ == ts[j].path@ by {
                assert(*tracks@[j] == refreshed(ts, ups, j));
            }
        }
        let found = first_with_path_shared(tracks, path);
        let ghost before = tracks@;
        match found {
            Some(f) => {
                let t = with_duration(&*tracks[f], d);
                tracks.set(f, Arc::new(t));
            },
            None => {},
        }
        assert forall|i: int| 0 <= i < n implies *tracks@[i] == refreshed(ts, next, i) by {
            assert(before[i].path@ == ts[i].path@);
            assert(measured(next, ts[i].path@) == if path@ == ts[i].path@ {
                Some(d)
            } else {
                measured(ups, ts[i].path@)
            });
            if path@ == ts[i].path@ {
                match found {
                    Some(f) => {
                        if f != i {
                            assert(f < i) by {
                                if f > i {
                                    assert(before[i].path@ != path@);
                                }
                            }
                            assert(!first_of_path(ts, i)) by {
                                assert(before[f as int].path@ == ts[f as int].path@);
                                assert(ts[f as int].path@ == ts[i].path@);
                            }
                        } else {
                            assert(first_of_path(ts, i)) by {
                                assert forall|j: int| 0 <= j < i implies ts[j].path@ != ts[i].path@ by {
                                    assert(before[j].path@ == ts[j].path@);
                                }
                            }
                        }
                    },
                    None => {
                        assert(ts[i].path@ != path@);
                    },
                }
            }
        }
        k = k + 1;
    }
    assert(updates@.take(m as int) =~= updates@);
}

} // verus!
