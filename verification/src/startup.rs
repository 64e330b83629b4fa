//! Starting the player: the setup overlay shown without a database, and
//! the player settings and queue restored from the saved state.

use std::sync::Arc;
use vstd::prelude::*;
use crate::background::shared_view;
use crate::config::FilesConfig;
use crate::lyrics::{all_digits, digit_value, digits_value, is_digit};
use crate::text::{chars_of, str_eq};
use crate::types::{LoopMode, Overlay, SetupField, Track};

verus! {

broadcast use vstd::string::group_string_axioms;

/// The setup overlay for the configured database and music directory, with
/// the database field active.
pub fn setup_overlay(files: &FilesConfig) -> (o: Overlay)
    ensures
        o matches Overlay::SetupDatabase { database_name, music_directory, active_field }
            && database_name@ == files.database_name@ && music_directory@
            == files.music_directory@ && active_field == SetupField::DatabaseName,
{
    Overlay::SetupDatabase {
        database_name: files.database_name.clone(),
        music_directory: files.music_directory.clone(),
        active_field: SetupField::DatabaseName,
    }
}

/// The status line shown when there is no database yet.
pub fn no_database_status() -> (r: String)
    ensures
        r@ == "No database found. Enter a music directory and database file path to continue."@,
{
    "No database found. Enter a music directory and database file path to continue.".to_string()
}

/// The number a saved setting holds, read as `str::parse::<usize>` does:
/// an optional `+` and at least one digit, no larger than `usize::MAX`.
pub open spec fn parsed_index(s: Seq<char>) -> Option<usize> {
    let d = if s.len() > 0 && s[0] == '+' {
        s.drop_first()
    } else {
        s
    };
    if d.len() > 0 && all_digits(d) && digits_value(d) <= usize::MAX {
        Some(digits_value(d) as usize)
    } else {
        None
    }
}

pub fn parse_index(s: &str) -> (r: Option<usize>)
    ensures
        r == parsed_index(s@),
{
    let cs = chars_of(s);
    let n = cs.len();
    let start: usize = if n > 0 && cs[0] == '+' {
        1
    } else {
        0
    };
    let ghost d = if cs@.len() > 0 && cs@[0] == '+' {
        cs@.drop_first()
    } else {
        cs@
    };
    assert(d =~= cs@.skip(start as int));
    if start >= n {
        return None;
    }
    let mut v: usize = 0;
    let mut i: usize = start;
    assert(cs@.subrange(start as int, start as int) =~= Seq::<char>::empty());
    while i < n
        invariant
            start <= i <= n == cs@.len(),
            start < n,
            cs@ == s@,
            d =~= cs@.skip(start as int),
            d == (if cs@.len() > 0 && cs@[0] == '+' {
                cs@.drop_first()
            } else {
                cs@
            }),
            v as nat == digits_value(cs@.subrange(start as int, i as int)),
            all_digits(cs@.subrange(start as int, i as int)),
        decreases n - i,
    {
        let c = cs[i];
        let ghost pre = cs@.subrange(start as int, i as int);
        let ghost now = cs@.subrange(start as int, i + 1);
        assert(now.drop_last() =~= pre);
        assert(now.last() == c);
        if !('0' <= c && c <= '9') {
            assert(!all_digits(d)) by {
                assert(d[i - start] == c);
                assert(!is_digit(d[i - start]));
            }
            return None;
        }
        let dv = (c as u32 - '0' as u32) as usize;
        assert(dv == digit_value(c));
        assert(now =~= d.take(i + 1 - start));
        let step = match v.checked_mul(10) {
            Some(x) => x.checked_add(dv),
            None => None,
        };
        assert(all_digits(now)) by {
            assert forall|j: int| 0 <= j < now.len() implies is_digit(#[trigger] now[j]) by {
                if j < pre.len() {
                    assert(now[j] == pre[j]);
                }
            }
        }
        match step {
            Some(nv) => {
                v = nv;
            },
            None => {
                proof {
                    assert(digits_value(now) > usize::MAX);
                    if all_digits(d) {
                        crate::indexer::lemma_digits_prefix_le(d, (i + 1 - start) as int);
                    }
                }
                return None;
            },
        }
        i = i + 1;
    }
    assert(cs@.subrange(start as int, n as int) =~= d);
    Some(v)
}

/// The queue position restored from the saved setting: the saved number
/// (0 when missing or unreadable), at most the last position of a queue of
/// `len` entries.
pub fn restored_queue_index(saved: Option<&str>, len: usize) -> (r: usize)
    requires
        len > 0,
    ensures
        r == ({
            let v = match saved {
                Some(s) => match parsed_index(s@) {
                    Some(k) => k as int,
                    None => 0,
                },
                None => 0,
            };
            if v < len - 1 {
                v
            } else {
                len - 1
            }
        }),
{
    let v = match saved {
        Some(s) => match parse_index(s) {
            Some(k) => k,
            None => 0,
        },
        None => 0,
    };
    if v < len - 1 {
        v
    } else {
        len - 1
    }
}

/// The shuffle setting restored: on when the saved text is `true`, off
/// for any other saved text, unchanged when nothing was saved.
pub fn restored_shuffle(saved: Option<&str>, current: bool) -> (r: bool)
    ensures
        r == match saved {
            Some(s) => s@ == "true"@,
            None => current,
        },
{
    match saved {
        Some(s) => str_eq(s, "true"),
        None => current,
    }
}

/// The loop mode restored from its saved label (see `LoopMode::of_label`),
/// unchanged when nothing was saved.
pub fn restored_loop_mode(saved: Option<&str>, current: LoopMode) -> (r: LoopMode)
    ensures
        r == match saved {
            Some(s) => LoopMode::of_label(s@),
            None => current,
        },
{
    match saved {
        Some(s) => LoopMode::from_label(s),
        None => current,
    }
}

/// The paths of the tracks whose duration is not known yet (zero or
/// less), to be measured in the background.
pub fn missing_durations(all: &Vec<Arc<Track>>) -> (r: Vec<String>)
    ensures
        r@.map_values(|p: String| p@) == shared_view(all@).filter(|t: Track| t.duration <= 0).map_values(
            |t: Track| t.path@,
        ),
{
    let ghost ts = shared_view(all@);
    let ghost unknown = |t: Track| t.duration <= 0;
    let ghost path = |t: Track| t.path@;
    let mut r: Vec<String> = Vec::new();
    let mut i: usize = 0;
    proof {
        reveal(Seq::filter);
        assert(ts.take(0).filter(unknown) =~= Seq::<Track>::empty());
    }
    while i < all.len()
        invariant
            i <= all@.len() == ts.len(),
            ts == shared_view(all@),
            unknown == (|t: Track| t.duration <= 0),
            path == (|t: Track| t.path@),
            r@.map_values(|p: String| p@) == ts.take(i as int).filter(unknown).map_values(path),
        decreases all@.len() - i,
    {
        let ghost before = ts.take(i as int);
        assert(ts.take(i + 1) =~= before.push(ts[i as int]));
        proof {
            before.lemma_filter_push(ts[i as int], unknown);
        }
        if all[i].duration <= 0 {
            let ghost prev = r@;
            r.push(all[i].path.clone());
            assert(r@.map_values(|p: String| p@) =~= prev.map_values(|p: String| p@).push(
                ts[i as int].path@,
            ));
            assert(before.filter(unknown).push(ts[i as int]).map_values(path) =~= before.filter(
                unknown,
            ).map_values(path).push(path(ts[i as int])));
        }
        i = i + 1;
    }
    assert(ts.take(ts.len() as int) =~= ts);
    r
}

/// The position of the last track of `all` at path `p`, if any.
pub open spec fn last_at_path(all: Seq<Track>, p: Seq<char>) -> Option<int>
    decreases all.len(),
{
    if all.len() == 0 {
        None
    } else if all.last().path@ == p {
        Some(all.len() - 1)
    } else {
        last_at_path(all.drop_last(), p)
    }
}

/// The restored queue as positions in the library: one per saved path
/// that the library still has (its last track at that path), in the saved
/// order; paths it no longer has are dropped.
pub open spec fn restored_positions(paths: Seq<Seq<char>>, all: Seq<Track>) -> Seq<int>
    decreases paths.len(),
{
    if paths.len() == 0 {
        Seq::empty()
    } else {
        restored_positions(paths.drop_last(), all) + match last_at_path(all, paths.last()) {
            Some(i) => seq![i],
            None => Seq::empty(),
        }
    }
}

proof fn lemma_last_at_path_bound(all: Seq<Track>, p: Seq<char>)
    ensures
        last_at_path(all, p) matches Some(i) ==> 0 <= i < all.len() && all[i].path@ == p,
    decreases all.len(),
{
    if all.len() > 0 {
        lemma_last_at_path_bound(all.drop_last(), p);
    }
}

fn last_at_path_exec(all: &Vec<Arc<Track>>, p: &str) -> (r: Option<usize>)
    ensures
        match r {
            Some(i) => last_at_path(shared_view(all@), p@) == Some(i as int),
            None => last_at_path(shared_view(all@), p@) is None,
        },
{
    let ghost ts = shared_view(all@);
    let mut j: usize = all.len();
    assert(ts.take(j as int) =~= ts);
    while j > 0
        invariant
            j <= all@.len() == ts.len(),
            ts == shared_view(all@),
            last_at_path(ts, p@) == last_at_path(ts.take(j as int), p@),
        decreases j,
    {
        assert(ts.take(j as int).last() == ts[j - 1]);
        assert(ts.take(j as int).drop_last() =~= ts.take(j - 1));
        if str_eq(all[j - 1].path.as_str(), p) {
            return Some(j - 1);
        }
        j = j - 1;
    }
    None
}

/// The library positions of the saved queue (see `restored_positions`).
pub fn restored_queue_positions(paths: &[String], all: &Vec<Arc<Track>>) -> (r: Vec<usize>)
    ensures
        r@.map_values(|i: usize| i as int) == restored_positions(
            paths@.map_values(|p: String| p@),
            shared_view(all@),
        ),
        forall|k: int| 0 <= k < r@.len() ==> #[trigger] r@[k] < all@.len(),
{
    let ghost ps = paths@.map_values(|p: String| p@);
    let ghost ts = shared_view(all@);
    let mut r: Vec<usize> = Vec::new();
    let mut i: usize = 0;
    assert(ps.take(0) =~= Seq::<Seq<char>>::empty());
    while i < paths.len()
        invariant
            i <= paths@.len() == ps.len(),
            ps == paths@.map_values(|p: String| p@),
            ts == shared_view(all@),
            r@.map_values(|x: usize| x as int) == restored_positions(ps.take(i as int), ts),
            forall|k: int| 0 <= k < r@.len() ==> #[trigger] r@[k] < all@.len(),
        decreases paths@.len() - i,
    {
        assert(ps.take(i + 1).drop_last() =~= ps.take(i as int));
        assert(ps.take(i + 1).last() == paths@[i as int]@);
        let ghost before = r@;
        proof {
            lemma_last_at_path_bound(ts, paths@[i as int]@);
        }
        match last_at_path_exec(all, paths[i].as_str()) {
            Some(j) => {
                r.push(j);
                assert(r@.map_values(|x: usize| x as int) =~= before.map_values(|x: usize| x as int).push(
                    j as int,
                ));
            },
            None => {
                assert(r@.map_values(|x: usize| x as int) =~= before.map_values(|x: usize| x as int) + Seq::<int>::empty());
            },
        }
        i = i + 1;
    }
    assert(ps.take(ps.len() as int) =~= ps);
    r
}

} // verus!
