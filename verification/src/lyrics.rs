//! Lyrics: parsing of LRC-timed lyric text, the line to highlight during
//! playback, and the Compilation flag's display form.
//!
//! An LRC line looks like `[mm:ss.xx]text`.  The library splits such a line
//! into its minutes text, seconds text and lyric text; the caller reads the
//! two numbers as floating point (as `f64::from_str` does, infinities
//! included), computes the timestamp, and hands back for each line a key
//! that orders as the timestamps do.  Sorting and following playback work
//! on those keys.

use vstd::prelude::*;
use crate::text::{chars_of, is_ws, lines, lines_of, string_of, trim, trim_chars, views};
use crate::types::{LyricLine, Lyrics};

verus! {

// ---------------------------------------------------------------------------
// Numbers
// ---------------------------------------------------------------------------

pub open spec fn is_digit(c: char) -> bool {
    '0' <= c <= '9'
}

pub open spec fn digit_value(c: char) -> int {
    (c as int) - ('0' as int)
}

pub open spec fn all_digits(s: Seq<char>) -> bool {
    forall|i: int| 0 <= i < s.len() ==> is_digit(#[trigger] s[i])
}

/// The number a digit string denotes (0 for the empty string).
pub open spec fn digits_value(s: Seq<char>) -> nat
    decreases s.len(),
{
    if s.len() == 0 {
        0
    } else {
        (digits_value(s.drop_last()) * 10 + digit_value(s.last())) as nat
    }
}

/// Index of the first `c` in `s`, or `s.len()` when there is none.
pub open spec fn first_index(s: Seq<char>, c: char) -> int
    decreases s.len(),
{
    if s.len() == 0 {
        0
    } else if s[0] == c {
        0
    } else {
        1 + first_index(s.drop_first(), c)
    }
}

pub open spec fn opt_i64(o: Option<i64>) -> Option<int> {
    match o {
        Some(v) => Some(v as int),
        None => None,
    }
}

proof fn lemma_first_index_bounds(s: Seq<char>, c: char)
    ensures
        0 <= first_index(s, c) <= s.len(),
        first_index(s, c) < s.len() ==> s[first_index(s, c)] == c,
        forall|i: int| 0 <= i < first_index(s, c) ==> s[i] != c,
    decreases s.len(),
{
    if s.len() > 0 && s[0] != c {
        lemma_first_index_bounds(s.drop_first(), c);
        assert forall|i: int| 0 <= i < first_index(s, c) implies s[i] != c by {
            if i > 0 {
                assert(s[i] == s.drop_first()[i - 1]);
            }
        }
    }
}

/// Index of the first `c` in `v`, or its length.
pub fn find_char(v: &[char], c: char) -> (k: usize)
    ensures
        k as int == first_index(v@, c),
{
    let mut k: usize = 0;
    assert(v@.skip(0) =~= v@);
    while k < v.len() && v[k] != c
        invariant
            k <= v@.len(),
            first_index(v@, c) == k + first_index(v@.skip(k as int), c),
        decreases v@.len() - k,
    {
        assert(v@.skip(k as int).drop_first() =~= v@.skip(k + 1));
        k = k + 1;
    }
    proof {
        if k < v@.len() {
            assert(v@.skip(k as int)[0] == c);
        }
    }
    k
}

fn is_digit_char(c: char) -> (b: bool)
    ensures
        b == is_digit(c),
{
    '0' <= c && c <= '9'
}

/// The characters of `v` from `lo` to `hi`.
pub fn sub_chars(v: &[char], lo: usize, hi: usize) -> (r: Vec<char>)
    requires
        lo <= hi <= v@.len(),
    ensures
        r@ == v@.subrange(lo as int, hi as int),
{
    let mut r: Vec<char> = Vec::new();
    let mut i = lo;
    while i < hi
        invariant
            lo <= i <= hi <= v@.len(),
            r@ == v@.subrange(lo as int, i as int),
        decreases hi - i,
    {
        r.push(v[i]);
        assert(v@.subrange(lo as int, i + 1) =~= v@.subrange(lo as int, i as int).push(v@[i as int]));
        i = i + 1;
    }
    r
}

} // verus!

verus! {

// ---------------------------------------------------------------------------
// LRC lines
// ---------------------------------------------------------------------------

/// The parts of an LRC line `[m:s]text`: the text between `'['` and the
/// first `']'` must hold exactly one `':'`; the parts are the minutes text,
/// the seconds text and the trimmed text after the `']'`.  Whether the two
/// numbers read as numbers is for the caller to tell.
pub open spec fn lrc_split(line: Seq<char>) -> Option<(Seq<char>, Seq<char>, Seq<char>)> {
    if line.len() == 0 || line[0] != '[' {
        None
    } else {
        let c = first_index(line, ']');
        if c == line.len() {
            None
        } else {
            let ts = line.subrange(1, c);
            let k = first_index(ts, ':');
            if k == ts.len() {
                None
            } else {
                let rest = ts.skip(k + 1);
                if first_index(rest, ':') < rest.len() {
                    None
                } else {
                    Some((ts.take(k), rest, trim(line.skip(c + 1))))
                }
            }
        }
    }
}

/// A parsed lyric line: its timestamp key (if any) and its text.
pub type Entry = (Option<int>, Seq<char>);

/// The non-blank lines of a text's lines, trimmed, in order.
pub open spec fn lyric_texts(ls: Seq<Seq<char>>) -> Seq<Seq<char>>
    decreases ls.len(),
{
    if ls.len() == 0 {
        Seq::empty()
    } else {
        let pre = lyric_texts(ls.drop_last());
        let t = trim(ls.last());
        if t.len() == 0 {
            pre
        } else {
            pre.push(t)
        }
    }
}

/// The lyric lines of a text: its non-blank lines, trimmed.
pub open spec fn lyric_lines_of(text: Seq<char>) -> Seq<Seq<char>> {
    lyric_texts(lines(text))
}

/// The entry of one lyric line with the key of its timestamp: a timed line
/// when it is an LRC line and its timestamp read as a number, else the line
/// as text.
pub open spec fn stamped_entry(t: Seq<char>, stamp: Option<i64>) -> Entry {
    match (lrc_split(t), stamp) {
        (Some(p), Some(k)) => (Some(k as int), p.2),
        _ => (None, t),
    }
}

/// The entries of lyric lines with their timestamp keys.
pub open spec fn stamped_entries(ts: Seq<Seq<char>>, stamps: Seq<Option<i64>>) -> Seq<Entry> {
    Seq::new(ts.len(), |i: int| stamped_entry(ts[i], stamps[i]))
}

pub open spec fn any_timed(es: Seq<Entry>) -> bool {
    exists|i: int| 0 <= i < es.len() && (#[trigger] es[i]).0 is Some
}

/// Timed entries come first, in timestamp order; untimed ones after.
pub open spec fn entry_le(a: Entry, b: Entry) -> bool {
    match (a.0, b.0) {
        (Some(x), Some(y)) => x <= y,
        (Some(_), None) => true,
        (None, Some(_)) => false,
        (None, None) => true,
    }
}

/// Inserts `x` after every entry ordered at or before it.
pub open spec fn insert_entry(s: Seq<Entry>, x: Entry) -> Seq<Entry>
    decreases s.len(),
{
    if s.len() == 0 {
        seq![x]
    } else if entry_le(s.last(), x) {
        s.push(x)
    } else {
        insert_entry(s.drop_last(), x).push(s.last())
    }
}

/// The stable sort of `s` by [`entry_le`].
pub open spec fn sorted_entries(s: Seq<Entry>) -> Seq<Entry>
    decreases s.len(),
{
    if s.len() == 0 {
        Seq::empty()
    } else {
        insert_entry(sorted_entries(s.drop_last()), s.last())
    }
}

/// What `parse_lyrics` yields for a text and the keys of its lines'
/// timestamps: `None` for plain text (no timed line), else the sorted
/// entries.
pub open spec fn parsed_entries(text: Seq<char>, stamps: Seq<Option<i64>>) -> Option<Seq<Entry>> {
    let es = stamped_entries(lyric_lines_of(text), stamps);
    if any_timed(es) {
        Some(sorted_entries(es))
    } else {
        None
    }
}

/// The entry of a lyric line.
pub open spec fn entry_of(l: LyricLine) -> Entry {
    (opt_i64(l.timestamp), l.text@)
}

pub open spec fn entries_of(v: Seq<LyricLine>) -> Seq<Entry> {
    v.map_values(|l: LyricLine| entry_of(l))
}

fn lrc_split_exec(line: &[char]) -> (r: Option<(Vec<char>, Vec<char>, Vec<char>)>)
    ensures
        match r {
            Some((m, s, t)) => lrc_split(line@) == Some((m@, s@, t@)),
            None => lrc_split(line@) is None,
        },
{
    let n = line.len();
    if n == 0 || line[0] != '[' {
        return None;
    }
    let c = find_char(line, ']');
    proof {
        lemma_first_index_bounds(line@, ']');
    }
    if c == n {
        return None;
    }
    let ts = sub_chars(line, 1, c);
    let k = find_char(&ts, ':');
    proof {
        lemma_first_index_bounds(ts@, ':');
    }
    let tl = ts.len();
    if k == tl {
        return None;
    }
    let m = sub_chars(&ts, 0, k);
    let rest = sub_chars(&ts, k + 1, tl);
    assert(m@ =~= ts@.take(k as int));
    assert(rest@ =~= ts@.skip(k + 1));
    if find_char(&rest, ':') < rest.len() {
        return None;
    }
    let after = sub_chars(line, c + 1, n);
    assert(after@ =~= line@.skip(c + 1));
    let text = trim_chars(&after);
    Some((m, rest, text))
}

/// The parts of an LRC line (see `lrc_split`): minutes text, seconds text,
/// lyric text.
pub fn lrc_parts(line: &str) -> (r: Option<(String, String, String)>)
    ensures
        match r {
            Some((m, s, t)) => lrc_split(line@) == Some((m@, s@, t@)),
            None => lrc_split(line@) is None,
        },
{
    let cs = chars_of(line);
    match lrc_split_exec(&cs) {
        Some((m, s, t)) => Some((string_of(&m), string_of(&s), string_of(&t))),
        None => None,
    }
}

/// The lyric lines of a text (see `lyric_lines_of`).
pub fn lyric_lines(text: &str) -> (r: Vec<String>)
    ensures
        r@.map_values(|s: String| s@) == lyric_lines_of(text@),
{
    let cs = chars_of(text);
    let ls = lines_of(&cs);
    let ghost lv = views(ls@);
    let mut out: Vec<String> = Vec::new();
    let mut k: usize = 0;
    assert(lv.take(0) =~= Seq::<Seq<char>>::empty());
    while k < ls.len()
        invariant
            k <= ls@.len(),
            lv == views(ls@),
            lv == lines(text@),
            out@.map_values(|s: String| s@) == lyric_texts(lv.take(k as int)),
        decreases ls@.len() - k,
    {
        let trimmed = trim_chars(&ls[k]);
        assert(lv.take(k + 1).drop_last() =~= lv.take(k as int));
        assert(lv.take(k + 1).last() == ls@[k as int]@);
        if trimmed.len() > 0 {
            let ghost before = out@;
            out.push(string_of(&trimmed));
            assert(out@.map_values(|s: String| s@) =~= before.map_values(|s: String| s@).push(
                trimmed@,
            ));
        }
        k = k + 1;
    }
    assert(lv.take(ls@.len() as int) =~= lv);
    out
}

proof fn lemma_insert_at(s: Seq<Entry>, x: Entry, j: int)
    requires
        0 <= j <= s.len(),
        forall|i: int| j <= i < s.len() ==> !entry_le(#[trigger] s[i], x),
        j > 0 ==> entry_le(s[j - 1], x),
    ensures
        insert_entry(s, x) == s.insert(j, x),
    decreases s.len(),
{
    if s.len() == 0 {
        assert(s.insert(j, x) =~= seq![x]);
    } else if entry_le(s.last(), x) {
        assert(j == s.len());
        assert(s.insert(j, x) =~= s.push(x));
    } else {
        assert(j < s.len());
        lemma_insert_at(s.drop_last(), x, j);
        assert(s.drop_last().insert(j, x).push(s.last()) =~= s.insert(j, x));
    }
}

fn entry_le_exec(a: &LyricLine, b: &LyricLine) -> (r: bool)
    ensures
        r == entry_le(entry_of(*a), entry_of(*b)),
{
    match (a.timestamp, b.timestamp) {
        (Some(x), Some(y)) => x <= y,
        (Some(_), None) => true,
        (None, Some(_)) => false,
        (None, None) => true,
    }
}

/// Inserts `x` into `v` after every line ordered at or before it.
fn insert_line(v: &mut Vec<LyricLine>, x: LyricLine)
    ensures
        entries_of(final(v)@) == insert_entry(entries_of(old(v)@), entry_of(x)),
{
    let ghost s = entries_of(v@);
    let mut j: usize = v.len();
    while j > 0 && !entry_le_exec(&v[j - 1], &x)
        invariant
            j <= v@.len(),
            s == entries_of(v@),
            forall|i: int| j <= i < s.len() ==> !entry_le(#[trigger] s[i], entry_of(x)),
        decreases j,
    {
        j = j - 1;
    }
    proof {
        lemma_insert_at(s, entry_of(x), j as int);
    }
    v.insert(j, x);
    assert(entries_of(v@) =~= s.insert(j as int, entry_of(x)));
}

/// `r` is what `text` reads as with the keys of its lines' timestamps:
/// timed lines when some line carries a timestamp, else the text as it is.
pub open spec fn parsed_as(r: Lyrics, text: Seq<char>, stamps: Seq<Option<i64>>) -> bool {
    match r {
        Lyrics::Plain(s) => parsed_entries(text, stamps) is None && s@ == text,
        Lyrics::Timed(v) => parsed_entries(text, stamps) == Some(entries_of(v@)),
    }
}

/// Parses lyrics text.  Lines are trimmed and blank lines dropped.
/// `stamps[i]` is, for the `i`-th lyric line (see `lyric_lines`), the key
/// of its LRC timestamp when it has one that reads as a number (keys order
/// as the timestamps do), else `None`.  When at least one line is timed the
/// result is the lines sorted by timestamp (stable, untimed lines last),
/// timed lines holding the text after the tag; otherwise the text as given.
pub fn parse_lyrics(lyrics_text: &str, stamps: &Vec<Option<i64>>) -> (r: Lyrics)
    requires
        stamps@.len() == lyric_lines_of(lyrics_text@).len(),
    ensures
        parsed_as(r, lyrics_text@, stamps@),
{
    let cs = chars_of(lyrics_text);
    let ls = lines_of(&cs);
    let ghost lv = views(ls@);
    let ghost all = lyric_lines_of(lyrics_text@);
    let mut sorted: Vec<LyricLine> = Vec::new();
    let mut has_timestamps = false;
    let mut j: usize = 0;
    let mut k: usize = 0;
    let n_st = stamps.len();
    assert(lv.take(0) =~= Seq::<Seq<char>>::empty());
    proof {
        lemma_lyric_texts_prefix(lv, 0);
    }
    assert(stamped_entries(Seq::empty(), stamps@.take(0)) =~= Seq::<Entry>::empty());
    while k < ls.len()
        invariant
            k <= ls@.len(),
            lv == views(ls@),
            lv == lines(lyrics_text@),
            all == lyric_texts(lv),
            stamps@.len() == all.len(),
            n_st == stamps@.len(),
            j == lyric_texts(lv.take(k as int)).len(),
            lyric_texts(lv.take(k as int)) == all.take(j as int),
            j <= all.len(),
            entries_of(sorted@) == sorted_entries(
                stamped_entries(all.take(j as int), stamps@.take(j as int)),
            ),
            has_timestamps == any_timed(stamped_entries(all.take(j as int), stamps@.take(j as int))),
        decreases ls@.len() - k,
    {
        let trimmed = trim_chars(&ls[k]);
        let ghost pre = stamped_entries(all.take(j as int), stamps@.take(j as int));
        assert(lv.take(k + 1).drop_last() =~= lv.take(k as int));
        assert(lv.take(k + 1).last() == ls@[k as int]@);
        proof {
            lemma_lyric_texts_prefix(lv, k + 1);
        }
        if trimmed.len() > 0 {
            let ghost nb = lyric_texts(lv.take(k + 1));
            assert(nb == all.take(j as int).push(trimmed@));
            assert(nb.len() == j + 1);
            assert(nb.len() <= all.len());
            assert(nb == all.take(j + 1));
            assert(all.take(j + 1)[j as int] == all[j as int]);
            assert(nb[j as int] == trimmed@);
            assert(all[j as int] == trimmed@);
            let stamp = stamps[j];
            let line = match (lrc_split_exec(&trimmed), stamp) {
                (Some((_m, _s, t)), Some(key)) => {
                    has_timestamps = true;
                    LyricLine { timestamp: Some(key), text: string_of(&t) }
                },
                _ => LyricLine { timestamp: None, text: string_of(&trimmed) },
            };
            let ghost e = entry_of(line);
            assert(e == stamped_entry(trimmed@, stamp));
            insert_line(&mut sorted, line);
            let ghost now = stamped_entries(all.take(j + 1), stamps@.take(j + 1));
            assert(now =~= pre.push(e));
            assert(now.drop_last() =~= pre);
            assert(sorted_entries(now) == insert_entry(sorted_entries(pre), e));
            assert(any_timed(now) == (any_timed(pre) || e.0 is Some)) by {
                if e.0 is Some {
                    assert(now[now.len() - 1] == e);
                }
                if any_timed(now) && !(e.0 is Some) {
                    let i = choose|i: int| 0 <= i < now.len() && (#[trigger] now[i]).0 is Some;
                    assert(i < pre.len());
                    assert(pre[i] == now[i]);
                }
                if any_timed(pre) {
                    let i = choose|i: int| 0 <= i < pre.len() && (#[trigger] pre[i]).0 is Some;
                    assert(now[i] == pre[i]);
                }
            }
            j = j + 1;
        } else {
            assert(lyric_texts(lv.take(k + 1)) == lyric_texts(lv.take(k as int)));
        }
        k = k + 1;
    }
    assert(lv.take(ls@.len() as int) =~= lv);
    assert(all.take(j as int) =~= all);
    assert(stamps@.take(j as int) =~= stamps@);
    if has_timestamps {
        Lyrics::Timed(sorted)
    } else {
        Lyrics::Plain(string_of(&cs))
    }
}

/// The lyric lines of a prefix of a text's lines are a prefix of its lyric
/// lines.
proof fn lemma_lyric_texts_prefix(ls: Seq<Seq<char>>, k: int)
    requires
        0 <= k <= ls.len(),
    ensures
        lyric_texts(ls.take(k)) == lyric_texts(ls).take(lyric_texts(ls.take(k)).len() as int),
        lyric_texts(ls.take(k)).len() <= lyric_texts(ls).len(),
    decreases ls.len() - k,
{
    if k == ls.len() {
        assert(ls.take(k) =~= ls);
        assert(lyric_texts(ls).take(lyric_texts(ls).len() as int) =~= lyric_texts(ls));
    } else {
        lemma_lyric_texts_prefix(ls, k + 1);
        assert(ls.take(k + 1).drop_last() =~= ls.take(k));
        let a = lyric_texts(ls.take(k));
        let b = lyric_texts(ls.take(k + 1));
        let full = lyric_texts(ls);
        if b.len() > a.len() {
            assert(b == a.push(b.last()));
            assert(full.take(a.len() as int) =~= full.take(b.len() as int).take(a.len() as int));
            assert(b.take(a.len() as int) =~= a);
        }
    }
}

impl LyricLine {
    /// A copy of the line.
    pub fn clone_line(&self) -> (r: LyricLine)
        ensures
            entry_of(r) == entry_of(*self),
    {
        LyricLine { timestamp: self.timestamp, text: self.text.clone() }
    }
}

} // verus!

verus! {

// ---------------------------------------------------------------------------
// Ordering of timed lyrics
// ---------------------------------------------------------------------------

/// Every entry is ordered at or before every later one.
pub open spec fn entries_sorted(s: Seq<Entry>) -> bool {
    forall|i: int, j: int| 0 <= i < j < s.len() ==> entry_le(#[trigger] s[i], #[trigger] s[j])
}

proof fn lemma_insert_bound(s: Seq<Entry>, x: Entry, y: Entry)
    requires
        forall|i: int| 0 <= i < s.len() ==> entry_le(#[trigger] s[i], y),
        entry_le(x, y),
    ensures
        forall|i: int|
            0 <= i < insert_entry(s, x).len() ==> entry_le(#[trigger] insert_entry(s, x)[i], y),
    decreases s.len(),
{
    if s.len() > 0 && !entry_le(s.last(), x) {
        lemma_insert_bound(s.drop_last(), x, y);
        let r = insert_entry(s.drop_last(), x);
        assert forall|i: int| 0 <= i < r.push(s.last()).len() implies entry_le(
            #[trigger] r.push(s.last())[i],
            y,
        ) by {
            if i < r.len() {
                assert(r.push(s.last())[i] == r[i]);
            }
        }
    }
}

proof fn lemma_insert_sorted(s: Seq<Entry>, x: Entry)
    requires
        entries_sorted(s),
    ensures
        entries_sorted(insert_entry(s, x)),
        insert_entry(s, x).to_multiset() == s.to_multiset().insert(x),
    decreases s.len(),
{
    broadcast use vstd::seq_lib::group_to_multiset_ensures;

    if s.len() == 0 {
        assert(seq![x] =~= Seq::<Entry>::empty().push(x));
    } else if entry_le(s.last(), x) {
        let r = s.push(x);
        assert forall|i: int, j: int| 0 <= i < j < r.len() implies entry_le(
            #[trigger] r[i],
            #[trigger] r[j],
        ) by {
            if j == s.len() {
                if i < s.len() - 1 {
                    assert(entry_le(s[i], s[s.len() - 1]));
                }
            } else {
                assert(entry_le(s[i], s[j]));
            }
        }
    } else {
        let d = s.drop_last();
        assert(entries_sorted(d)) by {
            assert forall|i: int, j: int| 0 <= i < j < d.len() implies entry_le(
                #[trigger] d[i],
                #[trigger] d[j],
            ) by {
                assert(d[i] == s[i] && d[j] == s[j]);
            }
        }
        lemma_insert_sorted(d, x);
        let r0 = insert_entry(d, x);
        assert forall|i: int| 0 <= i < d.len() implies entry_le(#[trigger] d[i], s.last()) by {
            assert(d[i] == s[i]);
        }
        lemma_insert_bound(d, x, s.last());
        let r = r0.push(s.last());
        assert forall|i: int, j: int| 0 <= i < j < r.len() implies entry_le(
            #[trigger] r[i],
            #[trigger] r[j],
        ) by {
            if j == r0.len() {
                assert(r[i] == r0[i]);
            } else {
                assert(r[i] == r0[i] && r[j] == r0[j]);
            }
        }
        assert(s =~= d.push(s.last()));
    }
}

proof fn lemma_sorted_entries(s: Seq<Entry>)
    ensures
        entries_sorted(sorted_entries(s)),
        sorted_entries(s).to_multiset() == s.to_multiset(),
    decreases s.len(),
{
    broadcast use vstd::seq_lib::group_to_multiset_ensures;

    if s.len() > 0 {
        lemma_sorted_entries(s.drop_last());
        lemma_insert_sorted(sorted_entries(s.drop_last()), s.last());
        assert(s =~= s.drop_last().push(s.last()));
    }
}

/// Timed lyrics are ordered by timestamp, untimed lines last, and hold
/// exactly the lyric lines of the text (each parsed once).
pub proof fn lemma_timed_lyrics_sorted(text: Seq<char>, stamps: Seq<Option<i64>>)
    requires
        parsed_entries(text, stamps) is Some,
    ensures
        entries_sorted(parsed_entries(text, stamps)->0),
        (parsed_entries(text, stamps)->0).to_multiset() == stamped_entries(
            lyric_lines_of(text),
            stamps,
        ).to_multiset(),
{
    lemma_sorted_entries(stamped_entries(lyric_lines_of(text), stamps));
}

} // verus!

verus! {

// ---------------------------------------------------------------------------
// Following playback
// ---------------------------------------------------------------------------

/// Scanning timed lines from `i`: the last line reached whose timestamp is
/// at most `limit`; the scan stops at the first later timestamp and skips
/// untimed lines.
pub open spec fn scan_active(es: Seq<Entry>, limit: int, i: int, cur: Option<int>) -> Option<int>
    decreases es.len() - i,
{
    if i < 0 || i >= es.len() {
        cur
    } else {
        match es[i].0 {
            Some(t) => if t <= limit {
                scan_active(es, limit, i + 1, Some(i))
            } else {
                cur
            },
            None => scan_active(es, limit, i + 1, cur),
        }
    }
}

/// The line of timed lyrics to highlight: the last line (in order) whose
/// timestamp key is at most `limit`, the key of the playing position plus
/// half a second.
pub open spec fn active_line(es: Seq<Entry>, limit: int) -> Option<int> {
    scan_active(es, limit, 0, None)
}

/// The index of the lyric line active at the timestamp key `limit` (the
/// playing position plus half a second); `None` for plain or missing
/// lyrics, or before the first timestamp.
pub fn current_lyric_index(content: &Option<Lyrics>, limit: i64) -> (r: Option<usize>)
    ensures
        match content {
            Some(Lyrics::Timed(v)) => match r {
                Some(i) => active_line(entries_of(v@), limit as int) == Some(i as int) && i < v@.len()
                    && v@[i as int].timestamp is Some && v@[i as int].timestamp->0 <= limit,
                None => active_line(entries_of(v@), limit as int) is None,
            },
            _ => r is None,
        },
{
    match content {
        Some(Lyrics::Timed(lines)) => {
            let ghost es = entries_of(lines@);
            proof {
                lemma_active_line_is_last_passed(es, limit as int);
            }
            let mut cur: Option<usize> = None;
            let mut i: usize = 0;
            while i < lines.len()
                invariant
                    i <= lines@.len(),
                    es == entries_of(lines@),
                    active_line(es, limit as int) == scan_active(
                        es,
                        limit as int,
                        i as int,
                        match cur {
                            Some(c) => Some(c as int),
                            None => None,
                        },
                    ),
                ensures
                    active_line(es, limit as int) == match cur {
                        Some(c) => Some(c as int),
                        None => None,
                    },
                decreases lines@.len() - i,
            {
                assert(es[i as int] == entry_of(lines@[i as int]));
                match lines[i].timestamp {
                    Some(t) => {
                        if t <= limit {
                            cur = Some(i);
                        } else {
                            break;
                        }
                    },
                    None => {},
                }
                i = i + 1;
            }
            cur
        },
        _ => None,
    }
}

/// Timed entries appear in order of their timestamps (untimed entries may
/// stand anywhere).
pub open spec fn timed_in_order(es: Seq<Entry>) -> bool {
    forall|i: int, j: int|
        0 <= i < j < es.len() && (#[trigger] es[i]).0 is Some && (#[trigger] es[j]).0 is Some ==> es[i].0->0
            <= es[j].0->0
}

/// The entry at `j` is timed with a key at most `limit`.
pub open spec fn passed(es: Seq<Entry>, j: int, limit: int) -> bool {
    0 <= j < es.len() && es[j].0 is Some && es[j].0->0 <= limit
}

proof fn lemma_scan_active_passed(es: Seq<Entry>, limit: int, i: int, cur: Option<int>)
    requires
        0 <= i <= es.len(),
        cur is Some ==> cur->0 < i && passed(es, cur->0, limit),
        forall|j: int| 0 <= j < i && (#[trigger] es[j]).0 is Some ==> passed(es, j, limit) && cur is Some && j <= cur->0,
    ensures
        scan_active(es, limit, i, cur) is Some ==> passed(es, scan_active(es, limit, i, cur)->0, limit),
        timed_in_order(es) ==> forall|j: int|
            #[trigger] passed(es, j, limit) ==> (scan_active(es, limit, i, cur) is Some && j <= scan_active(
                es,
                limit,
                i,
                cur,
            )->0),
    decreases es.len() - i,
{
    if i < es.len() {
        match es[i].0 {
            Some(t) => {
                if t <= limit {
                    lemma_scan_active_passed(es, limit, i + 1, Some(i));
                } else {
                    if timed_in_order(es) {
                        assert forall|j: int| #[trigger] passed(es, j, limit) implies (scan_active(
                            es,
                            limit,
                            i,
                            cur,
                        ) is Some && j <= scan_active(es, limit, i, cur)->0) by {
                            if j >= i {
                                if j > i {
                                    assert(es[i].0->0 <= es[j].0->0);
                                }
                                assert(false);
                            } else {
                                assert(es[j].0 is Some);
                            }
                        }
                    }
                }
            },
            None => {
                lemma_scan_active_passed(es, limit, i + 1, cur);
            },
        }
    }
}

/// The highlighted lyric line is a timed line whose timestamp key is at
/// most `limit` (the playing position plus half a second); when the timed
/// lines are in time order, every timed line that has been reached stands
/// at or before it, so no later timed line has passed, and there is no
/// highlighted line only when no timed line has passed.
pub proof fn lemma_active_line_is_last_passed(es: Seq<Entry>, limit: int)
    ensures
        active_line(es, limit) is Some ==> passed(es, active_line(es, limit)->0, limit),
        timed_in_order(es) ==> forall|j: int|
            #[trigger] passed(es, j, limit) ==> (active_line(es, limit) is Some && j <= active_line(
                es,
                limit,
            )->0),
{
    lemma_scan_active_passed(es, limit, 0, None);
}

// ---------------------------------------------------------------------------
// Compilation flag
// ---------------------------------------------------------------------------

/// ASCII lowercase of one character.
pub open spec fn lower_char(c: char) -> char {
    if 'A' <= c <= 'Z' {
        ((c as u32) + 32) as char
    } else {
        c
    }
}

/// ASCII lowercase of a text (`to_ascii_lowercase`).
pub open spec fn ascii_lower(s: Seq<char>) -> Seq<char> {
    s.map_values(|c: char| lower_char(c))
}

fn lower_char_exec(c: char) -> (r: char)
    ensures
        r == lower_char(c),
{
    if 'A' <= c && c <= 'Z' {
        ((c as u8) + 32) as char
    } else {
        c
    }
}

/// ASCII lowercase of a character sequence.
pub fn ascii_lowercase(v: &[char]) -> (r: Vec<char>)
    ensures
        r@ == ascii_lower(v@),
{
    let mut r: Vec<char> = Vec::new();
    let mut i: usize = 0;
    while i < v.len()
        invariant
            i <= v@.len(),
            r@ == ascii_lower(v@.take(i as int)),
        decreases v@.len() - i,
    {
        r.push(lower_char_exec(v[i]));
        assert(ascii_lower(v@.take(i + 1)) =~= ascii_lower(v@.take(i as int)).push(
            lower_char(v@[i as int]),
        ));
        i = i + 1;
    }
    assert(v@.take(v@.len() as int) =~= v@);
    r
}

/// The canonical form of the Compilation flag: `None` (clear) for blank
/// input, "1" for 1/true/yes/y/t (any ASCII case, surrounding whitespace
/// ignored), else "0".
pub open spec fn compilation_flag(input: Seq<char>) -> Option<Seq<char>> {
    let s = ascii_lower(trim(input));
    if s.len() == 0 {
        None
    } else if s == "1"@ || s == "true"@ || s == "yes"@ || s == "y"@ || s == "t"@ {
        Some("1"@)
    } else {
        Some("0"@)
    }
}

/// Normalizes the Compilation flag to "1"/"0", or `None` to clear it.
pub fn normalize_compilation(input: &str) -> (r: Option<&'static str>)
    ensures
        match r {
            Some(v) => compilation_flag(input@) == Some(v@),
            None => compilation_flag(input@) is None,
        },
{
    let cs = chars_of(input);
    let t = trim_chars(&cs);
    let s = ascii_lowercase(&t);
    if s.len() == 0 {
        return None;
    }
    let truthy = crate::text::chars_eq(&s, &chars_of("1")) || crate::text::chars_eq(
        &s,
        &chars_of("true"),
    ) || crate::text::chars_eq(&s, &chars_of("yes")) || crate::text::chars_eq(
        &s,
        &chars_of("y"),
    ) || crate::text::chars_eq(&s, &chars_of("t"));
    if truthy {
        Some("1")
    } else {
        Some("0")
    }
}

/// The Compilation flag for display: "yes", "no", or "" when unset.
pub open spec fn compilation_display(raw: Seq<char>) -> Seq<char> {
    match compilation_flag(raw) {
        Some(v) => if v == "1"@ {
            "yes"@
        } else {
            "no"@
        },
        None => Seq::empty(),
    }
}

pub fn display_compilation(raw: &str) -> (r: String)
    ensures
        r@ == compilation_display(raw@),
{
    match normalize_compilation(raw) {
        Some(v) => if crate::text::str_eq(v, "1") {
            "yes".to_owned()
        } else {
            "no".to_owned()
        },
        None => String::new(),
    }
}

// ---------------------------------------------------------------------------
// Synced lyrics detection
// ---------------------------------------------------------------------------

/// A line (after trimming) that opens with `'['` and a digit, as LRC
/// timestamps do.
pub open spec fn starts_timed(line: Seq<char>) -> bool {
    let t = trim(line);
    t.len() >= 2 && t[0] == '[' && is_digit(t[1])
}

/// Whether some line of `s` looks like an LRC timestamp line.
pub fn is_synced_lyrics(s: &str) -> (b: bool)
    ensures
        b == exists|i: int| 0 <= i < lines(s@).len() && starts_timed(#[trigger] lines(s@)[i]),
{
    let cs = chars_of(s);
    let ls = lines_of(&cs);
    let ghost lv = views(ls@);
    let mut i: usize = 0;
    while i < ls.len()
        invariant
            i <= ls@.len(),
            lv == views(ls@),
            lv == lines(s@),
            forall|j: int| 0 <= j < i ==> !starts_timed(#[trigger] lv[j]),
        decreases ls@.len() - i,
    {
        let t = trim_chars(&ls[i]);
        assert(lv[i as int] == ls@[i as int]@);
        if t.len() >= 2 && t[0] == '[' && is_digit_char(t[1]) {
            return true;
        }
        i = i + 1;
    }
    false
}

} // verus!
