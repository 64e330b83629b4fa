//! Listing the library on the command line: the track query for a genre
//! and search text, tracks grouped by artist and album, genres with their
//! track counts, and the other printed listings.

use vstd::prelude::*;
use crate::order::{chars_le, lemma_text_le_antisym, lemma_text_le_total, lemma_text_le_trans, text_le};
use crate::paths::{join_path, joined, parent_of, path_parent};
use crate::text::{
    chars_of, decimal, is_blank, join_texts, push_decimal, push_str, signed_decimal, split_chars,
    split_on, str_eq, string_of, trim, trim_chars, views,
};
use crate::util::string_views;
use vstd::multiset::Multiset;

verus! {

// ---------------------------------------------------------------------------
// Terminal colours
// ---------------------------------------------------------------------------

/// Text wrapped in an ANSI SGR code and a reset.
pub open spec fn painted(code: Seq<char>, s: Seq<char>) -> Seq<char> {
    "\x1b["@ + code + "m"@ + s + "\x1b[0m"@
}

/// Wraps text in an ANSI style (`1` bold, `4` underline, `31` red, `32`
/// green, `33` yellow, `36` cyan).
pub fn paint(code: &str, s: &str) -> (r: String)
    ensures
        r@ == painted(code@, s@),
{
    let mut r = "\x1b[".to_owned();
    push_str(&mut r, code);
    push_str(&mut r, "m");
    push_str(&mut r, s);
    push_str(&mut r, "\x1b[0m");
    r
}

// ---------------------------------------------------------------------------
// The track listing query
// ---------------------------------------------------------------------------

/// The SQL of the track listing for an optional genre and search text.
pub open spec fn list_sql(has_genre: bool, has_query: bool) -> Seq<char> {
    if !has_genre && !has_query {
        "SELECT artist, album, title FROM tracks ORDER BY artist, album, title"@
    } else if has_genre && !has_query {
        "SELECT artist, album, title FROM tracks WHERE genre LIKE ?1 ORDER BY artist, album, title"@
    } else if !has_genre && has_query {
        "SELECT artist, album, title FROM tracks WHERE (album LIKE ?1 OR artist LIKE ?1 OR title LIKE ?1) ORDER BY artist, album, title"@
    } else {
        "SELECT artist, album, title FROM tracks WHERE genre LIKE ?1 AND (album LIKE ?2 OR artist LIKE ?2 OR title LIKE ?2) ORDER BY artist, album, title"@
    }
}

/// The parameters of the listing: `%genre%` then `%query%`, each when
/// given.
pub open spec fn list_params(genre: Option<Seq<char>>, query: Option<Seq<char>>) -> Seq<Seq<char>> {
    let g = match genre {
        Some(g) => seq!["%"@ + g + "%"@],
        None => Seq::empty(),
    };
    match query {
        Some(q) => g.push("%"@ + q + "%"@),
        None => g,
    }
}

fn like(q: &str) -> (r: String)
    ensures
        r@ == "%"@ + q@ + "%"@,
{
    let mut r = "%".to_owned();
    push_str(&mut r, q);
    push_str(&mut r, "%");
    r
}

/// The query listing tracks, with its parameters.
pub fn list_query(genre: Option<&str>, query: Option<&str>) -> (r: (String, Vec<String>))
    ensures
        r.0@ == list_sql(genre is Some, query is Some),
        string_views(r.1@) == list_params(
            match genre {
                Some(g) => Some(g@),
                None => None,
            },
            match query {
                Some(q) => Some(q@),
                None => None,
            },
        ),
{
    let sql = match (genre, query) {
        (None, None) => "SELECT artist, album, title FROM tracks ORDER BY artist, album, title",
        (Some(_), None) => "SELECT artist, album, title FROM tracks WHERE genre LIKE ?1 ORDER BY artist, album, title",
        (None, Some(_)) => "SELECT artist, album, title FROM tracks WHERE (album LIKE ?1 OR artist LIKE ?1 OR title LIKE ?1) ORDER BY artist, album, title",
        (Some(_), Some(_)) => "SELECT artist, album, title FROM tracks WHERE genre LIKE ?1 AND (album LIKE ?2 OR artist LIKE ?2 OR title LIKE ?2) ORDER BY artist, album, title",
    };
    let mut params: Vec<String> = Vec::new();
    match genre {
        Some(g) => {
            params.push(like(g));
        },
        None => {},
    }
    let ghost p0 = string_views(params@);
    match query {
        Some(q) => {
            let l = like(q);
            params.push(l);
            assert(string_views(params@) =~= p0.push("%"@ + q@ + "%"@));
        },
        None => {},
    }
    assert(string_views(params@) =~= list_params(
        match genre {
            Some(g) => Some(g@),
            None => None,
        },
        match query {
            Some(q) => Some(q@),
            None => None,
        },
    ));
    (sql.to_owned(), params)
}

// ---------------------------------------------------------------------------
// Tracks grouped by artist and album
// ---------------------------------------------------------------------------

/// Triples as text.
pub open spec fn triple_texts(v: Seq<(String, String, String)>) -> Seq<(Seq<char>, Seq<char>, Seq<char>)> {
    v.map_values(|t: (String, String, String)| (t.0@, t.1@, t.2@))
}

/// The printed lines for (artist, album, title) rows in order: a bold
/// artist heading (after a blank line) when the artist changes, a cyan
/// album heading when the album changes (or the artist did), and each title
/// indented.
pub open spec fn grouped(rows: Seq<(Seq<char>, Seq<char>, Seq<char>)>) -> Seq<Seq<char>>
    decreases rows.len(),
{
    if rows.len() == 0 {
        Seq::empty()
    } else {
        let pre = grouped(rows.drop_last());
        let (artist, album, title) = rows.last();
        let prev_artist: Seq<char> = if rows.len() > 1 { rows[rows.len() - 2].0 } else { Seq::empty() };
        let prev_album: Seq<char> = if rows.len() > 1 && prev_artist == artist {
            rows[rows.len() - 2].1
        } else {
            Seq::empty()
        };
        let with_artist = if artist != prev_artist {
            pre.push("\n"@ + painted("1"@, artist) + ":"@)
        } else {
            pre
        };
        let with_album = if album != prev_album {
            with_artist.push("  "@ + painted("36"@, album) + ":"@)
        } else {
            with_artist
        };
        with_album.push("    "@ + title)
    }
}

/// The lines printed for a track listing ("No tracks found." when empty).
pub open spec fn listing_lines(rows: Seq<(Seq<char>, Seq<char>, Seq<char>)>) -> Seq<Seq<char>> {
    if rows.len() == 0 {
        seq![painted("33"@, "No tracks found."@)]
    } else {
        grouped(rows)
    }
}

/// The lines of a track listing.
pub fn grouped_lines(rows: &Vec<(String, String, String)>) -> (r: Vec<String>)
    ensures
        string_views(r@) == listing_lines(triple_texts(rows@)),
{
    if rows.len() == 0 {
        let r = vec![paint("33", "No tracks found.")];
        assert(string_views(r@) =~= listing_lines(triple_texts(rows@)));
        return r;
    }
    let ghost tv = triple_texts(rows@);
    let mut out: Vec<String> = Vec::new();
    let mut last_artist = String::new();
    let mut last_album = String::new();
    let mut i: usize = 0;
    assert(tv.take(0) =~= Seq::<(Seq<char>, Seq<char>, Seq<char>)>::empty());
    while i < rows.len()
        invariant
            i <= rows@.len(),
            tv == triple_texts(rows@),
            string_views(out@) == grouped(tv.take(i as int)),
            last_artist@ == (if i > 0 { tv[i - 1].0 } else { Seq::<char>::empty() }),
            last_album@ == (if i > 0 { tv[i - 1].1 } else { Seq::<char>::empty() }),
        decreases rows@.len() - i,
    {
        let ghost cur = tv.take(i + 1);
        assert(cur.drop_last() =~= tv.take(i as int));
        assert(cur.last() == tv[i as int]);
        assert(tv[i as int] == (rows@[i as int].0@, rows@[i as int].1@, rows@[i as int].2@));
        if i > 0 {
            assert(cur[cur.len() - 2] == tv[i - 1]);
        }
        let artist = &rows[i].0;
        let album = &rows[i].1;
        let title = &rows[i].2;
        let ghost pre = string_views(out@);
        let artist_changed = !str_eq(artist.as_str(), last_artist.as_str());
        if artist_changed {
            let mut line = "\n".to_owned();
            push_str(&mut line, paint("1", artist.as_str()).as_str());
            push_str(&mut line, ":");
            out.push(line);
            last_artist = artist.clone();
            last_album = String::new();
        }
        let ghost mid = string_views(out@);
        if !str_eq(album.as_str(), last_album.as_str()) {
            let mut line = "  ".to_owned();
            push_str(&mut line, paint("36", album.as_str()).as_str());
            push_str(&mut line, ":");
            out.push(line);
            last_album = album.clone();
        }
        let ghost mid2 = string_views(out@);
        let mut tl = "    ".to_owned();
        push_str(&mut tl, title.as_str());
        out.push(tl);
        assert(string_views(out@) =~= grouped(cur)) by {
            let prev_artist: Seq<char> = if cur.len() > 1 { cur[cur.len() - 2].0 } else { Seq::empty() };
            let prev_album: Seq<char> = if cur.len() > 1 && prev_artist == artist@ {
                cur[cur.len() - 2].1
            } else {
                Seq::empty()
            };
            if artist_changed {
                assert(mid =~= pre.push("\n"@ + painted("1"@, artist@) + ":"@));
            } else {
                assert(mid =~= pre);
            }
        }
        i = i + 1;
    }
    assert(tv.take(rows@.len() as int) =~= tv);
    out
}

} // verus!

verus! {

// ---------------------------------------------------------------------------
// Genres and their track counts
// ---------------------------------------------------------------------------

/// The genres named in one genre tag: its comma-separated pieces, trimmed,
/// blanks left out.
pub open spec fn tag_genres(pieces: Seq<Seq<char>>) -> Seq<Seq<char>>
    decreases pieces.len(),
{
    if pieces.len() == 0 {
        Seq::empty()
    } else {
        let pre = tag_genres(pieces.drop_last());
        let t = trim(pieces.last());
        if t.len() == 0 {
            pre
        } else {
            pre.push(t)
        }
    }
}

/// Every genre mention over all tags, in order.
pub open spec fn all_genres(rows: Seq<Seq<char>>) -> Seq<Seq<char>>
    decreases rows.len(),
{
    if rows.len() == 0 {
        Seq::empty()
    } else {
        all_genres(rows.drop_last()) + tag_genres(split_on(rows.last(), ','))
    }
}

/// Strictly before in text order.
pub open spec fn text_lt(a: Seq<char>, b: Seq<char>) -> bool {
    text_le(a, b) && a != b
}

/// A tally: names in strictly increasing order, each with its number of
/// mentions, every mentioned name present.
pub open spec fn tally_of(out: Seq<(String, usize)>, m: Multiset<Seq<char>>) -> bool {
    &&& forall|i: int, j: int| 0 <= i < j < out.len() ==> text_lt(out[i].0@, out[j].0@)
    &&& forall|i: int| 0 <= i < out.len() ==> out[i].1 == m.count(out[i].0@) && out[i].1 >= 1
    &&& forall|g: Seq<char>| m.count(g) > 0 ==> exists|i: int| 0 <= i < out.len() && out[i].0@ == g
}

fn text_lt_exec(a: &str, b: &Vec<char>) -> (r: bool)
    ensures
        r == text_lt(a@, b@),
{
    let ca = chars_of(a);
    chars_le(ca.as_slice(), b.as_slice()) && !crate::text::chars_eq(ca.as_slice(), b.as_slice())
}

fn add_genre(out: &mut Vec<(String, usize)>, g: Vec<char>, Ghost(m): Ghost<Multiset<Seq<char>>>)
    requires
        tally_of(old(out)@, m),
        m.len() + 1 <= usize::MAX,
        forall|i: int| 0 <= i < old(out)@.len() ==> old(out)@[i].1 <= m.len(),
    ensures
        tally_of(final(out)@, m.insert(g@)),
        forall|i: int| 0 <= i < final(out)@.len() ==> final(out)@[i].1 <= m.len() + 1,
{
    broadcast use vstd::multiset::group_multiset_axioms;

    let ghost s = out@;
    let mut j: usize = 0;
    while j < out.len() && text_lt_exec(out[j].0.as_str(), &g)
        invariant
            j <= out@.len(),
            s == out@,
            forall|i: int| 0 <= i < j ==> text_lt(s[i].0@, g@),
        decreases out@.len() - j,
    {
        j = j + 1;
    }
    let ghost m2 = m.insert(g@);
    if j < out.len() && str_eq(out[j].0.as_str(), string_of(&g).as_str()) {
        let name = out[j].0.clone();
        let c = out[j].1;
        out.set(j, (name, c + 1));
        assert(tally_of(out@, m2)) by {
            assert forall|i: int| 0 <= i < out@.len() implies out@[i].1 == m2.count(out@[i].0@)
                && out@[i].1 >= 1 by {
                if i != j {
                    assert(out@[i] == s[i]);
                    assert(s[i].0@ != g@) by {
                        if i < j {
                        } else {
                            assert(text_lt(s[j as int].0@, s[i].0@));
                        }
                    }
                }
            }
            assert forall|x: Seq<char>| m2.count(x) > 0 implies exists|i: int|
                0 <= i < out@.len() && out@[i].0@ == x by {
                if x == g@ {
                    assert(out@[j as int].0@ == x);
                } else {
                    assert(m.count(x) > 0);
                    let i = choose|i: int| 0 <= i < s.len() && s[i].0@ == x;
                    if i == j {
                        assert(out@[i].0@ == s[i].0@);
                    } else {
                        assert(out@[i] == s[i]);
                    }
                }
            }
            assert forall|a: int, b: int| 0 <= a < b < out@.len() implies text_lt(out@[a].0@, out@[b].0@) by {
                assert(out@[a].0@ == s[a].0@ && out@[b].0@ == s[b].0@);
            }
        }
    } else {
        // `g` is not in the tally: everything before is smaller, everything
        // from `j` on is larger.
        assert forall|i: int| j <= i < s.len() implies text_lt(g@, #[trigger] s[i].0@) by {
            if i == j {
                lemma_text_le_total(s[i].0@, g@);
            } else {
                lemma_text_le_total(s[j as int].0@, g@);
                assert(text_lt(s[j as int].0@, s[i].0@));
                lemma_text_le_trans(g@, s[j as int].0@, s[i].0@);
                if g@ == s[i].0@ {
                    lemma_text_le_antisym(s[j as int].0@, s[i].0@);
                }
            }
        }
        assert(m.count(g@) == 0) by {
            if m.count(g@) > 0 {
                let i = choose|i: int| 0 <= i < s.len() && s[i].0@ == g@;
                if i < j {
                    assert(text_lt(s[i].0@, g@));
                } else {
                    assert(text_lt(g@, s[i].0@));
                }
            }
        }
        let name = string_of(&g);
        out.insert(j, (name, 1));
        assert(tally_of(out@, m2)) by {
            assert forall|a: int, b: int| 0 <= a < b < out@.len() implies text_lt(out@[a].0@, out@[b].0@) by {
                if b < j {
                    assert(out@[a] == s[a] && out@[b] == s[b]);
                } else if b == j {
                    assert(out@[a] == s[a]);
                } else if a == j {
                    assert(out@[b] == s[b - 1]);
                } else if a < j {
                    assert(out@[a] == s[a] && out@[b] == s[b - 1]);
                    assert(text_lt(s[a].0@, g@));
                    assert(text_lt(g@, s[b - 1].0@));
                    lemma_text_le_trans(s[a].0@, g@, s[b - 1].0@);
                    if s[a].0@ == s[b - 1].0@ {
                        lemma_text_le_antisym(s[a].0@, g@);
                    }
                } else {
                    assert(out@[a] == s[a - 1] && out@[b] == s[b - 1]);
                }
            }
            assert forall|i: int| 0 <= i < out@.len() implies out@[i].1 == m2.count(out@[i].0@)
                && out@[i].1 >= 1 by {
                if i < j {
                    assert(out@[i] == s[i]);
                    assert(s[i].0@ != g@);
                } else if i > j {
                    assert(out@[i] == s[i - 1]);
                    assert(text_lt(g@, s[i - 1].0@));
                }
            }
            assert forall|x: Seq<char>| m2.count(x) > 0 implies exists|i: int|
                0 <= i < out@.len() && out@[i].0@ == x by {
                if x == g@ {
                    assert(out@[j as int].0@ == x);
                } else {
                    assert(m.count(x) > 0);
                    let i = choose|i: int| 0 <= i < s.len() && s[i].0@ == x;
                    if i < j {
                        assert(out@[i] == s[i]);
                    } else {
                        assert(out@[i + 1] == s[i]);
                    }
                }
            }
        }
    }
}

/// The genres of the library with their track counts, in text order: each
/// genre tag counts once for each of its comma-separated (trimmed,
/// non-blank) names.
pub fn genre_counts(rows: &Vec<String>) -> (r: Vec<(String, usize)>)
    requires
        all_genres(string_views(rows@)).len() <= usize::MAX,
    ensures
        tally_of(r@, all_genres(string_views(rows@)).to_multiset()),
{
    broadcast use vstd::seq_lib::group_to_multiset_ensures;

    let ghost rv = string_views(rows@);
    let mut out: Vec<(String, usize)> = Vec::new();
    let mut i: usize = 0;
    assert(rv.take(0) =~= Seq::<Seq<char>>::empty());
    assert(all_genres(rv.take(0)).to_multiset() =~= Multiset::<Seq<char>>::empty());
    while i < rows.len()
        invariant
            i <= rows@.len(),
            rv == string_views(rows@),
            all_genres(rv).len() <= usize::MAX,
            tally_of(out@, all_genres(rv.take(i as int)).to_multiset()),
            forall|k: int| 0 <= k < out@.len() ==> out@[k].1 <= all_genres(rv.take(i as int)).len(),
        decreases rows@.len() - i,
    {
        proof {
            lemma_all_genres_prefix(rv, i as int);
        }
        let pieces = split_chars(chars_of(rows[i].as_str()).as_slice(), ',');
        let ghost ps = split_on(rv[i as int], ',');
        assert(rows@[i as int]@ == rv[i as int]);
        let ghost base = all_genres(rv.take(i as int));
        let mut k: usize = 0;
        assert(ps.take(0) =~= Seq::<Seq<char>>::empty());
        assert(base + tag_genres(ps.take(0)) =~= base);
        while k < pieces.len()
            invariant
                k <= pieces@.len(),
                views(pieces@) == ps,
                base + tag_genres(ps) == all_genres(rv.take(i + 1)),
                all_genres(rv.take(i + 1)).len() <= usize::MAX,
                tally_of(out@, (base + tag_genres(ps.take(k as int))).to_multiset()),
                forall|q: int| 0 <= q < out@.len() ==> out@[q].1 <= (base + tag_genres(ps.take(k as int))).len(),
            decreases pieces@.len() - k,
        {
            let t = trim_chars(pieces[k].as_slice());
            let ghost cur = base + tag_genres(ps.take(k as int));
            assert(ps.take(k + 1).drop_last() =~= ps.take(k as int));
            assert(ps.take(k + 1).last() == pieces@[k as int]@);
            proof {
                lemma_tag_genres_prefix(ps, k + 1);
            }
            if t.len() > 0 {
                let ghost tv = t@;
                assert(tag_genres(ps.take(k + 1)) == tag_genres(ps.take(k as int)).push(tv));
                assert(base + tag_genres(ps.take(k + 1)) =~= cur.push(tv));
                proof {
                    vstd::seq_lib::to_multiset_len(cur);
                }
                add_genre(&mut out, t, Ghost(cur.to_multiset()));
                proof {
                    vstd::seq_lib::to_multiset_build(cur, tv);
                }
            } else {
                assert(base + tag_genres(ps.take(k + 1)) =~= cur);
            }
            k = k + 1;
        }
        assert(ps.take(pieces@.len() as int) =~= ps);
        i = i + 1;
    }
    assert(rv.take(rows@.len() as int) =~= rv);
    out
}

proof fn lemma_tag_genres_prefix(ps: Seq<Seq<char>>, k: int)
    requires
        0 <= k <= ps.len(),
    ensures
        tag_genres(ps.take(k)).len() <= tag_genres(ps).len(),
    decreases ps.len(),
{
    if k < ps.len() {
        lemma_tag_genres_prefix(ps.drop_last(), k);
        assert(ps.take(k) =~= ps.drop_last().take(k));
    } else {
        assert(ps.take(k) =~= ps);
    }
}

proof fn lemma_all_genres_prefix(rv: Seq<Seq<char>>, i: int)
    requires
        0 <= i < rv.len(),
    ensures
        all_genres(rv.take(i + 1)) == all_genres(rv.take(i)) + tag_genres(split_on(rv[i], ',')),
        all_genres(rv.take(i + 1)).len() <= all_genres(rv).len(),
    decreases rv.len(),
{
    assert(rv.take(i + 1).drop_last() =~= rv.take(i));
    assert(rv.take(i + 1).last() == rv[i]);
    if i + 1 < rv.len() {
        lemma_all_genres_prefix(rv.drop_last(), i);
        assert(rv.drop_last().take(i + 1) =~= rv.take(i + 1));
        assert(rv.drop_last().take(i) =~= rv.take(i));
    } else {
        assert(rv.take(i + 1) =~= rv);
    }
}

} // verus!

verus! {

/// The names of a tally, in order.
pub open spec fn tally_names(out: Seq<(String, usize)>) -> Seq<Seq<char>> {
    out.map_values(|p: (String, usize)| p.0@)
}

/// The distinct values, in text order (the album and artist listings of a
/// search).
pub fn distinct_sorted(values: &Vec<String>) -> (r: Vec<String>)
    requires
        values@.len() < usize::MAX,
    ensures
        forall|i: int, j: int| 0 <= i < j < r@.len() ==> text_lt(r@[i]@, r@[j]@),
        forall|x: Seq<char>| string_views(r@).contains(x) <==> string_views(values@).contains(x),
{
    broadcast use vstd::seq_lib::group_to_multiset_ensures;

    let ghost vs = string_views(values@);
    let mut out: Vec<(String, usize)> = Vec::new();
    let mut i: usize = 0;
    assert(vs.take(0).to_multiset() =~= Multiset::<Seq<char>>::empty());
    while i < values.len()
        invariant
            i <= values@.len() < usize::MAX,
            vs == string_views(values@),
            tally_of(out@, vs.take(i as int).to_multiset()),
            forall|k: int| 0 <= k < out@.len() ==> out@[k].1 <= i,
        decreases values@.len() - i,
    {
        let ghost cur = vs.take(i as int);
        proof {
            vstd::seq_lib::to_multiset_len(cur);
        }
        let g = chars_of(values[i].as_str());
        assert(g@ == vs[i as int]);
        add_genre(&mut out, g, Ghost(cur.to_multiset()));
        assert(vs.take(i + 1) =~= cur.push(vs[i as int]));
        proof {
            vstd::seq_lib::to_multiset_build(cur, vs[i as int]);
        }
        i = i + 1;
    }
    assert(vs.take(values@.len() as int) =~= vs);
    let mut r: Vec<String> = Vec::new();
    let mut k: usize = 0;
    while k < out.len()
        invariant
            k <= out@.len(),
            vs == string_views(values@),
            tally_of(out@, vs.to_multiset()),
            string_views(r@) == tally_names(out@).take(k as int),
        decreases out@.len() - k,
    {
        let ghost old_r = string_views(r@);
        r.push(out[k].0.clone());
        assert(string_views(r@) =~= old_r.push(out@[k as int].0@));
        assert(tally_names(out@).take(k + 1) =~= tally_names(out@).take(k as int).push(out@[k as int].0@));
        k = k + 1;
    }
    assert(tally_names(out@).take(out@.len() as int) =~= tally_names(out@));
    assert forall|i: int, j: int| 0 <= i < j < r@.len() implies text_lt(r@[i]@, r@[j]@) by {
        assert(string_views(r@)[i] == r@[i]@);
        assert(string_views(r@)[j] == r@[j]@);
        assert(tally_names(out@)[i] == out@[i].0@);
        assert(tally_names(out@)[j] == out@[j].0@);
    }
    assert forall|x: Seq<char>| string_views(r@).contains(x) <==> vs.contains(x) by {
        if string_views(r@).contains(x) {
            let i = choose|i: int| 0 <= i < string_views(r@).len() && string_views(r@)[i] == x;
            assert(tally_names(out@)[i] == out@[i].0@);
            assert(out@[i].0@ == x);
            assert(vs.to_multiset().count(x) >= 1);
        }
        if vs.contains(x) {
            assert(vs.to_multiset().count(x) > 0);
            let i = choose|i: int| 0 <= i < out@.len() && out@[i].0@ == x;
            assert(tally_names(out@)[i] == out@[i].0@);
            assert(string_views(r@)[i] == x);
        }
    }
    r
}

/// A number right-aligned in a field of `w` characters (`{:w}`).
pub open spec fn right_aligned(s: Seq<char>, w: nat) -> Seq<char> {
    if s.len() >= w {
        s
    } else {
        Seq::new((w - s.len()) as nat, |_i: int| ' ') + s
    }
}

/// The histogram bar of a year: forty blocks for the busiest year, the
/// others in proportion (rounded down).
pub open spec fn year_bar(count: int, max_count: int) -> nat {
    if max_count > 0 {
        (count * 40 / max_count) as nat
    } else {
        0
    }
}

/// A line of the tracks-by-year histogram: year and count right-aligned in
/// four columns, then the bar.
pub fn year_line(year: i64, count: i64, max_count: i64) -> (r: String)
    requires
        0 <= count <= max_count,
        count * 40 <= i64::MAX,
    ensures
        r@ == right_aligned(signed_decimal(year as int), 4) + ": "@ + right_aligned(
            signed_decimal(count as int),
            4,
        ) + " "@ + Seq::new(year_bar(count as int, max_count as int), |_i: int| '█'),
{
    let bar_len: i64 = if max_count > 0 {
        count * 40 / max_count
    } else {
        0
    };
    assert(0 <= bar_len <= 40) by (nonlinear_arith)
        requires
            0 <= count <= max_count,
            max_count > 0 ==> bar_len == (count * 40) / (max_count as int),
            max_count <= 0 ==> bar_len == 0,
    ;
    let mut r = String::new();
    push_aligned(&mut r, year, 4);
    push_str(&mut r, ": ");
    push_aligned(&mut r, count, 4);
    push_str(&mut r, " ");
    crate::text::push_repeat(&mut r, '█', bar_len as usize);
    r
}

fn push_aligned(r: &mut String, n: i64, w: usize)
    ensures
        final(r)@ == old(r)@ + right_aligned(signed_decimal(n as int), w as nat),
{
    let t = crate::text::int_to_string(n);
    let len = chars_of(t.as_str()).len();
    if len < w {
        crate::text::push_repeat(r, ' ', w - len);
    }
    push_str(r, t.as_str());
    assert(final(r)@ =~= old(r)@ + right_aligned(signed_decimal(n as int), w as nat));
}

/// How a search hit is offered for choosing: "artist - title  [album]".
pub fn track_choice_label(artist: &str, album: &str, title: &str) -> (r: String)
    ensures
        r@ == artist@ + " - "@ + title@ + "  ["@ + album@ + "]"@,
{
    let mut r = artist.to_owned();
    push_str(&mut r, " - ");
    push_str(&mut r, title);
    push_str(&mut r, "  [");
    push_str(&mut r, album);
    push_str(&mut r, "]");
    r
}

/// Where the CSV export is written: beside the database.
pub open spec fn export_path_of(db_path: Seq<char>) -> Seq<char> {
    let folder = match parent_of(db_path) {
        Some(p) => p,
        None => "."@,
    };
    joined(folder, "tracks_export.csv"@)
}

/// The path of the CSV export for a (tilde-expanded) database path.
pub fn export_csv_path(db_path: &str) -> (r: String)
    ensures
        r@ == export_path_of(db_path@),
{
    let folder = match path_parent(db_path) {
        Some(p) => p,
        None => ".".to_owned(),
    };
    join_path(folder.as_str(), "tracks_export.csv")
}

} // verus!
