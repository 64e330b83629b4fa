//! `.m3u` / `.m3u8` playlists: the entry list and its edits, reading entries
//! from playlist text, writing it back, and ordering playlists by name.
//!
//! Entries in a playlist file may be absolute or relative to the playlist's
//! directory; they are held (and written) as full paths.

use vstd::prelude::*;
use crate::text::{
    chars_of, is_ws, lemma_split_newlines_len, lines, lines_of, push_char, push_str, split_newlines, string_of, strip_cr,
    trim, trim_chars, views, lowercase, to_lowercase,
};
use crate::util::string_views;
use crate::paths::{file_stem_of, is_absolute, join_path, joined, parent_of, path_file_stem, path_parent};
use crate::order::{
    chars_le, lemma_insert_by_at, lemma_sort_by, lemma_text_le_total, lemma_text_le_trans,
    sort_by, sorted_by, text_le, total_preorder,
};

verus! {

// ---------------------------------------------------------------------------
// Reading and writing playlist text
// ---------------------------------------------------------------------------

/// The entries of playlist text: trimmed lines, skipping blank lines and
/// `#` comments, relative paths joined onto `dir`.
pub open spec fn m3u_entries(lines: Seq<Seq<char>>, dir: Seq<char>) -> Seq<Seq<char>>
    decreases lines.len(),
{
    if lines.len() == 0 {
        Seq::empty()
    } else {
        let pre = m3u_entries(lines.drop_last(), dir);
        let l = trim(lines.last());
        if l.len() == 0 || l[0] == '#' {
            pre
        } else {
            pre.push(joined(dir, l))
        }
    }
}

/// Reads the entries of playlist text, resolving relative paths against
/// `dir`.
pub fn parse_m3u(content: &str, dir: &str) -> (r: Vec<String>)
    ensures
        string_views(r@) == m3u_entries(lines(content@), dir@),
{
    let cs = chars_of(content);
    let ls = lines_of(&cs);
    let ghost lv = views(ls@);
    let mut out: Vec<String> = Vec::new();
    let mut k: usize = 0;
    assert(lv.take(0) =~= Seq::<Seq<char>>::empty());
    while k < ls.len()
        invariant
            k <= ls@.len(),
            lv == views(ls@),
            lv == lines(content@),
            string_views(out@) == m3u_entries(lv.take(k as int), dir@),
        decreases ls@.len() - k,
    {
        let t = trim_chars(&ls[k]);
        assert(lv.take(k + 1).drop_last() =~= lv.take(k as int));
        assert(lv.take(k + 1).last() == ls@[k as int]@);
        if t.len() > 0 && t[0] != '#' {
            let line = string_of(&t);
            let e = join_path(dir, line.as_str());
            let ghost pre = string_views(out@);
            out.push(e);
            assert(string_views(out@) =~= pre.push(e@));
        }
        k = k + 1;
    }
    assert(lv.take(ls@.len() as int) =~= lv);
    out
}

/// Each entry followed by a newline.
pub open spec fn m3u_lines(entries: Seq<Seq<char>>) -> Seq<char>
    decreases entries.len(),
{
    if entries.len() == 0 {
        Seq::empty()
    } else {
        m3u_lines(entries.drop_last()) + entries.last() + seq!['\n']
    }
}

/// Playlist text for entries: the entries joined by newlines, plus a final
/// newline (a lone newline for no entries).
pub open spec fn m3u_text(entries: Seq<Seq<char>>) -> Seq<char> {
    if entries.len() == 0 {
        seq!['\n']
    } else {
        m3u_lines(entries)
    }
}

/// A playlist: its display name, the path of its file, and its entries.
#[derive(Debug, Clone)]
pub struct Playlist {
    /// Display name (the file's stem).
    pub name: String,
    /// Path of the playlist file.
    pub path: String,
    /// Paths of the entries, in order.
    pub entries: Vec<String>,
}

impl Playlist {
    /// The entries as text.
    pub open spec fn entry_views(&self) -> Seq<Seq<char>> {
        string_views(self.entries@)
    }

    /// A playlist read from the text of the file at `path`: named after the
    /// file's stem ("Unnamed" without one), entries resolved against the
    /// file's directory.
    pub fn from_text(path: &str, content: &str) -> (r: Playlist)
        ensures
            r.path@ == path@,
            r.name@ == match file_stem_of(path@) {
                Some(s) => s,
                None => "Unnamed"@,
            },
            r.entry_views() == m3u_entries(
                lines(content@),
                match parent_of(path@) {
                    Some(d) => d,
                    None => Seq::empty(),
                },
            ),
    {
        let name = match path_file_stem(path) {
            Some(s) => s,
            None => "Unnamed".to_owned(),
        };
        let dir = match path_parent(path) {
            Some(d) => d,
            None => String::new(),
        };
        let entries = parse_m3u(content, dir.as_str());
        Playlist { name, path: path.to_owned(), entries }
    }

    /// The text to write to the playlist file.
    pub fn to_text(&self) -> (r: String)
        ensures
            r@ == m3u_text(self.entry_views()),
    {
        let mut r = String::new();
        if self.entries.len() == 0 {
            push_char(&mut r, '\n');
            return r;
        }
        let mut i: usize = 0;
        assert(self.entry_views().take(0) =~= Seq::<Seq<char>>::empty());
        while i < self.entries.len()
            invariant
                i <= self.entries@.len(),
                r@ == m3u_lines(self.entry_views().take(i as int)),
            decreases self.entries@.len() - i,
        {
            push_str(&mut r, self.entries[i].as_str());
            push_char(&mut r, '\n');
            assert(self.entry_views().take(i + 1).drop_last() =~= self.entry_views().take(i as int));
            i = i + 1;
        }
        assert(self.entry_views().take(self.entries@.len() as int) =~= self.entry_views());
        r
    }

    /// A new, empty playlist for the file at `path`.
    pub fn create(path: &str, name: &str) -> (r: Playlist)
        ensures
            r.path@ == path@,
            r.name@ == name@,
            r.entries@.len() == 0,
    {
        Playlist { name: name.to_owned(), path: path.to_owned(), entries: Vec::new() }
    }

    /// Appends a track unless the playlist already holds it.
    pub fn add_entry(&mut self, track_path: &str)
        ensures
            final(self).name == old(self).name,
            final(self).path == old(self).path,
            final(self).entry_views() == with_entry(old(self).entry_views(), track_path@),
    {
        let mut i: usize = 0;
        while i < self.entries.len()
            invariant
                i <= self.entries@.len(),
                forall|j: int| 0 <= j < i ==> self.entries@[j]@ != track_path@,
            decreases self.entries@.len() - i,
        {
            if crate::text::str_eq(self.entries[i].as_str(), track_path) {
                assert(self.entry_views()[i as int] == track_path@);
                return;
            }
            i = i + 1;
        }
        let ghost pre = self.entry_views();
        self.entries.push(track_path.to_owned());
        assert(self.entry_views() =~= pre.push(track_path@));
    }

    /// Removes the entry at `index`, if there is one.
    pub fn remove_entry(&mut self, index: usize)
        ensures
            final(self).name == old(self).name,
            final(self).path == old(self).path,
            final(self).entries@ == if index < old(self).entries@.len() {
                old(self).entries@.remove(index as int)
            } else {
                old(self).entries@
            },
    {
        if index < self.entries.len() {
            self.entries.remove(index);
        }
    }

    /// Swaps the entry at `index` with the one before it.
    pub fn move_entry_up(&mut self, index: usize)
        ensures
            final(self).name == old(self).name,
            final(self).path == old(self).path,
            final(self).entries@ == moved_up(old(self).entries@, index as int),
    {
        if index > 0 && index < self.entries.len() {
            swap_entries(&mut self.entries, index - 1, index);
        }
    }

    /// Swaps the entry at `index` with the one after it.
    pub fn move_entry_down(&mut self, index: usize)
        ensures
            final(self).name == old(self).name,
            final(self).path == old(self).path,
            final(self).entries@ == moved_down(old(self).entries@, index as int),
    {
        if index < self.entries.len() && index + 1 < self.entries.len() {
            swap_entries(&mut self.entries, index, index + 1);
        }
    }
}

/// The entries after adding `t`: unchanged when `t` is already there, else
/// `t` appended.
pub open spec fn with_entry(es: Seq<Seq<char>>, t: Seq<char>) -> Seq<Seq<char>> {
    if es.contains(t) {
        es
    } else {
        es.push(t)
    }
}

/// `s` with the element at `i` moved one place towards the front, when
/// there is a place before it.
pub open spec fn moved_up<A>(s: Seq<A>, i: int) -> Seq<A> {
    if 0 < i < s.len() {
        swapped(s, i - 1, i)
    } else {
        s
    }
}

/// `s` with the element at `i` moved one place towards the back, when there
/// is a place after it.
pub open spec fn moved_down<A>(s: Seq<A>, i: int) -> Seq<A> {
    if 0 <= i && i + 1 < s.len() {
        swapped(s, i, i + 1)
    } else {
        s
    }
}

/// `s` with the elements at `i` and `j` exchanged.
pub open spec fn swapped<A>(s: Seq<A>, i: int, j: int) -> Seq<A> {
    s.update(i, s[j]).update(j, s[i])
}

fn swap_entries(v: &mut Vec<String>, i: usize, j: usize)
    requires
        i < j < old(v)@.len(),
    ensures
        final(v)@ == swapped(old(v)@, i as int, j as int),
{
    let b = v.remove(j);
    let a = v.remove(i);
    v.insert(i, b);
    v.insert(j, a);
    assert(v@ =~= swapped(old(v)@, i as int, j as int));
}

} // verus!

verus! {

// ---------------------------------------------------------------------------
// Laws
// ---------------------------------------------------------------------------

/// Adding a track twice leaves the playlist as adding it once does, and
/// adding never makes a track appear twice.
pub proof fn lemma_add_entry_idempotent(es: Seq<Seq<char>>, t: Seq<char>)
    ensures
        with_entry(with_entry(es, t), t) == with_entry(es, t),
        with_entry(es, t).contains(t),
        es.no_duplicates() ==> with_entry(es, t).no_duplicates(),
{
    if !es.contains(t) {
        assert(es.push(t)[es.len() as int] == t);
        if es.no_duplicates() {
            let r = es.push(t);
            assert forall|i: int, j: int| 0 <= i < r.len() && 0 <= j < r.len() && i != j implies r[i]
                != r[j] by {
                if i < es.len() && j < es.len() {
                    assert(r[i] == es[i] && r[j] == es[j]);
                } else if i < es.len() {
                    assert(r[i] == es[i]);
                } else if j < es.len() {
                    assert(r[j] == es[j]);
                }
            }
        }
    }
}

/// Moving an entry up and then down again (or down and then up) restores
/// the playlist.
pub proof fn lemma_move_up_down_inverse<A>(s: Seq<A>, i: int)
    ensures
        0 < i < s.len() ==> moved_down(moved_up(s, i), i - 1) == s,
        0 <= i && i + 1 < s.len() ==> moved_up(moved_down(s, i), i + 1) == s,
{
    if 0 < i < s.len() {
        assert(moved_down(moved_up(s, i), i - 1) =~= s);
    }
    if 0 <= i && i + 1 < s.len() {
        assert(moved_up(moved_down(s, i), i + 1) =~= s);
    }
}

proof fn lemma_split_append_plain(s: Seq<char>, t: Seq<char>)
    requires
        !t.contains('\n'),
    ensures
        split_newlines(s + t) == split_newlines(s).update(
            split_newlines(s).len() - 1,
            split_newlines(s).last() + t,
        ),
    decreases t.len(),
{
    lemma_split_newlines_len(s);
    let p = split_newlines(s);
    if t.len() == 0 {
        assert(s + t =~= s);
        assert(p.last() + t =~= p.last());
        assert(p.update(p.len() - 1, p.last() + t) =~= p);
    } else {
        let t0 = t.drop_last();
        assert(!t0.contains('\n')) by {
            if t0.contains('\n') {
                let k = choose|k: int| 0 <= k < t0.len() && t0[k] == '\n';
                assert(t[k] == '\n');
            }
        }
        lemma_split_append_plain(s, t0);
        assert((s + t).drop_last() =~= s + t0);
        assert((s + t).last() == t.last());
        assert(t.last() != '\n') by {
            assert(t[t.len() - 1] == t.last());
        }
        let pre = split_newlines(s + t0);
        assert((p.last() + t0).push(t.last()) =~= p.last() + t);
        assert(pre.update(pre.len() - 1, pre.last().push(t.last())) =~= p.update(
            p.len() - 1,
            p.last() + t,
        ));
    }
}

/// The entry texts are free of line breaks.
pub open spec fn single_lines(es: Seq<Seq<char>>) -> bool {
    forall|i: int| 0 <= i < es.len() ==> !(#[trigger] es[i]).contains('\n')
}

proof fn lemma_split_m3u_lines(es: Seq<Seq<char>>)
    requires
        single_lines(es),
    ensures
        split_newlines(m3u_lines(es)) == es.push(Seq::<char>::empty()),
    decreases es.len(),
{
    if es.len() == 0 {
        assert(split_newlines(Seq::<char>::empty()) =~= seq![Seq::<char>::empty()]);
        assert(es.push(Seq::<char>::empty()) =~= seq![Seq::<char>::empty()]);
    } else {
        let d = es.drop_last();
        let e = es.last();
        assert(single_lines(d)) by {
            assert forall|i: int| 0 <= i < d.len() implies !(#[trigger] d[i]).contains('\n') by {
                assert(d[i] == es[i]);
            }
        }
        assert(!e.contains('\n')) by {
            assert(es[es.len() - 1] == e);
        }
        lemma_split_m3u_lines(d);
        let l0 = m3u_lines(d);
        lemma_split_append_plain(l0, e);
        let q = d.push(Seq::<char>::empty());
        assert(Seq::<char>::empty() + e =~= e);
        assert(q.update(q.len() - 1, q.last() + e) =~= es);
        let whole = m3u_lines(es);
        assert(whole == (l0 + e) + seq!['\n']);
        assert(whole.drop_last() =~= l0 + e);
        assert(whole.last() == '\n');
    }
}

/// Text that starts with `'/'`, holds no line break and does not end in
/// whitespace: an absolute path as the playlist writes it.
pub open spec fn plain_absolute(e: Seq<char>) -> bool {
    &&& is_absolute(e)
    &&& !e.contains('\n')
    &&& !is_ws(e.last())
}

proof fn lemma_plain_trim(e: Seq<char>)
    requires
        plain_absolute(e),
    ensures
        trim(e) == e,
        strip_cr(e) == e,
{
    assert(!is_ws(e[0]));
    assert(crate::text::trim_start(e) == e);
    assert(crate::text::trim_end(e) == e);
}

proof fn lemma_entries_of_plain(es: Seq<Seq<char>>, dir: Seq<char>)
    requires
        forall|i: int| 0 <= i < es.len() ==> plain_absolute(#[trigger] es[i]),
    ensures
        m3u_entries(es, dir) == es,
    decreases es.len(),
{
    if es.len() > 0 {
        let d = es.drop_last();
        assert forall|i: int| 0 <= i < d.len() implies plain_absolute(#[trigger] d[i]) by {
            assert(d[i] == es[i]);
        }
        lemma_entries_of_plain(d, dir);
        assert(plain_absolute(es[es.len() - 1]));
        lemma_plain_trim(es.last());
        assert(es =~= d.push(es.last()));
    }
}

/// Writing a playlist and reading the text back (against any directory)
/// gives the same entries, when every entry is an absolute path with no
/// line break and no trailing whitespace.
pub proof fn lemma_m3u_round_trip(entries: Seq<Seq<char>>, dir: Seq<char>)
    requires
        forall|i: int| 0 <= i < entries.len() ==> plain_absolute(#[trigger] entries[i]),
    ensures
        m3u_entries(lines(m3u_text(entries)), dir) == entries,
{
    if entries.len() == 0 {
        let t = m3u_text(entries);
        assert(t =~= Seq::<char>::empty().push('\n'));
        assert(t.drop_last() =~= Seq::<char>::empty());
        assert(split_newlines(Seq::<char>::empty()) =~= seq![Seq::<char>::empty()]);
        let parts = split_newlines(t);
        assert(parts =~= seq![Seq::<char>::empty(), Seq::<char>::empty()]);
        let ls = lines(t);
        assert(ls =~= seq![Seq::<char>::empty()]);
        assert(ls.drop_last() =~= Seq::<Seq<char>>::empty());
        assert(trim(Seq::<char>::empty()) =~= Seq::<char>::empty());
        assert(ls.last() == Seq::<char>::empty());
        assert(m3u_entries(ls.drop_last(), dir) == Seq::<Seq<char>>::empty());
        assert(m3u_entries(ls, dir) == Seq::<Seq<char>>::empty());
        assert(entries =~= Seq::<Seq<char>>::empty());
    } else {
        assert(single_lines(entries)) by {
            assert forall|i: int| 0 <= i < entries.len() implies !(
            #[trigger] entries[i]).contains('\n') by {
                assert(plain_absolute(entries[i]));
            }
        }
        lemma_split_m3u_lines(entries);
        let parts = entries.push(Seq::<char>::empty());
        assert(parts.take(entries.len() as int) =~= entries);
        assert forall|i: int| 0 <= i < entries.len() implies strip_cr(#[trigger] entries[i])
            == entries[i] by {
            lemma_plain_trim(entries[i]);
        }
        assert(entries.map_values(|p: Seq<char>| strip_cr(p)) =~= entries);
        assert(lines(m3u_text(entries)) == entries);
        lemma_entries_of_plain(entries, dir);
    }
}

} // verus!

verus! {

// ---------------------------------------------------------------------------
// Ordering playlists by name
// ---------------------------------------------------------------------------

/// Playlists are ordered by their lower-cased names.
pub open spec fn name_le(a: Playlist, b: Playlist) -> bool {
    text_le(lowercase(a.name@), lowercase(b.name@))
}

/// The order [`sort_playlists`] sorts by.
pub open spec fn by_name() -> spec_fn(Playlist, Playlist) -> bool {
    |a: Playlist, b: Playlist| name_le(a, b)
}

/// Sorts playlists by lower-cased name, keeping playlists whose names fold
/// to the same text in the order given.
pub fn sort_playlists(playlists: Vec<Playlist>) -> (r: Vec<Playlist>)
    ensures
        r@ == sort_by(playlists@, by_name()),
{
    let ghost all = playlists@;
    let n = playlists.len();
    let mut src = playlists;
    let mut out: Vec<Playlist> = Vec::new();
    let mut keys: Vec<Vec<char>> = Vec::new();
    let mut k: usize = 0;
    assert(all.take(0) =~= Seq::<Playlist>::empty());
    assert(all.skip(0) =~= all);
    while src.len() > 0
        invariant
            k <= all.len() == n,
            src@ == all.skip(k as int),
            out@ == sort_by(all.take(k as int), by_name()),
            keys@.len() == out@.len(),
            forall|i: int| 0 <= i < out@.len() ==> (#[trigger] keys@[i])@ == lowercase(out@[i].name@),
        decreases src@.len(),
    {
        assert(k < all.len());
        let x = src.remove(0);
        assert(x == all[k as int]);
        let lower = to_lowercase(x.name.as_str());
        let kx = chars_of(lower.as_str());
        let ghost s = out@;
        let mut j: usize = out.len();
        while j > 0 && !chars_le(keys[j - 1].as_slice(), kx.as_slice())
            invariant
                j <= out@.len(),
                s == out@,
                keys@.len() == out@.len(),
                forall|i: int| 0 <= i < out@.len() ==> (#[trigger] keys@[i])@ == lowercase(out@[i].name@),
                kx@ == lowercase(x.name@),
                k < all.len(),
                x == all[k as int],
                forall|i: int| j <= i < s.len() ==> !(by_name())(#[trigger] s[i], x),
            decreases j,
        {
            j = j - 1;
        }
        proof {
            lemma_insert_by_at(s, x, by_name(), j as int);
        }
        let ghost keys_before = keys@;
        out.insert(j, x);
        keys.insert(j, kx);
        assert forall|i: int| 0 <= i < out@.len() implies (#[trigger] keys@[i])@ == lowercase(
            out@[i].name@,
        ) by {
            if i < j {
                assert(keys@[i] == keys_before[i]);
                assert(out@[i] == s[i]);
            } else if i > j {
                assert(keys@[i] == keys_before[i - 1]);
                assert(out@[i] == s[i - 1]);
            }
        }
        assert(all.take(k + 1).drop_last() =~= all.take(k as int));
        assert(all.take(k + 1).last() == x);
        assert(all.skip(k + 1) =~= all.skip(k as int).drop_first());
        k = k + 1;
    }
    assert(all.take(k as int) =~= all);
    out
}

/// Sorted playlists come in order of lower-cased name and are exactly the
/// playlists given.
pub proof fn lemma_sorted_playlists(playlists: Seq<Playlist>)
    ensures
        sorted_by(sort_by(playlists, by_name()), by_name()),
        sort_by(playlists, by_name()).to_multiset() == playlists.to_multiset(),
{
    assert(total_preorder(by_name())) by {
        assert forall|a: Playlist, b: Playlist| #[trigger] (by_name())(a, b) || (by_name())(b, a) by {
            lemma_text_le_total(lowercase(a.name@), lowercase(b.name@));
        }
        assert forall|a: Playlist, b: Playlist, c: Playlist|
            #[trigger] (by_name())(a, b) && #[trigger] (by_name())(b, c) implies (by_name())(
            a,
            c,
        ) by {
            lemma_text_le_trans(lowercase(a.name@), lowercase(b.name@), lowercase(c.name@));
        }
    }
    lemma_sort_by(playlists, by_name());
}

/// The file name of a new playlist: its name with each `/` made `_`,
/// ending in `.m3u8`.
pub open spec fn playlist_file_name(name: Seq<char>) -> Seq<char> {
    name.map_values(|c: char| if c == '/' {
        '_'
    } else {
        c
    }) + ".m3u8"@
}

/// Where a new playlist named `name` is saved: in the music directory.
pub fn new_playlist_path(music_dir: &str, name: &str) -> (r: String)
    ensures
        r@ == crate::paths::joined(music_dir@, playlist_file_name(name@)),
{
    let cs = chars_of(name);
    let mut f = String::new();
    let mut i: usize = 0;
    while i < cs.len()
        invariant
            i <= cs@.len(),
            cs@ == name@,
            f@ == cs@.take(i as int).map_values(|c: char| if c == '/' {
                '_'
            } else {
                c
            }),
        decreases cs@.len() - i,
    {
        let c = cs[i];
        push_char(&mut f, if c == '/' {
            '_'
        } else {
            c
        });
        assert(cs@.take(i + 1) =~= cs@.take(i as int).push(c));
        i = i + 1;
    }
    assert(cs@.take(cs@.len() as int) =~= cs@);
    push_str(&mut f, ".m3u8");
    crate::paths::join_path(music_dir, f.as_str())
}

} // verus!
