//! Editing a track's tags in the info popup: the edit buffers of the
//! fields, the core fields the library keeps, and what saving them changes.

use std::sync::Arc;
use vstd::prelude::*;
use crate::indexer::{parse_year, year_value};
use crate::lyrics::{compilation_flag, normalize_compilation};
use crate::overlay::{pop_char, without_last};
use crate::text::{chars_of, push_char, push_str, string_of, str_eq, trim, trim_chars};
use crate::types::{EditField, PlayerState, Track};

verus! {

broadcast use vstd::string::group_string_axioms;

/// The text of field `f` among `entries`: that of its first entry.
pub open spec fn value_in(entries: Seq<(EditField, String)>, f: EditField) -> Option<Seq<char>>
    decreases entries.len(),
{
    if entries.len() == 0 {
        None
    } else if entries[0].0 == f {
        Some(entries[0].1@)
    } else {
        value_in(entries.drop_first(), f)
    }
}

/// The edit buffers of the info popup, one text per field.
#[derive(Debug, Clone)]
pub struct FieldValues {
    pub entries: Vec<(EditField, String)>,
}

impl FieldValues {
    /// The text of field `f`, if it has one.
    pub open spec fn value(&self, f: EditField) -> Option<Seq<char>> {
        value_in(self.entries@, f)
    }

    pub fn new() -> (r: FieldValues)
        ensures
            forall|f: EditField| r.value(f) is None,
    {
        FieldValues { entries: Vec::new() }
    }

    fn find(&self, f: EditField) -> (r: Option<usize>)
        ensures
            match r {
                Some(i) => i < self.entries@.len() && self.entries@[i as int].0 == f && self.value(f)
                    == Some(self.entries@[i as int].1@) && forall|j: int|
                    0 <= j < i ==> self.entries@[j].0 != f,
                None => self.value(f) is None && forall|j: int|
                    0 <= j < self.entries@.len() ==> self.entries@[j].0 != f,
            },
    {
        let mut i: usize = 0;
        assert(self.entries@.skip(0) =~= self.entries@);
        while i < self.entries.len()
            invariant
                i <= self.entries@.len(),
                value_in(self.entries@, f) == value_in(self.entries@.skip(i as int), f),
                forall|j: int| 0 <= j < i ==> self.entries@[j].0 != f,
            decreases self.entries@.len() - i,
        {
            assert(self.entries@.skip(i as int)[0] == self.entries@[i as int]);
            assert(self.entries@.skip(i as int).drop_first() =~= self.entries@.skip(i + 1));
            if self.entries[i].0 == f {
                return Some(i);
            }
            i = i + 1;
        }
        None
    }

    /// The text of field `f`, empty when it has none.
    pub fn text(&self, f: EditField) -> (r: String)
        ensures
            r@ == match self.value(f) {
                Some(v) => v,
                None => Seq::empty(),
            },
    {
        match self.find(f) {
            Some(i) => self.entries[i].1.clone(),
            None => String::new(),
        }
    }

    /// Sets the text of field `f`.
    pub fn set(&mut self, f: EditField, v: String)
        ensures
            final(self).value(f) == Some(v@),
            forall|g: EditField| g != f ==> final(self).value(g) == old(self).value(g),
    {
        let ghost s = self.entries@;
        let ghost vv = v@;
        match self.find(f) {
            Some(i) => {
                self.entries.set(i, (f, v));
                proof {
                    lemma_value_after_update(s, i as int, f, vv, self.entries@);
                }
            },
            None => {
                self.entries.push((f, v));
                proof {
                    lemma_value_after_push(s, f, vv, self.entries@);
                }
            },
        }
    }

    /// Types a character into field `f` (an empty field gets one).
    pub fn push(&mut self, f: EditField, c: char)
        ensures
            final(self).value(f) == Some(
                match old(self).value(f) {
                    Some(v) => v,
                    None => Seq::empty(),
                }.push(c),
            ),
            forall|g: EditField| g != f ==> final(self).value(g) == old(self).value(g),
    {
        let mut t = self.text(f);
        push_char(&mut t, c);
        self.set(f, t);
    }

    /// Deletes the last character of field `f` (a field without text gets
    /// an empty one).
    pub fn pop(&mut self, f: EditField)
        ensures
            final(self).value(f) == Some(
                match old(self).value(f) {
                    Some(v) => without_last(v),
                    None => Seq::empty(),
                },
            ),
            forall|g: EditField| g != f ==> final(self).value(g) == old(self).value(g),
    {
        let mut t = self.text(f);
        pop_char(&mut t);
        self.set(f, t);
    }

    /// Puts the track's own values into the core fields: the library's
    /// values win over those read from the file's tag.
    pub fn overlay_track(&mut self, t: &Track)
        ensures
            final(self).value(EditField::Title) == Some(t.title@),
            final(self).value(EditField::Artist) == Some(t.artist@),
            final(self).value(EditField::Album) == Some(t.album@),
            final(self).value(EditField::AlbumArtist) == Some(t.albumartist@),
            final(self).value(EditField::Year) == Some(
                if t.year > 0 {
                    crate::text::signed_decimal(t.year as int)
                } else {
                    Seq::empty()
                },
            ),
            final(self).value(EditField::Genre) == Some(t.genre@),
            forall|g: EditField|
                !(g == EditField::Title || g == EditField::Artist || g == EditField::Album || g
                    == EditField::AlbumArtist || g == EditField::Year || g == EditField::Genre)
                    ==> final(self).value(g) == old(self).value(g),
    {
        self.set(EditField::Title, t.title.clone());
        self.set(EditField::Artist, t.artist.clone());
        self.set(EditField::Album, t.album.clone());
        self.set(EditField::AlbumArtist, t.albumartist.clone());
        let year = if t.year > 0 {
            crate::text::int_to_string(t.year as i64)
        } else {
            String::new()
        };
        self.set(EditField::Year, year);
        self.set(EditField::Genre, t.genre.clone());
    }
}

proof fn lemma_value_after_update(
    s: Seq<(EditField, String)>,
    i: int,
    f: EditField,
    v: Seq<char>,
    t: Seq<(EditField, String)>,
)
    requires
        0 <= i < s.len(),
        s[i].0 == f,
        forall|j: int| 0 <= j < i ==> s[j].0 != f,
        t.len() == s.len(),
        t[i].0 == f && t[i].1@ == v,
        forall|j: int| 0 <= j < s.len() && j != i ==> t[j] == s[j],
    ensures
        value_in(t, f) == Some(v),
        forall|g: EditField| g != f ==> value_in(t, g) == value_in(s, g),
    decreases i,
{
    if i > 0 {
        lemma_value_after_update(s.drop_first(), i - 1, f, v, t.drop_first());
        assert(t[0] == s[0]);
    }
    assert forall|g: EditField| g != f implies value_in(t, g) == value_in(s, g) by {
        lemma_value_same_except(s, t, i, g);
    }
}

proof fn lemma_value_same_except(s: Seq<(EditField, String)>, t: Seq<(EditField, String)>, i: int, g: EditField)
    requires
        0 <= i < s.len(),
        t.len() == s.len(),
        t[i].0 == s[i].0,
        s[i].0 != g,
        forall|j: int| 0 <= j < s.len() && j != i ==> t[j] == s[j],
    ensures
        value_in(t, g) == value_in(s, g),
    decreases s.len(),
{
    if s.len() > 0 {
        if i == 0 {
            assert(t.drop_first() =~= s.drop_first());
        } else {
            assert(t[0] == s[0]);
            lemma_value_same_except(s.drop_first(), t.drop_first(), i - 1, g);
        }
    }
}

proof fn lemma_value_after_push(s: Seq<(EditField, String)>, f: EditField, v: Seq<char>, t: Seq<(EditField, String)>)
    requires
        forall|j: int| 0 <= j < s.len() ==> s[j].0 != f,
        t.len() == s.len() + 1,
        t[s.len() as int].0 == f && t[s.len() as int].1@ == v,
        forall|j: int| 0 <= j < s.len() ==> t[j] == s[j],
    ensures
        value_in(t, f) == Some(v),
        forall|g: EditField| g != f ==> value_in(t, g) == value_in(s, g),
    decreases s.len(),
{
    if s.len() > 0 {
        assert(t[0] == s[0]);
        lemma_value_after_push(s.drop_first(), f, v, t.drop_first());
        assert forall|g: EditField| g != f implies value_in(t, g) == value_in(s, g) by {
            if s[0].0 != g {
                assert(value_in(t.drop_first(), g) == value_in(s.drop_first(), g));
            }
        }
    } else {
        assert(t.drop_first().len() == 0);
        assert forall|g: EditField| g != f implies value_in(t, g) == value_in(s, g) by {
            assert(value_in(t.drop_first(), g) is None);
        }
    }
}

/// The core fields the library keeps of a track.
#[derive(Debug, Clone)]
pub struct CoreFields {
    pub title: String,
    pub artist: String,
    pub album: String,
    pub albumartist: String,
    pub year: i32,
    pub genre: String,
}

/// A field's text, empty when it has none.
pub open spec fn text_or_empty(v: Option<Seq<char>>) -> Seq<char> {
    match v {
        Some(s) => s,
        None => Seq::empty(),
    }
}

/// The core fields of the edit buffers: the texts of the core fields, and
/// the year read from its trimmed text (0 when it is not a number).
pub fn core_fields(values: &FieldValues) -> (r: CoreFields)
    ensures
        r.title@ == text_or_empty(values.value(EditField::Title)),
        r.artist@ == text_or_empty(values.value(EditField::Artist)),
        r.album@ == text_or_empty(values.value(EditField::Album)),
        r.albumartist@ == text_or_empty(values.value(EditField::AlbumArtist)),
        r.year == year_value(trim(text_or_empty(values.value(EditField::Year)))),
        r.genre@ == text_or_empty(values.value(EditField::Genre)),
{
    let y = values.text(EditField::Year);
    let t = trim_chars(chars_of(y.as_str()).as_slice());
    let ts = string_of(&t);
    CoreFields {
        title: values.text(EditField::Title),
        artist: values.text(EditField::Artist),
        album: values.text(EditField::Album),
        albumartist: values.text(EditField::AlbumArtist),
        year: parse_year(ts.as_str()),
        genre: values.text(EditField::Genre),
    }
}

/// A track with the saved core fields.
pub open spec fn with_core(t: Track, c: CoreFields) -> Track {
    Track {
        title: c.title,
        artist: c.artist,
        album: c.album,
        albumartist: c.albumartist,
        year: c.year,
        genre: c.genre,
        ..t
    }
}

fn track_with_core(t: &Track, c: &CoreFields) -> (r: Track)
    ensures
        r == with_core(*t, *c),
{
    Track {
        path: t.path.clone(),
        artist: c.artist.clone(),
        album: c.album.clone(),
        albumartist: c.albumartist.clone(),
        title: c.title.clone(),
        duration: t.duration,
        year: c.year,
        genre: c.genre.clone(),
        added_at: t.added_at,
        favorite: t.favorite,
        play_count: t.play_count,
        last_played: t.last_played,
    }
}

/// Puts the saved core fields into every track of `tracks` with path
/// `path`.
pub fn apply_core(tracks: &mut Vec<Arc<Track>>, path: &str, c: &CoreFields)
    ensures
        final(tracks)@.len() == old(tracks)@.len(),
        forall|i: int|
            0 <= i < old(tracks)@.len() ==> *final(tracks)@[i] == if old(tracks)@[i].path@ == path@ {
                with_core(*old(tracks)@[i], *c)
            } else {
                *old(tracks)@[i]
            },
{
    let ghost ts = tracks@;
    let n = tracks.len();
    let mut i: usize = 0;
    while i < n
        invariant
            n == ts.len() == tracks@.len(),
            i <= n,
            forall|j: int|
                0 <= j < i ==> *tracks@[j] == if ts[j].path@ == path@ {
                    with_core(*ts[j], *c)
                } else {
                    *ts[j]
                },
            forall|j: int| i <= j < n ==> tracks@[j] == ts[j],
        decreases n - i,
    {
        if str_eq(tracks[i].path.as_str(), path) {
            let t = track_with_core(&*tracks[i], c);
            tracks.set(i, Arc::new(t));
        }
        i = i + 1;
    }
}

/// Whether saving the tags of `path` must be refused because that file is
/// being played (rewriting it spoils its decoding).
pub fn editing_playing_track(path: &str, current: Option<&str>, state: PlayerState) -> (b: bool)
    ensures
        b == (state != PlayerState::Stopped && (current matches Some(c) && c@ == path@)),
{
    match current {
        Some(c) => state != PlayerState::Stopped && str_eq(c, path),
        None => false,
    }
}

/// The status line after saving: which of the tag and the database were
/// written.
pub open spec fn saved_text(wrote_tag: bool, wrote_db: bool, title: Seq<char>, path: Seq<char>) -> Seq<char> {
    if wrote_tag && wrote_db {
        "Saved metadata for "@ + if title.len() == 0 {
            path
        } else {
            title
        }
    } else if !wrote_tag {
        "Failed to write tag to file."@
    } else {
        "Wrote tag but failed to update database."@
    }
}

pub fn saved_status(wrote_tag: bool, wrote_db: bool, title: &str, path: &str) -> (r: String)
    ensures
        r@ == saved_text(wrote_tag, wrote_db, title@, path@),
{
    if wrote_tag && wrote_db {
        let mut r = String::new();
        push_str(&mut r, "Saved metadata for ");
        push_str(&mut r, if title.is_empty() {
            path
        } else {
            title
        });
        r
    } else if !wrote_tag {
        "Failed to write tag to file.".to_string()
    } else {
        "Wrote tag but failed to update database.".to_string()
    }
}

/// Typing a character into a field and deleting it again leaves the
/// field's text as it was (an empty text for a field that had none).
pub proof fn lemma_field_type_then_delete(
    before: FieldValues,
    typed: FieldValues,
    deleted: FieldValues,
    f: EditField,
    ch: char,
)
    requires
        typed.value(f) == Some(text_or_empty(before.value(f)).push(ch)),
        deleted.value(f) == Some(without_last(text_or_empty(typed.value(f)))),
    ensures
        deleted.value(f) == Some(text_or_empty(before.value(f))),
{
    crate::overlay::lemma_type_then_backspace(text_or_empty(before.value(f)), ch);
}

/// What saving a field's value does to its tag: `Some(text)` sets it,
/// `None` removes it.  The value is taken trimmed; an empty value clears
/// the tag, and the Compilation flag is stored in its canonical form.
pub open spec fn tag_edit_of(f: EditField, v: Seq<char>) -> Option<Seq<char>> {
    if f == EditField::Compilation {
        compilation_flag(v)
    } else if v.len() == 0 {
        None
    } else {
        Some(v)
    }
}

pub open spec fn opt_view(o: Option<String>) -> Option<Seq<char>> {
    match o {
        Some(s) => Some(s@),
        None => None,
    }
}

/// The tag edits for the given field values, one per value, in order; only
/// the fields given are touched.
pub fn tag_edits(values: &Vec<(EditField, String)>) -> (r: Vec<(EditField, Option<String>)>)
    ensures
        r@.len() == values@.len(),
        forall|i: int|
            0 <= i < r@.len() ==> r@[i].0 == values@[i].0 && opt_view(#[trigger] r@[i].1)
                == tag_edit_of(values@[i].0, trim(values@[i].1@)),
{
    let mut r: Vec<(EditField, Option<String>)> = Vec::new();
    let mut i: usize = 0;
    while i < values.len()
        invariant
            i <= values@.len(),
            r@.len() == i,
            forall|j: int|
                0 <= j < i ==> r@[j].0 == values@[j].0 && opt_view(#[trigger] r@[j].1)
                    == tag_edit_of(values@[j].0, trim(values@[j].1@)),
        decreases values@.len() - i,
    {
        let f = values[i].0;
        let t = string_of(&trim_chars(&chars_of(values[i].1.as_str())));
        let edit: Option<String> = if f == EditField::Compilation {
            match normalize_compilation(t.as_str()) {
                Some(v) => Some(v.to_owned()),
                None => None,
            }
        } else if t.as_str().is_empty() {
            None
        } else {
            Some(t)
        };
        r.push((f, edit));
        i = i + 1;
    }
    r
}

} // verus!
