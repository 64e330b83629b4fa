//! Editing the playlist shown in the track list: removing the rows a
//! command applies to, and moving them up or down together; the cursor
//! and the selection follow the moved rows.

use vstd::prelude::*;
use crate::playlist::Playlist;
use crate::text::{decimal, push_decimal, push_str, str_eq};
use crate::view::ViewState;

verus! {

/// `s` without the rows `lo..=hi` that it has.
pub open spec fn rows_removed<A>(s: Seq<A>, lo: int, hi: int) -> Seq<A> {
    let a = if lo < s.len() {
        lo
    } else {
        s.len() as int
    };
    let b = if hi + 1 < s.len() {
        hi + 1
    } else {
        s.len() as int
    };
    s.take(a) + s.skip(b)
}

/// `s` with the rows `lo..=hi` (those it has) moved one place up together:
/// the row above them goes below them.  Nothing moves when the block
/// starts at the top or below the end.
pub open spec fn block_moved_up<A>(s: Seq<A>, lo: int, hi: int) -> Seq<A> {
    let h = if hi < s.len() {
        hi
    } else {
        s.len() - 1
    };
    if 0 < lo <= h {
        s.take(lo - 1) + s.subrange(lo, h + 1) + seq![s[lo - 1]] + s.skip(h + 1)
    } else {
        s
    }
}

/// `s` with the rows `lo..=hi` (those with a row after them) moved one
/// place down together: the row below them goes above them.
pub open spec fn block_moved_down<A>(s: Seq<A>, lo: int, hi: int) -> Seq<A> {
    let h = if hi + 1 < s.len() {
        hi
    } else {
        s.len() - 2
    };
    if 0 <= lo <= h {
        s.take(lo) + seq![s[h + 1]] + s.subrange(lo, h + 1) + s.skip(h + 2)
    } else {
        s
    }
}

impl Playlist {
    /// Removes the entries at rows `lo..=hi`, from the bottom up.
    pub fn remove_rows(&mut self, lo: usize, hi: usize)
        requires
            lo <= hi,
        ensures
            final(self).name == old(self).name,
            final(self).path == old(self).path,
            final(self).entries@ == rows_removed(old(self).entries@, lo as int, hi as int),
    {
        let ghost s = self.entries@;
        let mut k = hi;
        loop
            invariant_except_break
                lo <= k <= hi,
                self.name == old(self).name,
                self.path == old(self).path,
                s == old(self).entries@,
                self.entries@ == rows_removed(s, k as int + 1, hi as int),
            ensures
                self.name == old(self).name,
                self.path == old(self).path,
                self.entries@ == rows_removed(s, lo as int, hi as int),
            decreases k - lo,
        {
            let ghost before = self.entries@;
            self.remove_entry(k);
            proof {
                let l = s.len() as int;
                if k < l {
                    let b = if hi + 1 < l {
                        hi + 1
                    } else {
                        l
                    };
                    assert(before =~= s.take(k + 1) + s.skip(b));
                    assert(before.remove(k as int) =~= s.take(k as int) + s.skip(b));
                } else {
                    assert(rows_removed(s, k as int, hi as int) =~= rows_removed(
                        s,
                        k as int + 1,
                        hi as int,
                    ));
                }
                assert(self.entries@ =~= rows_removed(s, k as int, hi as int));
            }
            if k == lo {
                break;
            }
            k = k - 1;
        }
    }

    /// Moves the entries at rows `lo..=hi` one place up, top row first.
    pub fn move_rows_up(&mut self, lo: usize, hi: usize)
        requires
            lo <= hi,
        ensures
            final(self).name == old(self).name,
            final(self).path == old(self).path,
            final(self).entries@ == block_moved_up(old(self).entries@, lo as int, hi as int),
    {
        let ghost s = self.entries@;
        let l = self.entries.len();
        if lo == 0 || lo >= l {
            return;
        }
        let h = if hi < l {
            hi
        } else {
            l - 1
        };
        let mut k = lo;
        loop
            invariant_except_break
                0 < lo <= k <= hi,
                lo <= h < l,
                l == s.len(),
                h == (if hi < l {
                    hi
                } else {
                    (l - 1) as usize
                }),
                self.name == old(self).name,
                self.path == old(self).path,
                s == old(self).entries@,
                k <= h + 1 ==> self.entries@ == s.take(lo - 1) + s.subrange(lo as int, k as int)
                    + seq![s[lo - 1]] + s.skip(k as int),
                k > h + 1 ==> self.entries@ == block_moved_up(s, lo as int, hi as int),
            ensures
                self.name == old(self).name,
                self.path == old(self).path,
                self.entries@ == block_moved_up(s, lo as int, hi as int),
            decreases hi - k,
        {
            let ghost before = self.entries@;
            self.move_entry_up(k);
            proof {
                if k <= h {
                    let after = s.take(lo - 1) + s.subrange(lo as int, k + 1) + seq![s[lo - 1]]
                        + s.skip(k + 1);
                    assert(before[k - 1] == s[lo - 1]);
                    assert(before[k as int] == s[k as int]);
                    assert(self.entries@ =~= after);
                } else if k == h + 1 {
                    assert(self.entries@ == before);
                    assert(before =~= block_moved_up(s, lo as int, hi as int));
                } else {
                    assert(self.entries@ == before);
                }
            }
            if k == hi {
                proof {
                    if k <= h {
                        assert(k == h);
                        assert(self.entries@ =~= block_moved_up(s, lo as int, hi as int));
                    }
                }
                break;
            }
            k = k + 1;
        }
    }

    /// Moves the entries at rows `lo..=hi` one place down, bottom row
    /// first.
    pub fn move_rows_down(&mut self, lo: usize, hi: usize)
        requires
            lo <= hi,
        ensures
            final(self).name == old(self).name,
            final(self).path == old(self).path,
            final(self).entries@ == block_moved_down(old(self).entries@, lo as int, hi as int),
    {
        let ghost s = self.entries@;
        let l = self.entries.len();
        let mut k = hi;
        loop
            invariant_except_break
                lo <= k <= hi,
                l == s.len(),
                self.name == old(self).name,
                self.path == old(self).path,
                s == old(self).entries@,
                k + 2 >= l ==> self.entries@ == s,
                k + 2 < l ==> ({
                    let h = if hi + 1 < l {
                        hi as int
                    } else {
                        l - 2
                    };
                    self.entries@ == s.take(k + 1) + seq![s[h + 1]] + s.subrange(k + 1, h + 1)
                        + s.skip(h + 2)
                }),
            ensures
                self.name == old(self).name,
                self.path == old(self).path,
                self.entries@ == block_moved_down(s, lo as int, hi as int),
            decreases k - lo,
        {
            let ghost before = self.entries@;
            self.move_entry_down(k);
            proof {
                let h = if hi + 1 < l {
                    hi as int
                } else {
                    l - 2
                };
                if k + 1 < l {
                    assert(k <= h);
                    if k + 2 >= l {
                        assert(before == s);
                        assert(h == k);
                    }
                    assert(before[k as int] == s[k as int]);
                    assert(before[k + 1] == s[h + 1]);
                    assert(self.entries@ =~= s.take(k as int) + seq![s[h + 1]] + s.subrange(
                        k as int,
                        h + 1,
                    ) + s.skip(h + 2));
                } else {
                    assert(self.entries@ == before);
                }
            }
            if k == lo {
                proof {
                    let h = if hi + 1 < l {
                        hi as int
                    } else {
                        l - 2
                    };
                    if k + 1 < l {
                        assert(self.entries@ =~= block_moved_down(s, lo as int, hi as int));
                    } else {
                        assert(self.entries@ =~= block_moved_down(s, lo as int, hi as int));
                    }
                }
                break;
            }
            k = k - 1;
        }
    }
}

/// The first playlist named `name`.
pub open spec fn playlist_row(pls: Seq<Playlist>, name: Seq<char>) -> Option<int> {
    if exists|i: int| 0 <= i < pls.len() && pls[i].name@ == name {
        Some(
            choose|i: int|
                0 <= i < pls.len() && pls[i].name@ == name && forall|j: int|
                    0 <= j < i ==> pls[j].name@ != name,
        )
    } else {
        None
    }
}

/// `after` is `before` with the entries of the playlist at row `i` made
/// `es`.
pub open spec fn edited(before: Seq<Playlist>, after: Seq<Playlist>, i: int, es: Seq<String>) -> bool {
    &&& after.len() == before.len()
    &&& forall|j: int| 0 <= j < before.len() && j != i ==> after[j] == before[j]
    &&& after[i].name == before[i].name
    &&& after[i].path == before[i].path
    &&& after[i].entries@ == es
}

/// The rows a playlist edit applies to: the selected rows, else the row
/// under the cursor.
pub open spec fn edit_block(v: ViewState) -> (int, int) {
    match v.selection_anchor {
        Some(a) => if a <= v.track_list_index {
            (a as int, v.track_list_index as int)
        } else {
            (v.track_list_index as int, a as int)
        },
        None => (v.track_list_index as int, v.track_list_index as int),
    }
}

fn find_playlist_row(pls: &Vec<Playlist>, name: &str) -> (r: Option<usize>)
    ensures
        r matches Some(i) ==> i < pls@.len() && playlist_row(pls@, name@) == Some(i as int),
        r is None ==> playlist_row(pls@, name@) is None,
{
    let mut i: usize = 0;
    while i < pls.len()
        invariant
            i <= pls@.len(),
            forall|j: int| 0 <= j < i ==> pls@[j].name@ != name@,
        decreases pls@.len() - i,
    {
        if str_eq(pls[i].name.as_str(), name) {
            proof {
                let w = choose|k: int|
                    0 <= k < pls@.len() && pls@[k].name@ == name@ && forall|j: int|
                        0 <= j < k ==> pls@[j].name@ != name@;
                assert(0 <= i < pls@.len() && pls@[i as int].name@ == name@ && forall|j: int|
                    0 <= j < i ==> pls@[j].name@ != name@);
                assert(w == i) by {
                    if w < i {
                        assert(pls@[w].name@ != name@);
                    } else if w > i {
                        assert(pls@[i as int].name@ != name@);
                    }
                }
            }
            return Some(i);
        }
        i = i + 1;
    }
    None
}

/// Which edit of a playlist's rows.
#[derive(Debug, Clone, Copy, PartialEq, Eq, Structural)]
pub enum RowEdit {
    Remove,
    MoveUp,
    MoveDown,
}

/// The entries after an edit of rows `lo..=hi`.
pub open spec fn rows_edited(es: Seq<String>, edit: RowEdit, lo: int, hi: int) -> Seq<String> {
    match edit {
        RowEdit::Remove => rows_removed(es, lo, hi),
        RowEdit::MoveUp => block_moved_up(es, lo, hi),
        RowEdit::MoveDown => block_moved_down(es, lo, hi),
    }
}

/// Applies an edit of rows `lo..=hi` to the first playlist named `name`,
/// if there is one; returns whether there was.
fn edit_named(pls: &mut Vec<Playlist>, name: &str, edit: RowEdit, lo: usize, hi: usize) -> (found: bool)
    requires
        lo <= hi,
    ensures
        found == playlist_row(old(pls)@, name@) is Some,
        match playlist_row(old(pls)@, name@) {
            Some(i) => edited(
                old(pls)@,
                final(pls)@,
                i,
                rows_edited(old(pls)@[i].entries@, edit, lo as int, hi as int),
            ),
            None => final(pls)@ == old(pls)@,
        },
{
    match find_playlist_row(pls, name) {
        Some(i) => {
            let mut p = pls.remove(i);
            match edit {
                RowEdit::Remove => p.remove_rows(lo, hi),
                RowEdit::MoveUp => p.move_rows_up(lo, hi),
                RowEdit::MoveDown => p.move_rows_down(lo, hi),
            }
            pls.insert(i, p);
            true
        },
        None => false,
    }
}

impl ViewState {
    /// Removes the rows a playlist edit applies to (see `edit_block`) from
    /// the shown playlist `name`, and drops the selection.  Returns the
    /// status line when the playlist was found.
    pub fn remove_from_playlist(&mut self, pls: &mut Vec<Playlist>, name: &str) -> (status: Option<String>)
        requires
            edit_block(*old(self)).1 < usize::MAX,
        ensures
            *final(self) == (ViewState { selection_anchor: None, ..*old(self) }),
            match playlist_row(old(pls)@, name@) {
                Some(i) => {
                    let (lo, hi) = edit_block(*old(self));
                    &&& edited(old(pls)@, final(pls)@, i, rows_removed(old(pls)@[i].entries@, lo, hi))
                    &&& status matches Some(m) && m@ == if old(self).selection_anchor is None {
                        "Removed from playlist"@
                    } else {
                        "Removed "@ + decimal((hi - lo + 1) as nat) + " tracks from playlist"@
                    }
                },
                None => final(pls)@ == old(pls)@ && status is None,
            },
    {
        let i = self.track_list_index;
        let (lo, hi) = match self.selection_anchor {
            Some(a) => if a <= i {
                (a, i)
            } else {
                (i, a)
            },
            None => (i, i),
        };
        let found = edit_named(pls, name, RowEdit::Remove, lo, hi);
        let status = if !found {
            None
        } else if self.selection_anchor.is_none() {
            Some("Removed from playlist".to_string())
        } else {
            let mut m = String::new();
            push_str(&mut m, "Removed ");
            let count = hi - lo + 1;
            push_decimal(&mut m, count as u64);
            push_str(&mut m, " tracks from playlist");
            Some(m)
        };
        self.selection_anchor = None;
        status
    }
}

impl ViewState {
    /// Moves the rows a playlist edit applies to one place up in the shown
    /// playlist `name`; the cursor and the selection move with them.  A
    /// selection that starts at the top does not move.  Returns whether
    /// the playlist was found and edited.
    pub fn move_up_in_playlist(&mut self, pls: &mut Vec<Playlist>, name: &str) -> (edited_one: bool)
        ensures
            ({
                let (lo, hi) = edit_block(*old(self));
                let moves = old(self).selection_anchor is None || lo > 0;
                &&& edited_one == (moves && playlist_row(old(pls)@, name@) is Some)
                &&& match playlist_row(old(pls)@, name@) {
                    Some(i) => if moves {
                        edited(old(pls)@, final(pls)@, i, block_moved_up(old(pls)@[i].entries@, lo, hi))
                    } else {
                        final(pls)@ == old(pls)@
                    },
                    None => final(pls)@ == old(pls)@,
                }
                &&& *final(self) == if !moves {
                    *old(self)
                } else {
                    ViewState {
                        track_list_index: if old(self).track_list_index > 0 {
                            (old(self).track_list_index - 1) as usize
                        } else {
                            0
                        },
                        selection_anchor: match old(self).selection_anchor {
                            Some(a) => Some((a - 1) as usize),
                            None => None,
                        },
                        ..*old(self)
                    }
                }
            }),
    {
        let i = self.track_list_index;
        let (lo, hi) = match self.selection_anchor {
            Some(a) => if a <= i {
                (a, i)
            } else {
                (i, a)
            },
            None => (i, i),
        };
        let moves = self.selection_anchor.is_none() || lo > 0;
        if !moves {
            return false;
        }
        let found = edit_named(pls, name, RowEdit::MoveUp, lo, hi);
        if i > 0 {
            self.track_list_index = i - 1;
        }
        match self.selection_anchor {
            Some(a) => {
                self.selection_anchor = Some(a - 1);
            },
            None => {},
        }
        found
    }

    fn shift_down(&mut self, shown: usize)
        requires
            edit_block(*old(self)).1 < usize::MAX,
        ensures
            *final(self) == (ViewState {
                track_list_index: if old(self).track_list_index + 1 < shown {
                    (old(self).track_list_index + 1) as usize
                } else {
                    old(self).track_list_index
                },
                selection_anchor: match old(self).selection_anchor {
                    Some(a) => Some((a + 1) as usize),
                    None => None,
                },
                ..*old(self)
            }),
    {
        let i = self.track_list_index;
        let anchor = match self.selection_anchor {
            Some(a) => Some(a + 1),
            None => None,
        };
        let j = if i + 1 < shown {
            i + 1
        } else {
            i
        };
        self.track_list_index = j;
        self.selection_anchor = anchor;
    }

    /// Moves the rows a playlist edit applies to one place down in the
    /// shown playlist `name`, whose list shows `shown` rows; the cursor and
    /// the selection move with them.  A selection that reaches the last
    /// row does not move.  Returns whether the playlist was found and
    /// edited.
    pub fn move_down_in_playlist(&mut self, pls: &mut Vec<Playlist>, name: &str, shown: usize) -> (edited_one: bool)
        requires
            edit_block(*old(self)).1 < usize::MAX,
        ensures
            ({
                let (lo, hi) = edit_block(*old(self));
                let moves = old(self).selection_anchor is None || hi + 1 < shown;
                &&& edited_one == (moves && playlist_row(old(pls)@, name@) is Some)
                &&& match playlist_row(old(pls)@, name@) {
                    Some(i) => if moves {
                        edited(old(pls)@, final(pls)@, i, block_moved_down(old(pls)@[i].entries@, lo, hi))
                    } else {
                        final(pls)@ == old(pls)@
                    },
                    None => final(pls)@ == old(pls)@,
                }
                &&& *final(self) == if !moves {
                    *old(self)
                } else {
                    ViewState {
                        track_list_index: if old(self).track_list_index + 1 < shown {
                            (old(self).track_list_index + 1) as usize
                        } else {
                            old(self).track_list_index
                        },
                        selection_anchor: match old(self).selection_anchor {
                            Some(a) => Some((a + 1) as usize),
                            None => None,
                        },
                        ..*old(self)
                    }
                }
            }),
    {
        let i = self.track_list_index;
        let (lo, hi) = match self.selection_anchor {
            Some(a) => if a <= i {
                (a, i)
            } else {
                (i, a)
            },
            None => (i, i),
        };
        let moves = self.selection_anchor.is_none() || hi + 1 < shown;
        if !moves {
            return false;
        }
        let found = edit_named(pls, name, RowEdit::MoveDown, lo, hi);
        self.shift_down(shown);
        found
    }

    /// After rows were removed from the shown list, now `len` rows long: a
    /// cursor past the end moves up one row.
    pub fn step_back_past_end(&mut self, len: usize)
        ensures
            *final(self) == (ViewState {
                track_list_index: if old(self).track_list_index >= len && old(self).track_list_index > 0 {
                    (old(self).track_list_index - 1) as usize
                } else {
                    old(self).track_list_index
                },
                ..*old(self)
            }),
    {
        if self.track_list_index >= len && self.track_list_index > 0 {
            self.track_list_index = self.track_list_index - 1;
        }
    }

    /// Drops the selection.
    pub fn clear_selection(&mut self)
        ensures
            *final(self) == (ViewState { selection_anchor: None, ..*old(self) }),
    {
        self.selection_anchor = None;
    }
}

/// Moving a block of rows up and then the moved block down again gives
/// back the playlist.
pub proof fn lemma_block_up_down_inverse<A>(s: Seq<A>, lo: int, hi: int)
    requires
        0 < lo <= hi < s.len(),
    ensures
        block_moved_down(block_moved_up(s, lo, hi), lo - 1, hi - 1) == s,
{
    let u = block_moved_up(s, lo, hi);
    assert(u.len() == s.len());
    assert(u[hi] == s[lo - 1]);
    assert(block_moved_down(u, lo - 1, hi - 1) =~= s);
}

/// Removing rows leaves the other rows in order: those above the block,
/// then those below it.
pub proof fn lemma_rows_removed_len<A>(s: Seq<A>, lo: int, hi: int)
    requires
        0 <= lo <= hi < s.len(),
    ensures
        rows_removed(s, lo, hi).len() == s.len() - (hi - lo + 1),
        forall|j: int| 0 <= j < lo ==> rows_removed(s, lo, hi)[j] == s[j],
        forall|j: int| lo <= j < s.len() - (hi - lo + 1) ==> rows_removed(s, lo, hi)[j] == s[j + (hi - lo + 1)],
{
}

} // verus!
