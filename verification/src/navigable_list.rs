//! A list with a cursor, a viewport offset and an anchored range selection,
//! shared by the sidebar, the track list and the search panels.

use std::collections::HashSet;
use vstd::prelude::*;
use crate::keys::KeyCode;
use vstd::std_specs::iter::IteratorSpec;

verus! {

broadcast use vstd::std_specs::hash::group_hash_axioms;

// ---------------------------------------------------------------------------
// Sorted index lists
// ---------------------------------------------------------------------------

/// Strictly increasing.
pub open spec fn ascending(s: Seq<usize>) -> bool {
    forall|i: int, j: int| 0 <= i < j < s.len() ==> #[trigger] s[i] < #[trigger] s[j]
}

/// Strictly decreasing.
pub open spec fn descending(s: Seq<usize>) -> bool {
    forall|i: int, j: int| 0 <= i < j < s.len() ==> #[trigger] s[i] > #[trigger] s[j]
}

/// Inserts `x` into an ascending vector that does not hold it.
fn insert_ascending(v: &mut Vec<usize>, x: usize)
    requires
        ascending(old(v)@),
        !old(v)@.contains(x),
    ensures
        ascending(final(v)@),
        final(v)@.to_set() == old(v)@.to_set().insert(x),
        final(v)@.len() == old(v)@.len() + 1,
{
    let mut j: usize = v.len();
    while j > 0 && v[j - 1] > x
        invariant
            j <= v@.len(),
            forall|i: int| j <= i < v@.len() ==> #[trigger] v@[i] > x,
        decreases j,
    {
        j = j - 1;
    }
    proof {
        if j > 0 {
            assert(v@[j - 1] != x);
        }
    }
    let ghost old_v = v@;
    v.insert(j, x);
    assert(v@ =~= old_v.insert(j as int, x));
    assert forall|a: int, b: int| 0 <= a < b < v@.len() implies #[trigger] v@[a] < #[trigger] v@[b] by {
        if b < j {
        } else if b == j {
            assert(v@[a] == old_v[a]);
            if a < j - 1 {
                assert(old_v[a] < old_v[j - 1]);
            }
        } else if a < j {
            assert(v@[b] == old_v[b - 1]);
            assert(v@[a] == old_v[a]);
            assert(old_v[b - 1] > x);
            if a < j - 1 {
                assert(old_v[a] < old_v[j - 1]);
            }
            assert(old_v[a] <= old_v[j - 1] && old_v[j - 1] <= x);
        } else if a == j {
            assert(v@[b] == old_v[b - 1]);
        } else {
            assert(v@[a] == old_v[a - 1] && v@[b] == old_v[b - 1]);
        }
    }
    assert(v@.to_set() =~= old_v.to_set().insert(x)) by {
        assert forall|y: usize| v@.to_set().contains(y) <==> old_v.to_set().insert(x).contains(y) by {
            if v@.contains(y) {
                let k = choose|k: int| 0 <= k < v@.len() && v@[k] == y;
                if k < j {
                    assert(old_v[k] == y);
                } else if k > j {
                    assert(old_v[k - 1] == y);
                }
            }
            if old_v.contains(y) {
                let k = choose|k: int| 0 <= k < old_v.len() && old_v[k] == y;
                if k < j {
                    assert(v@[k] == y);
                } else {
                    assert(v@[k + 1] == y);
                }
            }
            if y == x {
                assert(v@[j as int] == x);
            }
        }
    }
}

/// The members of a set of indices in increasing order.
pub fn set_ascending(s: &HashSet<usize>) -> (r: Vec<usize>)
    ensures
        ascending(r@),
        r@.to_set() == s@,
        r@.len() == s@.len(),
{
    let mut r: Vec<usize> = Vec::new();
    let it0 = s.iter();
    let ghost keys = it0.remaining();
    assert(keys.unref().to_set() == s@);
    assert(keys.no_duplicates());
    assert(keys.len() == s@.len());
    for x in it: it0
        invariant
            keys == it.seq(),
            keys.no_duplicates(),
            ascending(r@),
            r@.len() == it.index(),
            r@.to_set() == keys.take(it.index() as int).unref().to_set(),
    {
        let ghost i = it.index() as int;
        assert(*x == keys[i]);
        assert(!r@.contains(*x)) by {
            if r@.contains(*x) {
                assert(r@.to_set().contains(*x));
                assert(keys.take(i).unref().contains(*x));
                let k = choose|k: int| 0 <= k < keys.take(i).unref().len() && keys.take(i).unref()[k] == *x;
                assert(keys[k] == keys[i]);
            }
        }
        insert_ascending(&mut r, *x);
        assert(keys.take(i + 1).unref() =~= keys.take(i).unref().push(*x));
        proof {
            keys.take(i).unref().lemma_push_to_set_commute(*x);
        }
    }
    assert(keys.take(keys.len() as int) =~= keys);
    r
}

} // verus!

verus! {

// ---------------------------------------------------------------------------
// Cursor movement
// ---------------------------------------------------------------------------

/// One row up, wrapping from the first row to the last.
pub open spec fn up_index(i: usize, len: usize) -> usize {
    if len > 0 {
        if i == 0 {
            (len - 1) as usize
        } else {
            (i - 1) as usize
        }
    } else {
        i
    }
}

/// One row down, wrapping from the last row to the first.
pub open spec fn down_index(i: usize, len: usize) -> usize {
    if len > 0 {
        if i + 1 >= len {
            0
        } else {
            (i + 1) as usize
        }
    } else {
        i
    }
}

/// Ten rows up, stopping at the first.
pub open spec fn page_up_index(i: usize) -> usize {
    if i >= 10 {
        (i - 10) as usize
    } else {
        0
    }
}

/// The last row (0 for an empty list).
pub open spec fn last_index(len: usize) -> usize {
    if len > 0 {
        (len - 1) as usize
    } else {
        0
    }
}

/// Ten rows down, stopping at the last.
pub open spec fn page_down_index(i: usize, len: usize) -> usize {
    if i + 10 <= last_index(len) {
        (i + 10) as usize
    } else {
        last_index(len)
    }
}

/// Whether `key` pages down (then the cursor must leave room for +10).
pub open spec fn pages_down(key: KeyCode, vim: bool) -> bool {
    key is PageDown || (vim && key == KeyCode::Char('d'))
}

/// The cursor after `key`, or `None` when the key is not a navigation key.
/// Arrow-style keys always navigate; the vim keys j/k/u/d/g/G only when
/// `vim` is set.
pub open spec fn nav_index(key: KeyCode, vim: bool, i: usize, len: usize) -> Option<usize> {
    match key {
        KeyCode::Up => Some(up_index(i, len)),
        KeyCode::Down => Some(down_index(i, len)),
        KeyCode::PageUp => Some(page_up_index(i)),
        KeyCode::PageDown => Some(page_down_index(i, len)),
        KeyCode::Home => Some(0),
        KeyCode::End => Some(last_index(len)),
        KeyCode::Char(c) => if !vim {
            None
        } else if c == 'k' {
            Some(up_index(i, len))
        } else if c == 'j' {
            Some(down_index(i, len))
        } else if c == 'u' {
            Some(page_up_index(i))
        } else if c == 'd' {
            Some(page_down_index(i, len))
        } else if c == 'g' {
            Some(0)
        } else if c == 'G' {
            Some(last_index(len))
        } else {
            None
        },
        _ => None,
    }
}

fn nav_index_exec(key: KeyCode, vim: bool, i: usize, len: usize) -> (r: Option<usize>)
    requires
        pages_down(key, vim) ==> i + 10 <= usize::MAX,
    ensures
        r == nav_index(key, vim, i, len),
{
    let up = if len > 0 {
        if i == 0 {
            len - 1
        } else {
            i - 1
        }
    } else {
        i
    };
    let down = if len > 0 {
        if i >= len - 1 {
            0
        } else {
            i + 1
        }
    } else {
        i
    };
    let last = if len > 0 {
        len - 1
    } else {
        0
    };
    let page_up = if i >= 10 {
        i - 10
    } else {
        0
    };
    match key {
        KeyCode::Up => Some(up),
        KeyCode::Down => Some(down),
        KeyCode::PageUp => Some(page_up),
        KeyCode::PageDown => Some(if i + 10 <= last {
            i + 10
        } else {
            last
        }),
        KeyCode::Home => Some(0),
        KeyCode::End => Some(last),
        KeyCode::Char(c) => {
            if !vim {
                None
            } else if c == 'k' {
                Some(up)
            } else if c == 'j' {
                Some(down)
            } else if c == 'u' {
                Some(page_up)
            } else if c == 'd' {
                Some(if i + 10 <= last {
                    i + 10
                } else {
                    last
                })
            } else if c == 'g' {
                Some(0)
            } else if c == 'G' {
                Some(last)
            } else {
                None
            }
        },
        _ => None,
    }
}

/// Wrapping navigation for an index not owned by a list (the queue):
/// arrows and vim keys both move it.  Returns whether the key was used.
pub fn navigate_index(key: KeyCode, index: &mut usize, len: usize) -> (consumed: bool)
    requires
        pages_down(key, true) ==> *old(index) + 10 <= usize::MAX,
    ensures
        consumed == nav_index(key, true, *old(index), len) is Some,
        *final(index) == match nav_index(key, true, *old(index), len) {
            Some(j) => j,
            None => *old(index),
        },
{
    match nav_index_exec(key, true, *index, len) {
        Some(j) => {
            *index = j;
            true
        },
        None => false,
    }
}

/// Wrapping navigation keeps a cursor on the list: from a row of a
/// non-empty list every navigation key lands on a row.
pub proof fn lemma_navigation_stays_on_list(key: KeyCode, vim: bool, i: usize, len: usize)
    requires
        i < len,
    ensures
        nav_index(key, vim, i, len) matches Some(j) ==> j < len,
{
}

/// Moving up then down (or down then up) returns to the same row.
pub proof fn lemma_up_down_inverse(i: usize, len: usize)
    requires
        i < len,
    ensures
        down_index(up_index(i, len), len) == i,
        up_index(down_index(i, len), len) == i,
{
}

// ---------------------------------------------------------------------------
// Range selection
// ---------------------------------------------------------------------------

/// The rows from `a` to `b`, whichever is smaller first.
pub open spec fn span(a: usize, b: usize) -> Set<usize> {
    Set::new(|i: usize| (a <= i <= b) || (b <= i <= a))
}

/// The cursor after extending the selection by `step` rows.
pub open spec fn extended_index(i: usize, len: usize, up: bool, step: usize) -> usize {
    if up {
        if i >= step {
            (i - step) as usize
        } else {
            0
        }
    } else if i + step <= len - 1 {
        (i + step) as usize
    } else {
        (len - 1) as usize
    }
}

/// Anchor-based range selection: the first extension anchors at the cursor;
/// the cursor then moves `step` rows (clamped to the list) and the
/// selection becomes every row between anchor and cursor.  Nothing changes
/// for an empty list or a zero step.
pub fn extend_range_selection(
    index: &mut usize,
    len: usize,
    up: bool,
    step: usize,
    selected: &mut HashSet<usize>,
    anchor: &mut Option<usize>,
)
    requires
        !up ==> *old(index) + step <= usize::MAX,
    ensures
        len == 0 || step == 0 ==> *final(index) == *old(index) && final(selected)@ == old(
            selected,
        )@ && *final(anchor) == *old(anchor),
        len > 0 && step > 0 ==> {
            let a = match *old(anchor) {
                Some(a) => a,
                None => *old(index),
            };
            &&& *final(anchor) == Some(a)
            &&& *final(index) == extended_index(*old(index), len, up, step)
            &&& final(selected)@ == span(a, *final(index))
        },
{
    if len == 0 || step == 0 {
        return;
    }
    if anchor.is_none() {
        *anchor = Some(*index);
        selected.insert(*index);
    }
    if up {
        *index = if *index >= step {
            *index - step
        } else {
            0
        };
    } else {
        *index = if *index + step <= len - 1 {
            *index + step
        } else {
            len - 1
        };
    }
    let a = match *anchor {
        Some(a) => a,
        None => *index,
    };
    selected.clear();
    let start = if a <= *index {
        a
    } else {
        *index
    };
    let end = if a <= *index {
        *index
    } else {
        a
    };
    let mut i = start;
    loop
        invariant_except_break
            start <= i <= end,
            selected@ == Set::new(|k: usize| start <= k < i),
        ensures
            selected@ == Set::new(|k: usize| start <= k <= end),
        decreases end - i,
    {
        selected.insert(i);
        if i == end {
            break;
        }
        i = i + 1;
    }
    assert(selected@ =~= span(a, *index));
}

// ---------------------------------------------------------------------------
// NavigableList
// ---------------------------------------------------------------------------

/// A list with a cursor `index`, a viewport `offset`, and a selection of
/// rows anchored at `anchor`.
pub struct NavigableList<T> {
    pub items: Vec<T>,
    pub index: usize,
    pub offset: usize,
    pub selected: HashSet<usize>,
    pub anchor: Option<usize>,
}

impl<T> NavigableList<T> {
    /// The cursor is on a row, or the list is empty.
    pub open spec fn cursor_ok(&self) -> bool {
        self.items@.len() == 0 || self.index < self.items@.len()
    }

    pub fn new(items: Vec<T>) -> (r: Self)
        ensures
            r.items@ == items@,
            r.index == 0,
            r.offset == 0,
            r.selected@ == Set::<usize>::empty(),
            r.anchor is None,
    {
        NavigableList { items, index: 0, offset: 0, selected: HashSet::new(), anchor: None }
    }

    pub fn len(&self) -> (n: usize)
        ensures
            n == self.items@.len(),
    {
        self.items.len()
    }

    pub fn is_empty(&self) -> (b: bool)
        ensures
            b == (self.items@.len() == 0),
    {
        self.items.len() == 0
    }

    /// The row under the cursor.
    pub fn current(&self) -> (r: Option<&T>)
        ensures
            self.index < self.items@.len() ==> r == Some(&self.items@[self.index as int]),
            self.index >= self.items@.len() ==> r is None,
    {
        if self.index < self.items.len() {
            Some(&self.items[self.index])
        } else {
            None
        }
    }

    /// Moves the cursor onto the last row when it is past the end; offset
    /// and selection stay.
    pub fn clamp_index(&mut self)
        ensures
            final(self).items@ == old(self).items@,
            final(self).offset == old(self).offset,
            final(self).selected@ == old(self).selected@,
            final(self).anchor == old(self).anchor,
            final(self).index == if old(self).items@.len() > 0 && old(self).index
                >= old(self).items@.len() {
                (old(self).items@.len() - 1) as usize
            } else {
                old(self).index
            },
    {
        if self.items.len() > 0 && self.index >= self.items.len() {
            self.index = self.items.len() - 1;
        }
    }

    /// Replaces the rows, keeping the cursor where it is (clamped).
    pub fn replace_items(&mut self, items: Vec<T>)
        ensures
            final(self).items@ == items@,
            final(self).offset == old(self).offset,
            final(self).selected@ == old(self).selected@,
            final(self).anchor == old(self).anchor,
            final(self).index == if items@.len() > 0 && old(self).index >= items@.len() {
                (items@.len() - 1) as usize
            } else {
                old(self).index
            },
    {
        self.items = items;
        self.clamp_index();
    }

    /// Replaces the rows and resets cursor, viewport and selection.
    pub fn set_items(&mut self, items: Vec<T>)
        ensures
            final(self).items@ == items@,
            final(self).index == 0,
            final(self).offset == 0,
            final(self).selected@ == Set::<usize>::empty(),
            final(self).anchor is None,
    {
        self.items = items;
        self.index = 0;
        self.offset = 0;
        self.selected.clear();
        self.anchor = None;
    }

    /// Wrapping navigation with arrow keys and the vim keys j/k/u/d/g/G.
    /// Returns whether the key was used.
    pub fn navigate(&mut self, key: KeyCode) -> (consumed: bool)
        requires
            pages_down(key, true) ==> old(self).index + 10 <= usize::MAX,
        ensures
            consumed == nav_index(key, true, old(self).index, old(self).items@.len() as usize) is Some,
            final(self).index == match nav_index(
                key,
                true,
                old(self).index,
                old(self).items@.len() as usize,
            ) {
                Some(j) => j,
                None => old(self).index,
            },
            final(self).items@ == old(self).items@,
            final(self).offset == old(self).offset,
            final(self).selected@ == old(self).selected@,
            final(self).anchor == old(self).anchor,
    {
        self.navigate_with(key, true)
    }

    /// Like `navigate`, but ignores the vim letter keys, for lists beside a
    /// live text input.
    pub fn navigate_arrows_only(&mut self, key: KeyCode) -> (consumed: bool)
        requires
            pages_down(key, false) ==> old(self).index + 10 <= usize::MAX,
        ensures
            consumed == nav_index(key, false, old(self).index, old(self).items@.len() as usize) is Some,
            final(self).index == match nav_index(
                key,
                false,
                old(self).index,
                old(self).items@.len() as usize,
            ) {
                Some(j) => j,
                None => old(self).index,
            },
            final(self).items@ == old(self).items@,
            final(self).offset == old(self).offset,
            final(self).selected@ == old(self).selected@,
            final(self).anchor == old(self).anchor,
    {
        self.navigate_with(key, false)
    }

    fn move_up(&mut self)
        ensures
            final(self).index == up_index(old(self).index, old(self).items@.len() as usize),
            final(self).items@ == old(self).items@,
            final(self).offset == old(self).offset,
            final(self).selected@ == old(self).selected@,
            final(self).anchor == old(self).anchor,
    {
        let len = self.items.len();
        if len > 0 {
            self.index = if self.index == 0 {
                len - 1
            } else {
                self.index - 1
            };
        }
    }

    fn move_down(&mut self)
        ensures
            final(self).index == down_index(old(self).index, old(self).items@.len() as usize),
            final(self).items@ == old(self).items@,
            final(self).offset == old(self).offset,
            final(self).selected@ == old(self).selected@,
            final(self).anchor == old(self).anchor,
    {
        let len = self.items.len();
        if len > 0 {
            self.index = if self.index >= len - 1 {
                0
            } else {
                self.index + 1
            };
        }
    }

    fn page_up(&mut self)
        ensures
            final(self).index == page_up_index(old(self).index),
            final(self).items@ == old(self).items@,
            final(self).offset == old(self).offset,
            final(self).selected@ == old(self).selected@,
            final(self).anchor == old(self).anchor,
    {
        self.index = if self.index >= 10 {
            self.index - 10
        } else {
            0
        };
    }

    fn page_down(&mut self)
        requires
            old(self).index + 10 <= usize::MAX,
        ensures
            final(self).index == page_down_index(old(self).index, old(self).items@.len() as usize),
            final(self).items@ == old(self).items@,
            final(self).offset == old(self).offset,
            final(self).selected@ == old(self).selected@,
            final(self).anchor == old(self).anchor,
    {
        let last = if self.items.len() > 0 {
            self.items.len() - 1
        } else {
            0
        };
        self.index = if self.index + 10 <= last {
            self.index + 10
        } else {
            last
        };
    }

    fn navigate_with(&mut self, key: KeyCode, allow_vim_chars: bool) -> (consumed: bool)
        requires
            pages_down(key, allow_vim_chars) ==> old(self).index + 10 <= usize::MAX,
        ensures
            consumed == nav_index(
                key,
                allow_vim_chars,
                old(self).index,
                old(self).items@.len() as usize,
            ) is Some,
            final(self).index == match nav_index(
                key,
                allow_vim_chars,
                old(self).index,
                old(self).items@.len() as usize,
            ) {
                Some(j) => j,
                None => old(self).index,
            },
            final(self).items@ == old(self).items@,
            final(self).offset == old(self).offset,
            final(self).selected@ == old(self).selected@,
            final(self).anchor == old(self).anchor,
    {
        let last = if self.items.len() > 0 {
            self.items.len() - 1
        } else {
            0
        };
        match key {
            KeyCode::Up => {
                self.move_up();
                true
            },
            KeyCode::Down => {
                self.move_down();
                true
            },
            KeyCode::PageUp => {
                self.page_up();
                true
            },
            KeyCode::PageDown => {
                self.page_down();
                true
            },
            KeyCode::Home => {
                self.index = 0;
                true
            },
            KeyCode::End => {
                self.index = last;
                true
            },
            KeyCode::Char(c) => {
                if !allow_vim_chars {
                    false
                } else if c == 'k' {
                    self.move_up();
                    true
                } else if c == 'j' {
                    self.move_down();
                    true
                } else if c == 'u' {
                    self.page_up();
                    true
                } else if c == 'd' {
                    self.page_down();
                    true
                } else if c == 'g' {
                    self.index = 0;
                    true
                } else if c == 'G' {
                    self.index = last;
                    true
                } else {
                    false
                }
            },
            _ => false,
        }
    }

    /// Moves the viewport so the cursor row is inside a window of
    /// `visible_height` rows, scrolling as little as possible and never past
    /// the end of the list.
    pub fn ensure_visible(&mut self, visible_height: usize)
        requires
            old(self).index >= old(self).offset ==> old(self).offset + visible_height <= usize::MAX,
        ensures
            final(self).offset == visible_offset(
                old(self).index,
                old(self).offset,
                old(self).items@.len() as usize,
                visible_height,
            ),
            final(self).items@ == old(self).items@,
            final(self).index == old(self).index,
            final(self).selected@ == old(self).selected@,
            final(self).anchor == old(self).anchor,
    {
        if visible_height == 0 || self.items.len() == 0 {
            self.offset = 0;
            return;
        }
        if self.index < self.offset {
            self.offset = self.index;
        } else if self.index >= self.offset + visible_height {
            self.offset = self.index - (visible_height - 1);
        }
        let max_offset = if self.items.len() >= visible_height {
            self.items.len() - visible_height
        } else {
            0
        };
        if self.offset > max_offset {
            self.offset = max_offset;
        }
    }

    /// Clears the selection and its anchor.
    pub fn clear_selection(&mut self)
        ensures
            final(self).selected@ == Set::<usize>::empty(),
            final(self).anchor is None,
            final(self).items@ == old(self).items@,
            final(self).index == old(self).index,
            final(self).offset == old(self).offset,
    {
        self.selected.clear();
        self.anchor = None;
    }

    /// Extends the selection upward by `step` rows.
    pub fn extend_up_by(&mut self, step: usize)
        ensures
            final(self).items@ == old(self).items@,
            final(self).offset == old(self).offset,
            old(self).items@.len() == 0 || step == 0 ==> final(self).index == old(self).index
                && final(self).selected@ == old(self).selected@ && final(self).anchor == old(
                self,
            ).anchor,
            old(self).items@.len() > 0 && step > 0 ==> {
                let a = match old(self).anchor {
                    Some(a) => a,
                    None => old(self).index,
                };
                &&& final(self).anchor == Some(a)
                &&& final(self).index == extended_index(
                    old(self).index,
                    old(self).items@.len() as usize,
                    true,
                    step,
                )
                &&& final(self).selected@ == span(a, final(self).index)
            },
    {
        let len = self.items.len();
        extend_range_selection(&mut self.index, len, true, step, &mut self.selected, &mut self.anchor);
    }

    /// Extends the selection downward by `step` rows.
    pub fn extend_down_by(&mut self, step: usize)
        requires
            old(self).index + step <= usize::MAX,
        ensures
            final(self).items@ == old(self).items@,
            final(self).offset == old(self).offset,
            old(self).items@.len() == 0 || step == 0 ==> final(self).index == old(self).index
                && final(self).selected@ == old(self).selected@ && final(self).anchor == old(
                self,
            ).anchor,
            old(self).items@.len() > 0 && step > 0 ==> {
                let a = match old(self).anchor {
                    Some(a) => a,
                    None => old(self).index,
                };
                &&& final(self).anchor == Some(a)
                &&& final(self).index == extended_index(
                    old(self).index,
                    old(self).items@.len() as usize,
                    false,
                    step,
                )
                &&& final(self).selected@ == span(a, final(self).index)
            },
    {
        let len = self.items.len();
        extend_range_selection(
            &mut self.index,
            len,
            false,
            step,
            &mut self.selected,
            &mut self.anchor,
        );
    }

    /// The selected rows in increasing order.
    pub fn selected_ascending(&self) -> (r: Vec<usize>)
        ensures
            ascending(r@),
            r@.to_set() == self.selected@,
            r@.len() == self.selected@.len(),
    {
        set_ascending(&self.selected)
    }

    /// The selected rows in decreasing order.
    pub fn selected_descending(&self) -> (r: Vec<usize>)
        ensures
            descending(r@),
            r@.to_set() == self.selected@,
            r@.len() == self.selected@.len(),
    {
        let asc = set_ascending(&self.selected);
        let mut r: Vec<usize> = Vec::new();
        let mut k: usize = asc.len();
        while k > 0
            invariant
                k <= asc@.len(),
                r@ == asc@.skip(k as int).reverse(),
            decreases k,
        {
            k = k - 1;
            r.push(asc[k]);
            assert(asc@.skip(k as int).reverse() =~= asc@.skip(k + 1).reverse().push(asc@[k as int]));
        }
        assert(asc@.skip(0) =~= asc@);
        assert(r@.to_set() =~= asc@.to_set()) by {
            assert forall|x: usize| r@.contains(x) <==> asc@.contains(x) by {
                if r@.contains(x) {
                    let i = choose|i: int| 0 <= i < r@.len() && r@[i] == x;
                    assert(asc@[asc@.len() - 1 - i] == x);
                }
                if asc@.contains(x) {
                    let i = choose|i: int| 0 <= i < asc@.len() && asc@[i] == x;
                    assert(r@[asc@.len() - 1 - i] == x);
                }
            }
        }
        assert forall|i: int, j: int| 0 <= i < j < r@.len() implies #[trigger] r@[i] > #[trigger] r@[j] by {
            assert(r@[i] == asc@[asc@.len() - 1 - i]);
            assert(r@[j] == asc@[asc@.len() - 1 - j]);
        }
        r
    }
}

proof fn lemma_descending_unique(b: Seq<usize>, d: Seq<usize>)
    requires
        descending(b),
        descending(d),
        forall|x: usize| b.contains(x) <==> d.contains(x),
    ensures
        b == d,
    decreases b.len(),
{
    if b.len() == 0 {
        if d.len() > 0 {
            assert(d.contains(d[0]));
        }
        assert(b =~= d);
    } else {
        assert(b.contains(b[0]));
        let k = choose|k: int| 0 <= k < d.len() && d[k] == b[0];
        assert(d.contains(d[0]));
        let j = choose|j: int| 0 <= j < b.len() && b[j] == d[0];
        if j > 0 {
            assert(b[0] > b[j]);
        }
        if k > 0 {
            assert(d[0] > d[k]);
        }
        assert(d[0] == b[0]);
        let b1 = b.drop_first();
        let d1 = d.drop_first();
        assert forall|x: usize| b1.contains(x) <==> d1.contains(x) by {
            if b1.contains(x) {
                let i = choose|i: int| 0 <= i < b1.len() && b1[i] == x;
                assert(b[i + 1] == x);
                assert(b[0] > b[i + 1]);
                assert(b.contains(x));
                let m = choose|m: int| 0 <= m < d.len() && d[m] == x;
                assert(m != 0);
                assert(d1[m - 1] == x);
            }
            if d1.contains(x) {
                let i = choose|i: int| 0 <= i < d1.len() && d1[i] == x;
                assert(d[i + 1] == x);
                assert(d[0] > d[i + 1]);
                assert(d.contains(x));
                let m = choose|m: int| 0 <= m < b.len() && b[m] == x;
                assert(m != 0);
                assert(b1[m - 1] == x);
            }
        }
        assert(descending(b1)) by {
            assert forall|i: int, j2: int| 0 <= i < j2 < b1.len() implies #[trigger] b1[i] > #[trigger] b1[j2] by {
                assert(b[i + 1] > b[j2 + 1]);
            }
        }
        assert(descending(d1)) by {
            assert forall|i: int, j2: int| 0 <= i < j2 < d1.len() implies #[trigger] d1[i] > #[trigger] d1[j2] by {
                assert(d[i + 1] > d[j2 + 1]);
            }
        }
        lemma_descending_unique(b1, d1);
        assert(b =~= seq![b[0]] + b1);
        assert(d =~= seq![d[0]] + d1);
    }
}

/// The selected rows in decreasing order are those in increasing order,
/// reversed: any two results of `selected_descending` and
/// `selected_ascending` for one selection are each other's reverse.
pub proof fn lemma_descending_reverses_ascending(asc: Seq<usize>, desc: Seq<usize>, sel: Set<usize>)
    requires
        ascending(asc),
        asc.to_set() == sel,
        descending(desc),
        desc.to_set() == sel,
    ensures
        desc == asc.reverse(),
{
    let r = asc.reverse();
    assert(descending(r)) by {
        assert forall|i: int, j: int| 0 <= i < j < r.len() implies #[trigger] r[i] > #[trigger] r[j] by {
            assert(r[i] == asc[asc.len() - 1 - i]);
            assert(r[j] == asc[asc.len() - 1 - j]);
        }
    }
    assert forall|x: usize| r.contains(x) <==> desc.contains(x) by {
        assert(asc.to_set().contains(x) <==> asc.contains(x));
        assert(desc.to_set().contains(x) <==> desc.contains(x));
        if r.contains(x) {
            let i = choose|i: int| 0 <= i < r.len() && r[i] == x;
            assert(asc[asc.len() - 1 - i] == x);
            assert(asc.contains(x));
        }
        if asc.contains(x) {
            let i = choose|i: int| 0 <= i < asc.len() && asc[i] == x;
            assert(r[asc.len() - 1 - i] == x);
        }
    }
    lemma_descending_unique(r, desc);
}

/// The viewport offset that keeps row `index` inside `h` visible rows.
pub open spec fn visible_offset(index: usize, offset: usize, len: usize, h: usize) -> usize {
    if h == 0 || len == 0 {
        0
    } else {
        let off1 = if index < offset {
            index
        } else if index >= offset + h {
            (index + 1 - h) as usize
        } else {
            offset
        };
        let max_off = if len >= h {
            (len - h) as usize
        } else {
            0
        };
        if off1 > max_off {
            max_off
        } else {
            off1
        }
    }
}

/// After `ensure_visible`, the cursor row is on screen: inside the window of
/// `h` rows starting at the offset, and the window does not run past the end
/// of a list that is longer than it.
pub proof fn lemma_cursor_visible(index: usize, offset: usize, len: usize, h: usize)
    requires
        index < len,
        h > 0,
    ensures
        visible_offset(index, offset, len, h) <= index < visible_offset(index, offset, len, h) + h,
        len >= h ==> visible_offset(index, offset, len, h) + h <= len,
        len < h ==> visible_offset(index, offset, len, h) == 0,
{
}

} // verus!

verus! {

impl<T> Default for NavigableList<T> {
    /// An empty list with the cursor at the top and nothing selected.
    fn default() -> (r: Self)
        ensures
            r.items@.len() == 0,
            r.index == 0,
            r.offset == 0,
            r.selected@ == Set::<usize>::empty(),
            r.anchor is None,
    {
        NavigableList::new(Vec::new())
    }
}

} // verus!
