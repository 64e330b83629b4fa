//! A single-line text input with a cursor.
//!
//! The cursor is a byte offset into the UTF-8 text, always at a character
//! boundary.  The spec functions here count UTF-8 bytes per character the
//! way `char::len_utf8` does.

use vstd::prelude::*;
use crate::keys::KeyCode;
use crate::text::{chars_of, push_char, string_of};

verus! {

/// Bytes of a character in UTF-8 (`char::len_utf8`).
pub open spec fn utf8_len(c: char) -> nat {
    let u = c as u32;
    if u < 0x80 {
        1
    } else if u < 0x800 {
        2
    } else if u < 0x10000 {
        3
    } else {
        4
    }
}

/// Bytes of a character sequence in UTF-8.
pub open spec fn byte_len(s: Seq<char>) -> nat
    decreases s.len(),
{
    if s.len() == 0 {
        0
    } else {
        byte_len(s.drop_last()) + utf8_len(s.last())
    }
}

/// The number of characters before byte offset `b`, or -1 when `b` is not
/// a character boundary of `s`.
pub open spec fn char_index(s: Seq<char>, b: int) -> int
    decreases s.len(),
{
    if b == 0 {
        0
    } else if b < 0 || s.len() == 0 || utf8_len(s[0]) > b {
        -1
    } else {
        let r = char_index(s.drop_first(), b - utf8_len(s[0]));
        if r < 0 {
            -1
        } else {
            r + 1
        }
    }
}

fn utf8_len_of(c: char) -> (n: usize)
    ensures
        n as nat == utf8_len(c),
{
    let u = c as u32;
    if u < 0x80 {
        1
    } else if u < 0x800 {
        2
    } else if u < 0x10000 {
        3
    } else {
        4
    }
}

proof fn lemma_byte_len_push(s: Seq<char>, i: int)
    requires
        0 <= i < s.len(),
    ensures
        byte_len(s.take(i + 1)) == byte_len(s.take(i)) + utf8_len(s[i]),
{
    assert(s.take(i + 1).drop_last() =~= s.take(i));
}

proof fn lemma_byte_len_prepend(c: char, s: Seq<char>)
    ensures
        byte_len(seq![c] + s) == utf8_len(c) + byte_len(s),
    decreases s.len(),
{
    if s.len() > 0 {
        lemma_byte_len_prepend(c, s.drop_last());
        assert((seq![c] + s).drop_last() =~= seq![c] + s.drop_last());
        assert((seq![c] + s).last() == s.last());
        assert(byte_len(seq![c] + s) == byte_len((seq![c] + s).drop_last()) + utf8_len(s.last()));
    } else {
        assert(seq![c] + s =~= seq![c]);
        assert(seq![c].drop_last() =~= Seq::<char>::empty());
        assert(byte_len(seq![c]) == byte_len(Seq::<char>::empty()) + utf8_len(c));
        assert(s =~= Seq::<char>::empty());
    }
}

/// The character index at byte offset `byte_len(s.take(k))` is `k`.
proof fn lemma_char_index_take(s: Seq<char>, k: int)
    requires
        0 <= k <= s.len(),
    ensures
        char_index(s, byte_len(s.take(k)) as int) == k,
    decreases k,
{
    if k > 0 {
        let t = s.drop_first();
        lemma_char_index_take(t, k - 1);
        assert(s.take(k) =~= seq![s[0]] + t.take(k - 1));
        lemma_byte_len_prepend(s[0], t.take(k - 1));
        if byte_len(s.take(k)) == 0 {
            assert(false);
        }
    }
}

/// A byte offset that is a character boundary is `byte_len` of the
/// characters before it.
proof fn lemma_char_index_sound(s: Seq<char>, b: int)
    requires
        char_index(s, b) >= 0,
    ensures
        char_index(s, b) <= s.len(),
        byte_len(s.take(char_index(s, b))) == b,
    decreases s.len(),
{
    if b != 0 {
        let t = s.drop_first();
        let r = char_index(t, b - utf8_len(s[0]));
        lemma_char_index_sound(t, b - utf8_len(s[0]));
        assert(s.take(r + 1) =~= seq![s[0]] + t.take(r));
        lemma_byte_len_prepend(s[0], t.take(r));
    } else {
        assert(s.take(0) =~= Seq::<char>::empty());
    }
}

/// A text input: the text and a byte cursor into it.
#[derive(Debug, Clone)]
pub struct TextInput {
    pub text: String,
    pub cursor: usize,
}

impl TextInput {
    /// The cursor sits on a character boundary of the text.
    pub open spec fn cursor_ok(&self) -> bool {
        char_index(self.text@, self.cursor as int) >= 0
    }

    /// The number of characters before the cursor.
    pub open spec fn cursor_chars(&self) -> int {
        char_index(self.text@, self.cursor as int)
    }

    pub fn new() -> (r: TextInput)
        ensures
            r.text@ == Seq::<char>::empty(),
            r.cursor == 0,
            r.cursor_ok(),
    {
        TextInput { text: String::new(), cursor: 0 }
    }

    /// The character index of the cursor and the characters of the text.
    fn locate(&self) -> (r: (Vec<char>, usize))
        requires
            self.cursor_ok(),
        ensures
            r.0@ == self.text@,
            r.1 as int == self.cursor_chars(),
            r.1 <= r.0@.len(),
            byte_len(self.text@.take(r.1 as int)) == self.cursor,
    {
        let cs = chars_of(self.text.as_str());
        proof {
            lemma_char_index_sound(cs@, self.cursor as int);
        }
        let ghost k = self.cursor_chars();
        let n = cs.len();
        let mut i: usize = 0;
        let mut b: usize = 0;
        assert(cs@.take(0) =~= Seq::<char>::empty());
        while b < self.cursor
            invariant
                n == cs@.len(),
                0 <= k <= cs@.len(),
                cs@ == self.text@,
                byte_len(cs@.take(k)) == self.cursor,
                i <= k,
                b as nat == byte_len(cs@.take(i as int)),
                b <= self.cursor,
            decreases k - i,
        {
            proof {
                if i as int == k {
                    assert(false);
                }
                lemma_byte_len_push(cs@, i as int);
                lemma_byte_len_mono(cs@, i + 1, k);
            }
            b = b + utf8_len_of(cs[i]);
            i = i + 1;
        }
        proof {
            if (i as int) < k {
                lemma_byte_len_push(cs@, i as int);
                lemma_byte_len_mono(cs@, i + 1, k);
            }
        }
        (cs, i)
    }

    /// Applies an editing or cursor key.  Characters are inserted at the
    /// cursor; Backspace/Delete remove the character before/after it;
    /// Left/Right move by one character; Home/End jump to the ends.
    /// Returns whether the key was used.
    pub fn handle_key(&mut self, key: KeyCode) -> (consumed: bool)
        requires
            old(self).cursor_ok(),
            byte_len(old(self).text@) <= usize::MAX,
            key is Char ==> byte_len(old(self).text@) + 4 <= usize::MAX,
        ensures
            final(self).cursor_ok(),
            consumed == (key is Char || key is Backspace || key is Delete || key is Left
                || key is Right || key is Home || key is End),
            ({
                let s = old(self).text@;
                let k = old(self).cursor_chars();
                let s2 = final(self).text@;
                let k2 = final(self).cursor_chars();
                match key {
                    KeyCode::Char(c) => s2 == s.take(k) + seq![c] + s.skip(k) && k2 == k + 1,
                    KeyCode::Backspace => if k > 0 {
                        s2 == s.remove(k - 1) && k2 == k - 1
                    } else {
                        s2 == s && k2 == k
                    },
                    KeyCode::Delete => if k < s.len() {
                        s2 == s.remove(k) && k2 == k
                    } else {
                        s2 == s && k2 == k
                    },
                    KeyCode::Left => s2 == s && k2 == if k > 0 {
                        k - 1
                    } else {
                        k
                    },
                    KeyCode::Right => s2 == s && k2 == if k < s.len() {
                        k + 1
                    } else {
                        k
                    },
                    KeyCode::Home => s2 == s && k2 == 0,
                    KeyCode::End => s2 == s && k2 == s.len(),
                    _ => s2 == s && final(self).cursor == old(self).cursor,
                }
            }),
    {
        let (cs, k) = self.locate();
        let ghost s = cs@;
        match key {
            KeyCode::Char(c) => {
                let mut v: Vec<char> = Vec::new();
                let mut i: usize = 0;
                while i < cs.len()
                    invariant
                        i <= cs@.len(),
                        k <= cs@.len(),
                        v@ == (if i <= k {
                            cs@.take(i as int)
                        } else {
                            cs@.take(k as int) + seq![c] + cs@.subrange(k as int, i as int)
                        }),
                    decreases cs@.len() - i,
                {
                    if i == k {
                        v.push(c);
                    }
                    v.push(cs[i]);
                    proof {
                        if i < k {
                            assert(cs@.take(i + 1) =~= cs@.take(i as int).push(cs@[i as int]));
                        } else if i == k {
                            assert(cs@.take(k as int) + seq![c] + cs@.subrange(k as int, i + 1)
                                =~= cs@.take(i as int).push(c).push(cs@[i as int]));
                        } else {
                            assert(cs@.take(k as int) + seq![c] + cs@.subrange(k as int, i + 1)
                                =~= (cs@.take(k as int) + seq![c] + cs@.subrange(
                                k as int,
                                i as int,
                            )).push(cs@[i as int]));
                        }
                    }
                    i = i + 1;
                }
                if k == cs.len() {
                    v.push(c);
                }
                let ghost s2 = s.take(k as int) + seq![c] + s.skip(k as int);
                assert(v@ =~= s2);
                self.text = string_of(&v);
                let w = utf8_len_of(c);
                proof {
                    lemma_byte_len_mono(s, k as int, s.len() as int);
                    assert(s.take(s.len() as int) =~= s);
                    assert(s2.take(k + 1) =~= s.take(k as int).push(c));
                    assert(s2.take(k + 1).drop_last() =~= s.take(k as int));
                    lemma_char_index_take(s2, k + 1);
                }
                self.cursor = self.cursor + w;
                true
            },
            KeyCode::Backspace => {
                if k > 0 {
                    let v = remove_at(&cs, k - 1);
                    self.text = string_of(&v);
                    proof {
                        assert(v@.take(k - 1) =~= s.take(k - 1));
                        lemma_byte_len_mono(s, k - 1, k as int);
                    }
                    self.cursor = byte_offset(&v, k - 1);
                    proof {
                        lemma_char_index_take(v@, k - 1);
                    }
                }
                true
            },
            KeyCode::Delete => {
                if k < cs.len() {
                    let v = remove_at(&cs, k);
                    self.text = string_of(&v);
                    proof {
                        assert(v@.take(k as int) =~= s.take(k as int));
                        lemma_char_index_take(v@, k as int);
                    }
                }
                true
            },
            KeyCode::Left => {
                if k > 0 {
                    proof {
                        lemma_byte_len_mono(s, k - 1, k as int);
                    }
                    self.cursor = byte_offset(&cs, k - 1);
                    proof {
                        lemma_char_index_take(s, k - 1);
                    }
                }
                true
            },
            KeyCode::Right => {
                if k < cs.len() {
                    proof {
                        lemma_byte_len_mono(s, k + 1, s.len() as int);
                        assert(s.take(s.len() as int) =~= s);
                    }
                    self.cursor = byte_offset(&cs, k + 1);
                    proof {
                        lemma_char_index_take(s, k + 1);
                    }
                }
                true
            },
            KeyCode::Home => {
                self.cursor = 0;
                true
            },
            KeyCode::End => {
                assert(s.take(s.len() as int) =~= s);
                self.cursor = byte_offset(&cs, cs.len());
                proof {
                    lemma_char_index_take(s, s.len() as int);
                    assert(s.take(s.len() as int) =~= s);
                }
                true
            },
            _ => false,
        }
    }

    pub fn clear(&mut self)
        ensures
            final(self).text@ == Seq::<char>::empty(),
            final(self).cursor == 0,
    {
        self.text = String::new();
        self.cursor = 0;
    }

    pub fn is_empty(&self) -> (b: bool)
        ensures
            b == (self.text@.len() == 0),
    {
        self.text.as_str().is_empty()
    }

    pub fn as_str(&self) -> (r: &str)
        ensures
            r@ == self.text@,
    {
        self.text.as_str()
    }

    /// The text before the cursor, the character at the cursor (empty at
    /// the end), and the text after that character.
    pub fn split_at_cursor(&self) -> (r: (String, String, String))
        requires
            self.cursor_ok(),
        ensures
            ({
                let s = self.text@;
                let k = self.cursor_chars();
                &&& r.0@ == s.take(k)
                &&& k < s.len() ==> r.1@ == seq![s[k]] && r.2@ == s.skip(k + 1)
                &&& k >= s.len() ==> r.1@.len() == 0 && r.2@.len() == 0
            }),
    {
        let (cs, k) = self.locate();
        let before = crate::lyrics::sub_chars(&cs, 0, k);
        assert(before@ =~= cs@.take(k as int));
        if k >= cs.len() {
            (string_of(&before), String::new(), String::new())
        } else {
            let at = crate::lyrics::sub_chars(&cs, k, k + 1);
            let after = crate::lyrics::sub_chars(&cs, k + 1, cs.len());
            assert(at@ =~= seq![cs@[k as int]]);
            assert(after@ =~= cs@.skip(k + 1));
            (string_of(&before), string_of(&at), string_of(&after))
        }
    }
}

proof fn lemma_byte_len_mono(s: Seq<char>, i: int, j: int)
    requires
        0 <= i <= j <= s.len(),
    ensures
        byte_len(s.take(i)) <= byte_len(s.take(j)),
        i < j ==> byte_len(s.take(i)) < byte_len(s.take(j)),
    decreases j - i,
{
    if i < j {
        lemma_byte_len_mono(s, i, j - 1);
        lemma_byte_len_push(s, j - 1);
    }
}

/// `v` without the character at `i`.
fn remove_at(v: &[char], i: usize) -> (r: Vec<char>)
    requires
        i < v@.len(),
    ensures
        r@ == v@.remove(i as int),
{
    let mut r: Vec<char> = Vec::new();
    let mut j: usize = 0;
    while j < v.len()
        invariant
            j <= v@.len(),
            i < v@.len(),
            r@ == (if j <= i {
                v@.take(j as int)
            } else {
                v@.take(i as int) + v@.subrange(i + 1, j as int)
            }),
        decreases v@.len() - j,
    {
        if j != i {
            r.push(v[j]);
        }
        proof {
            if j < i {
                assert(v@.take(j + 1) =~= v@.take(j as int).push(v@[j as int]));
            } else if j == i {
                assert(v@.take(i as int) + v@.subrange(i + 1, j + 1) =~= v@.take(i as int));
            } else {
                assert(v@.take(i as int) + v@.subrange(i + 1, j + 1) =~= (v@.take(i as int)
                    + v@.subrange(i + 1, j as int)).push(v@[j as int]));
            }
        }
        j = j + 1;
    }
    assert(r@ =~= v@.remove(i as int));
    r
}

/// The UTF-8 byte offset of character `k`.
fn byte_offset(v: &[char], k: usize) -> (b: usize)
    requires
        k <= v@.len(),
        byte_len(v@.take(k as int)) <= usize::MAX,
    ensures
        b as nat == byte_len(v@.take(k as int)),
{
    let mut b: usize = 0;
    let mut i: usize = 0;
    assert(v@.take(0) =~= Seq::<char>::empty());
    while i < k
        invariant
            i <= k <= v@.len(),
            byte_len(v@.take(k as int)) <= usize::MAX,
            b as nat == byte_len(v@.take(i as int)),
        decreases k - i,
    {
        proof {
            lemma_byte_len_push(v@, i as int);
            lemma_byte_len_mono(v@, i + 1, k as int);
        }
        b = b + utf8_len_of(v[i]);
        i = i + 1;
    }
    b
}

} // verus!

verus! {

/// Typing a character and then pressing Backspace leaves the text as it
/// was, with the cursor where it was.
pub proof fn lemma_type_then_backspace(s: Seq<char>, k: int, c: char)
    requires
        0 <= k <= s.len(),
    ensures
        (s.take(k) + seq![c] + s.skip(k)).remove(k) == s,
        (k + 1) - 1 == k,
{
    assert((s.take(k) + seq![c] + s.skip(k)).remove(k) =~= s);
}

} // verus!

verus! {

impl Default for TextInput {
    /// Empty text with the cursor at the start.
    fn default() -> (r: Self)
        ensures
            r.text@ == Seq::<char>::empty(),
            r.cursor == 0,
    {
        TextInput::new()
    }
}

} // verus!
