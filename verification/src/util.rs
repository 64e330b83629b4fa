//! Display-width aware text layout: padding, truncation and word wrapping of
//! table cells, plus home-directory expansion of paths.

use vstd::prelude::*;
use crate::text::{chars_of, push_char, push_repeat, push_str, string_of};

verus! {

/// Glyph shown in the track list's favorite column for favorited tracks.
pub const FAVORITE_ICON: &'static str = "★";

// ---------------------------------------------------------------------------
// Terminal display width (unicode-width)
// ---------------------------------------------------------------------------

/// The display width `unicode_width` gives a single character (`None` for
/// control characters).
pub uninterp spec fn char_width(c: char) -> Option<usize>;

/// The display width `unicode_width` gives a whole string.  It is not the
/// sum of the character widths (ligatures, emoji sequences, `"\r\n"`).
pub uninterp spec fn str_width(s: Seq<char>) -> usize;

/// A printable ASCII character: space through `~`.
pub open spec fn is_printable_ascii(c: char) -> bool {
    0x20 <= (c as u32) && (c as u32) < 0x7F
}

/// Every character of `s` is printable ASCII.
pub open spec fn all_printable_ascii(s: Seq<char>) -> bool {
    forall|i: int| 0 <= i < s.len() ==> is_printable_ascii(#[trigger] s[i])
}

/// `UnicodeWidthChar::width`: the crate's width of the character, which its
/// source fixes at one column for printable ASCII and at `None` for the
/// control codes below U+0020 and from U+007F up to U+00A0.  Other widths
/// come from the crate's tables and are left unstated.
#[verifier::external_body]
fn width_of_char(c: char) -> (w: Option<usize>)
    ensures
        w == char_width(c),
        is_printable_ascii(c) ==> w == Some(1usize),
        ((c as u32) < 0x20 || (0x7F <= (c as u32) && (c as u32) < 0xA0)) ==> w is None,
{
    unicode_width::UnicodeWidthChar::width(c)
}

/// `UnicodeWidthStr::width`: the crate's width of the string, which for
/// printable ASCII text is one column per character (each such character
/// adds one and starts no special sequence).  Other widths are left
/// unstated.
#[verifier::external_body]
fn width_of_str(s: &str) -> (w: usize)
    ensures
        w == str_width(s@),
        all_printable_ascii(s@) ==> w == s@.len(),
{
    unicode_width::UnicodeWidthStr::width(s)
}

/// Columns a character takes on screen: one for printable ASCII, else what
/// `unicode_width` gives it.
pub open spec fn char_columns(c: char) -> Option<usize> {
    if is_printable_ascii(c) {
        Some(1usize)
    } else {
        char_width(c)
    }
}

/// Columns a string takes on screen: its length for printable ASCII text,
/// else what `unicode_width` gives it.
pub open spec fn text_width(s: Seq<char>) -> nat {
    if all_printable_ascii(s) {
        s.len()
    } else {
        str_width(s) as nat
    }
}

/// Width used when laying out one character: control characters count as one
/// column.
pub open spec fn cell_width(c: char) -> nat {
    match char_columns(c) {
        Some(w) => w as nat,
        None => 1,
    }
}

fn cell_width_of(c: char) -> (w: usize)
    ensures
        w as nat == cell_width(c),
{
    match width_of_char(c) {
        Some(w) => w,
        None => 1,
    }
}

/// `n` spaces.
pub open spec fn spaces(n: nat) -> Seq<char> {
    Seq::new(n, |_i: int| ' ')
}

// ---------------------------------------------------------------------------
// pad_to
// ---------------------------------------------------------------------------

/// `s` padded with spaces on the right to `width` display columns.
pub open spec fn padded(s: Seq<char>, width: nat) -> Seq<char> {
    if text_width(s) >= width {
        s
    } else {
        s + spaces((width - text_width(s)) as nat)
    }
}

/// Pads `s` to exactly `width` display columns by appending spaces (wider
/// strings are returned unchanged).
pub fn pad_to(s: &str, width: usize) -> (r: String)
    ensures
        r@ == padded(s@, width as nat),
{
    let w = width_of_str(s);
    let mut r = String::new();
    push_str(&mut r, s);
    if w < width {
        push_repeat(&mut r, ' ', width - w);
    }
    r
}

// ---------------------------------------------------------------------------
// truncate_field
// ---------------------------------------------------------------------------

/// How many leading characters of `s` fit into `limit` columns, taking
/// characters while the next one still fits.
pub open spec fn fit_count(s: Seq<char>, limit: nat) -> nat
    decreases s.len(),
{
    if s.len() == 0 || cell_width(s[0]) > limit {
        0
    } else {
        1 + fit_count(s.drop_first(), (limit - cell_width(s[0])) as nat)
    }
}

/// Total layout width of a character sequence.
pub open spec fn cells(s: Seq<char>) -> nat
    decreases s.len(),
{
    if s.len() == 0 {
        0
    } else {
        cells(s.drop_last()) + cell_width(s.last())
    }
}

/// `s` cut to `max` display columns: padded when it fits; otherwise the
/// longest prefix that fits in `max - 1` columns, an ellipsis, and padding
/// up to `max` columns.
pub open spec fn truncated(s: Seq<char>, max: nat) -> Seq<char> {
    if max == 0 {
        Seq::empty()
    } else if text_width(s) <= max {
        padded(s, max)
    } else {
        let k = fit_count(s, (max - 1) as nat);
        let used = cells(s.take(k as int)) + 1;
        let cut = s.take(k as int).push('…');
        if used < max {
            cut + spaces((max - used) as nat)
        } else {
            cut
        }
    }
}

proof fn lemma_fit_step(s: Seq<char>, i: int, limit: nat, used: nat)
    requires
        0 <= i < s.len(),
        used + cell_width(s[i]) <= limit,
        fit_count(s, limit) == i + fit_count(s.skip(i), (limit - used) as nat),
    ensures
        fit_count(s, limit) == (i + 1) + fit_count(
            s.skip(i + 1),
            (limit - (used + cell_width(s[i]))) as nat,
        ),
{
    assert(s.skip(i).drop_first() =~= s.skip(i + 1));
    assert(s.skip(i)[0] == s[i]);
}

proof fn lemma_cells_push(s: Seq<char>, i: int)
    requires
        0 <= i < s.len(),
    ensures
        cells(s.take(i + 1)) == cells(s.take(i)) + cell_width(s[i]),
{
    assert(s.take(i + 1).drop_last() =~= s.take(i));
}

/// Truncates `s` to `max` display columns, appending `…` when it was cut,
/// and pads with spaces to exactly `max` columns.
pub fn truncate_field(s: &str, max: usize) -> (r: String)
    ensures
        r@ == truncated(s@, max as nat),
{
    if max == 0 {
        return String::new();
    }
    if width_of_str(s) <= max {
        return pad_to(s, max);
    }
    let cs = chars_of(s);
    let limit: usize = max - 1;
    let mut result = String::new();
    let mut w: usize = 0;
    let mut i: usize = 0;
    assert(cs@.skip(0) =~= cs@);
    assert(cs@.take(0) =~= Seq::<char>::empty());
    while i < cs.len()
        invariant
            i <= cs@.len(),
            cs@ == s@,
            limit == max - 1,
            w <= limit,
            w as nat == cells(cs@.take(i as int)),
            result@ == cs@.take(i as int),
            fit_count(cs@, limit as nat) == i + fit_count(cs@.skip(i as int), (limit - w) as nat),
        ensures
            i <= cs@.len(),
            w <= limit,
            w as nat == cells(cs@.take(i as int)),
            result@ == cs@.take(i as int),
            fit_count(cs@, limit as nat) == i,
        decreases cs@.len() - i,
    {
        let ch = cs[i];
        let cw = cell_width_of(ch);
        if cw > limit - w {
            proof {
                assert(cs@.skip(i as int)[0] == ch);
                assert(fit_count(cs@.skip(i as int), (limit - w) as nat) == 0);
            }
            break;
        }
        proof {
            lemma_fit_step(cs@, i as int, limit as nat, w as nat);
            lemma_cells_push(cs@, i as int);
        }
        push_char(&mut result, ch);
        assert(cs@.take(i + 1) =~= cs@.take(i as int).push(ch));
        w = w + cw;
        i = i + 1;
    }
    push_char(&mut result, '…');
    let used = w + 1;
    if used < max {
        push_repeat(&mut result, ' ', max - used);
    }
    result
}

// ---------------------------------------------------------------------------
// truncate (row variant)
// ---------------------------------------------------------------------------

/// `p` with characters dropped from its end until it fits in `limit`
/// columns.
pub open spec fn shrink(p: Seq<char>, limit: nat) -> Seq<char>
    decreases p.len(),
{
    if p.len() == 0 || cells(p) <= limit {
        p
    } else {
        shrink(p.drop_last(), limit)
    }
}

/// `s` padded with spaces to `max` columns by its own cell count.
pub open spec fn filled(s: Seq<char>, max: nat) -> Seq<char> {
    if cells(s) < max {
        s + spaces((max - cells(s)) as nat)
    } else {
        s
    }
}

/// `s` fitted to `max` columns: the characters that fit, padded; or, when
/// one does not fit, those that fit with the last ones dropped until an
/// ellipsis fits after them, then the ellipsis and padding.
pub open spec fn cut_to(s: Seq<char>, max: nat) -> Seq<char> {
    if max == 0 {
        Seq::empty()
    } else {
        let k = fit_count(s, max);
        if k >= s.len() {
            filled(s, max)
        } else {
            filled(shrink(s.take(k as int), (max - 1) as nat).push('…'), max)
        }
    }
}

proof fn lemma_fit_count_bound(s: Seq<char>, limit: nat)
    ensures
        fit_count(s, limit) <= s.len(),
    decreases s.len(),
{
    if s.len() > 0 && cell_width(s[0]) <= limit {
        lemma_fit_count_bound(s.drop_first(), (limit - cell_width(s[0])) as nat);
    }
}

proof fn lemma_cells_push_char(s: Seq<char>, c: char)
    ensures
        cells(s.push(c)) == cells(s) + cell_width(c),
{
    assert(s.push(c).drop_last() =~= s);
}

/// Fits `s` to `max` display columns for a list row, making room for the
/// ellipsis by dropping characters when the text does not fit.
pub fn truncate(s: &str, max: usize) -> (r: String)
    ensures
        r@ == cut_to(s@, max as nat),
{
    if max == 0 {
        return String::new();
    }
    let cs = chars_of(s);
    let mut kept: Vec<char> = Vec::new();
    let mut w: usize = 0;
    let mut i: usize = 0;
    assert(cs@.skip(0) =~= cs@);
    assert(cs@.take(0) =~= Seq::<char>::empty());
    let mut overflow = false;
    while i < cs.len()
        invariant
            i <= cs@.len(),
            cs@ == s@,
            w <= max,
            w as nat == cells(cs@.take(i as int)),
            kept@ == cs@.take(i as int),
            fit_count(cs@, max as nat) == i + fit_count(cs@.skip(i as int), (max - w) as nat),
            overflow ==> i < cs@.len() && fit_count(cs@.skip(i as int), (max - w) as nat) == 0,
        ensures
            i <= cs@.len(),
            w <= max,
            w as nat == cells(cs@.take(i as int)),
            kept@ == cs@.take(i as int),
            fit_count(cs@, max as nat) == i,
            overflow <==> i < cs@.len(),
        decreases cs@.len() - i,
    {
        let ch = cs[i];
        let cw = cell_width_of(ch);
        if cw > max - w {
            proof {
                assert(cs@.skip(i as int)[0] == ch);
                assert(fit_count(cs@.skip(i as int), (max - w) as nat) == 0);
            }
            overflow = true;
            break;
        }
        proof {
            lemma_fit_step(cs@, i as int, max as nat, w as nat);
            lemma_cells_push(cs@, i as int);
        }
        kept.push(ch);
        assert(cs@.take(i + 1) =~= cs@.take(i as int).push(ch));
        w = w + cw;
        i = i + 1;
    }
    if !overflow {
        assert(cs@.take(i as int) =~= cs@);
        let mut r = string_of(&kept);
        if w < max {
            push_repeat(&mut r, ' ', max - w);
        }
        return r;
    }
    let ghost p = kept@;
    while w > max - 1 && kept.len() > 0
        invariant
            max >= 1,
            w <= max,
            w as nat == cells(kept@),
            shrink(p, (max - 1) as nat) == shrink(kept@, (max - 1) as nat),
        decreases kept@.len(),
    {
        let ghost before = kept@;
        let last = kept.pop().unwrap();
        proof {
            assert(before.drop_last() =~= kept@);
            assert(before == kept@.push(last));
            lemma_cells_push_char(kept@, last);
        }
        w = w - cell_width_of(last);
    }
    assert(shrink(kept@, (max - 1) as nat) == kept@);
    let ell = cell_width_of('…');
    proof {
        lemma_cells_push_char(kept@, '…');
    }
    let mut r = string_of(&kept);
    push_char(&mut r, '…');
    if ell < max - w {
        push_repeat(&mut r, ' ', max - w - ell);
    }
    r
}

} // verus!

verus! {

// ---------------------------------------------------------------------------
// Words
// ---------------------------------------------------------------------------

/// The whitespace-separated words of `s` (`str::split_whitespace`).
pub open spec fn words(s: Seq<char>) -> Seq<Seq<char>>
    decreases s.len(),
{
    if s.len() == 0 {
        Seq::empty()
    } else {
        let pre = words(s.drop_last());
        let c = s.last();
        if crate::text::is_ws(c) {
            pre
        } else if s.len() >= 2 && !crate::text::is_ws(s[s.len() - 2]) {
            pre.update(pre.len() - 1, pre.last().push(c))
        } else {
            pre.push(seq![c])
        }
    }
}

proof fn lemma_words_nonempty(s: Seq<char>)
    requires
        s.len() > 0,
        !crate::text::is_ws(s.last()),
    ensures
        words(s).len() >= 1,
    decreases s.len(),
{
    if s.len() >= 2 && !crate::text::is_ws(s[s.len() - 2]) {
        lemma_words_nonempty(s.drop_last());
    }
}

/// The views of a sequence of strings.
pub open spec fn string_views(vs: Seq<String>) -> Seq<Seq<char>> {
    vs.map_values(|v: String| v@)
}

/// Splits a character sequence into its whitespace-separated words.
pub fn split_words(v: &[char]) -> (r: Vec<Vec<char>>)
    ensures
        crate::text::views(r@) == words(v@),
        forall|i: int| 0 <= i < r@.len() ==> #[trigger] r@[i]@.len() > 0,
{
    let n = v.len();
    let mut done: Vec<Vec<char>> = Vec::new();
    let mut cur: Vec<char> = Vec::new();
    let mut in_word = false;
    let mut i: usize = 0;
    assert(v@.take(0) =~= Seq::<char>::empty());
    while i < n
        invariant
            i <= n == v@.len(),
            in_word == (i > 0 && !crate::text::is_ws(v@[i - 1])),
            in_word ==> cur@.len() > 0,
            !in_word ==> cur@.len() == 0,
            words(v@.take(i as int)) == (if in_word {
                crate::text::views(done@).push(cur@)
            } else {
                crate::text::views(done@)
            }),
            forall|j: int| 0 <= j < done@.len() ==> #[trigger] done@[j]@.len() > 0,
        decreases n - i,
    {
        let c = v[i];
        assert(v@.take(i + 1).drop_last() =~= v@.take(i as int));
        assert(v@.take(i + 1).last() == c);
        if crate::text::is_whitespace(c) {
            if in_word {
                let w = cur;
                let ghost old_views = crate::text::views(done@);
                done.push(w);
                assert(crate::text::views(done@) =~= old_views.push(w@));
                cur = Vec::new();
            }
            in_word = false;
        } else {
            if in_word {
                assert(v@.take(i + 1)[i - 1] == v@[i - 1]);
                let ghost pre = crate::text::views(done@).push(cur@);
                cur.push(c);
                assert(crate::text::views(done@).push(cur@) =~= pre.update(
                    pre.len() - 1,
                    pre.last().push(c),
                ));
            } else {
                proof {
                    if i >= 1 {
                        assert(v@.take(i + 1)[i - 1] == v@[i - 1]);
                    }
                }
                cur.push(c);
                assert(cur@ =~= seq![c]);
            }
            in_word = true;
        }
        i = i + 1;
    }
    assert(v@.take(n as int) =~= v@);
    if in_word {
        let w = cur;
        let ghost old_views = crate::text::views(done@);
        done.push(w);
        assert(crate::text::views(done@) =~= old_views.push(w@));
    }
    done
}

// ---------------------------------------------------------------------------
// wrap_field
// ---------------------------------------------------------------------------

/// Wrapping state: finished lines, the line being built, and its width.
pub type WrapState = (Seq<Seq<char>>, Seq<char>, nat);

/// Adds one character of an over-long word, breaking the line first when
/// the character no longer fits.
pub open spec fn wrap_char(st: WrapState, c: char, max: nat) -> WrapState {
    let cw = cell_width(c);
    let st1: WrapState = if st.2 + cw > max && st.1.len() > 0 {
        (st.0.push(st.1), Seq::empty(), 0)
    } else {
        st
    };
    (st1.0, st1.1.push(c), st1.2 + cw)
}

/// Adds the characters of `word` one at a time.
pub open spec fn wrap_chars(st: WrapState, word: Seq<char>, max: nat) -> WrapState
    decreases word.len(),
{
    if word.len() == 0 {
        st
    } else {
        wrap_char(wrap_chars(st, word.drop_last(), max), word.last(), max)
    }
}

/// Adds one word: a word wider than the line is broken by characters on
/// fresh lines; otherwise it joins the current line (after a space) when it
/// fits, or starts a new line.
pub open spec fn wrap_word(st: WrapState, word: Seq<char>, max: nat) -> WrapState {
    let ww = text_width(word);
    if ww > max {
        let st0: WrapState = if st.1.len() > 0 {
            (st.0.push(st.1), Seq::empty(), 0)
        } else {
            st
        };
        wrap_chars(st0, word, max)
    } else {
        let space: nat = if st.1.len() == 0 {
            0
        } else {
            1
        };
        if st.2 + space + ww <= max {
            (st.0, if space == 1 {
                st.1.push(' ') + word
            } else {
                st.1 + word
            }, st.2 + space + ww)
        } else {
            (st.0.push(st.1), word, ww)
        }
    }
}

/// Adds all the words in order, starting from an empty state.
pub open spec fn wrap_words(ws: Seq<Seq<char>>, max: nat) -> WrapState
    decreases ws.len(),
{
    if ws.len() == 0 {
        (Seq::empty(), Seq::empty(), 0)
    } else {
        wrap_word(wrap_words(ws.drop_last(), max), ws.last(), max)
    }
}

/// The lines `s` is wrapped into for a column `max` display columns wide.
pub open spec fn wrapped(s: Seq<char>, max: nat) -> Seq<Seq<char>> {
    if max == 0 || s.len() == 0 {
        seq![Seq::<char>::empty()]
    } else {
        let st = wrap_words(words(s), max);
        if st.1.len() > 0 || st.0.len() == 0 {
            st.0.push(st.1)
        } else {
            st.0
        }
    }
}

/// Splits `s` into lines no wider than `max` columns, breaking on whitespace
/// where possible and inside a word only when the word alone is too wide.
pub fn wrap_field(s: &str, max: usize) -> (r: Vec<String>)
    ensures
        string_views(r@) == wrapped(s@, max as nat),
{
    let cs = chars_of(s);
    if max == 0 || cs.len() == 0 {
        let mut r: Vec<String> = Vec::new();
        r.push(String::new());
        assert(string_views(r@) =~= seq![Seq::<char>::empty()]);
        return r;
    }
    let ws = split_words(&cs);
    let ghost wsv = crate::text::views(ws@);
    let mut lines: Vec<String> = Vec::new();
    let mut cur = String::new();
    let mut cur_w: u128 = 0;
    let mut k: usize = 0;
    assert(wsv.take(0) =~= Seq::<Seq<char>>::empty());
    assert(string_views(lines@) =~= Seq::<Seq<char>>::empty());
    while k < ws.len()
        invariant
            k <= ws@.len(),
            wsv == crate::text::views(ws@),
            forall|i: int| 0 <= i < ws@.len() ==> #[trigger] ws@[i]@.len() > 0,
            cur_w <= usize::MAX,
            cur@.len() == 0 ==> cur_w == 0,
            (string_views(lines@), cur@, cur_w as nat) == wrap_words(wsv.take(k as int), max as nat),
        decreases ws@.len() - k,
    {
        let word = &ws[k];
        let word_str = string_of(word.as_slice());
        assert(ws@[k as int]@.len() > 0);
        let ww = width_of_str(word_str.as_str());
        assert(wsv.take(k + 1).drop_last() =~= wsv.take(k as int));
        assert(wsv.take(k + 1).last() == word@);
        if ww > max {
            if !cur.as_str().is_empty() {
                let ghost old_views = string_views(lines@);
                let line = cur;
                lines.push(line);
                assert(string_views(lines@) =~= old_views.push(line@));
                cur = String::new();
                cur_w = 0;
            }
            let ghost st0: WrapState = (string_views(lines@), cur@, cur_w as nat);
            let mut j: usize = 0;
            assert(word@.take(0) =~= Seq::<char>::empty());
            while j < word.len()
                invariant
                    j <= word@.len(),
                    cur_w <= usize::MAX,
                    cur@.len() == 0 ==> cur_w == 0,
                    (string_views(lines@), cur@, cur_w as nat) == wrap_chars(
                        st0,
                        word@.take(j as int),
                        max as nat,
                    ),
                decreases word@.len() - j,
            {
                let ch = word[j];
                let cw = cell_width_of(ch);
                assert(word@.take(j + 1).drop_last() =~= word@.take(j as int));
                assert(word@.take(j + 1).last() == ch);
                if cur_w + (cw as u128) > (max as u128) && !cur.as_str().is_empty() {
                    let ghost old_views = string_views(lines@);
                    let line = cur;
                    lines.push(line);
                    assert(string_views(lines@) =~= old_views.push(line@));
                    cur = String::new();
                    cur_w = 0;
                }
                push_char(&mut cur, ch);
                cur_w = cur_w + (cw as u128);
                j = j + 1;
            }
            assert(word@.take(word@.len() as int) =~= word@);
        } else {
            let space: u128 = if cur.as_str().is_empty() {
                0
            } else {
                1
            };
            if cur_w + space + (ww as u128) <= (max as u128) {
                if space == 1 {
                    push_char(&mut cur, ' ');
                }
                let ghost before = cur@;
                crate::text::push_str(&mut cur, word_str.as_str());
                cur_w = cur_w + space + (ww as u128);
            } else {
                let ghost old_views = string_views(lines@);
                let line = cur;
                lines.push(line);
                assert(string_views(lines@) =~= old_views.push(line@));
                cur = word_str;
                cur_w = ww as u128;
            }
        }
        k = k + 1;
    }
    assert(wsv.take(ws@.len() as int) =~= wsv);
    if !cur.as_str().is_empty() || lines.len() == 0 {
        let ghost old_views = string_views(lines@);
        let line = cur;
        lines.push(line);
        assert(string_views(lines@) =~= old_views.push(line@));
    }
    lines
}

proof fn lemma_ascii_drop_last(s: Seq<char>)
    requires
        all_printable_ascii(s),
        s.len() > 0,
    ensures
        all_printable_ascii(s.drop_last()),
        is_printable_ascii(s.last()),
{
    assert forall|i: int| 0 <= i < s.drop_last().len() implies is_printable_ascii(
        #[trigger] s.drop_last()[i],
    ) by {
        assert(s.drop_last()[i] == s[i]);
    }
}

proof fn lemma_ascii_push(s: Seq<char>, c: char)
    requires
        all_printable_ascii(s),
        is_printable_ascii(c),
    ensures
        all_printable_ascii(s.push(c)),
{
    assert forall|i: int| 0 <= i < s.push(c).len() implies is_printable_ascii(#[trigger] s.push(c)[i]) by {
        if i < s.len() {
            assert(s.push(c)[i] == s[i]);
        }
    }
}

proof fn lemma_ascii_concat(a: Seq<char>, b: Seq<char>)
    requires
        all_printable_ascii(a),
        all_printable_ascii(b),
    ensures
        all_printable_ascii(a + b),
{
    assert forall|i: int| 0 <= i < (a + b).len() implies is_printable_ascii(#[trigger] (a + b)[i]) by {
        if i < a.len() {
            assert((a + b)[i] == a[i]);
        } else {
            assert((a + b)[i] == b[i - a.len()]);
        }
    }
}

proof fn lemma_ascii_cells(s: Seq<char>)
    requires
        all_printable_ascii(s),
    ensures
        cells(s) == s.len(),
    decreases s.len(),
{
    if s.len() > 0 {
        lemma_ascii_drop_last(s);
        lemma_ascii_cells(s.drop_last());
    }
}

proof fn lemma_ascii_fit_count(s: Seq<char>, limit: nat)
    requires
        all_printable_ascii(s),
    ensures
        fit_count(s, limit) == (if s.len() <= limit {
            s.len()
        } else {
            limit
        }),
    decreases s.len(),
{
    if s.len() > 0 {
        assert(is_printable_ascii(s[0]));
        if limit >= 1 {
            assert forall|i: int| 0 <= i < s.drop_first().len() implies is_printable_ascii(
                #[trigger] s.drop_first()[i],
            ) by {
                assert(s.drop_first()[i] == s[i + 1]);
            }
            lemma_ascii_fit_count(s.drop_first(), (limit - 1) as nat);
        }
    }
}

/// A field cut from printable ASCII text is exactly `max` characters: text
/// that fits is padded with spaces, longer text keeps its first `max - 1`
/// characters and ends in an ellipsis.
pub proof fn lemma_truncated_ascii(s: Seq<char>, max: nat)
    requires
        all_printable_ascii(s),
    ensures
        truncated(s, max).len() == max,
        s.len() <= max ==> truncated(s, max) == s + spaces((max - s.len()) as nat),
        max > 0 && s.len() > max ==> truncated(s, max) == s.take(max - 1).push('…'),
{
    if max > 0 {
        if s.len() > max {
            lemma_ascii_fit_count(s, (max - 1) as nat);
            assert(all_printable_ascii(s.take(max - 1))) by {
                assert forall|i: int| 0 <= i < s.take(max - 1).len() implies is_printable_ascii(
                    #[trigger] s.take(max - 1)[i],
                ) by {
                    assert(s.take(max - 1)[i] == s[i]);
                }
            }
            lemma_ascii_cells(s.take(max - 1));
        } else if s.len() == max {
            assert(s + spaces(0) =~= s);
        }
    } else {
        assert(s + spaces(0) =~= s);
    }
}

/// A list row cut from printable ASCII text: text that fits is padded with
/// spaces to `max` characters; longer text keeps its first `max - 1`
/// characters, followed by the ellipsis and whatever padding is left.
pub proof fn lemma_cut_to_ascii(s: Seq<char>, max: nat)
    requires
        all_printable_ascii(s),
        max > 0,
    ensures
        s.len() <= max ==> cut_to(s, max) == s + spaces((max - s.len()) as nat),
        s.len() > max ==> cut_to(s, max) == filled(s.take(max - 1).push('…'), max),
{
    lemma_ascii_fit_count(s, max);
    if s.len() <= max {
        lemma_ascii_cells(s);
        assert(s + spaces(0) =~= s);
    } else {
        let p = s.take(max as int);
        assert(all_printable_ascii(p)) by {
            assert forall|i: int| 0 <= i < p.len() implies is_printable_ascii(#[trigger] p[i]) by {
                assert(p[i] == s[i]);
            }
        }
        lemma_ascii_cells(p);
        lemma_ascii_drop_last(p);
        assert(p.drop_last() =~= s.take(max - 1));
        lemma_ascii_cells(p.drop_last());
        assert(shrink(p.drop_last(), (max - 1) as nat) == p.drop_last());
        assert(shrink(p, (max - 1) as nat) == s.take(max - 1));
    }
}

/// Wrapping state for text whose words are printable ASCII: every line is
/// printable ASCII and at most `max` long, and the tracked width is the
/// current line's length.
spec fn ascii_wrap_state(st: WrapState, max: nat) -> bool {
    &&& forall|i: int|
        0 <= i < st.0.len() ==> all_printable_ascii(#[trigger] st.0[i]) && st.0[i].len() <= max
    &&& all_printable_ascii(st.1)
    &&& st.1.len() == st.2
    &&& st.2 <= max
}

proof fn lemma_ascii_state_break(st: WrapState, max: nat)
    requires
        ascii_wrap_state(st, max),
    ensures
        ascii_wrap_state((st.0.push(st.1), Seq::empty(), 0), max),
{
    let lines = st.0.push(st.1);
    assert forall|i: int| 0 <= i < lines.len() implies all_printable_ascii(#[trigger] lines[i])
        && lines[i].len() <= max by {
        if i < st.0.len() {
            assert(lines[i] == st.0[i]);
        }
    }
}

proof fn lemma_wrap_chars_ascii(st: WrapState, word: Seq<char>, max: nat)
    requires
        ascii_wrap_state(st, max),
        all_printable_ascii(word),
        max > 0,
    ensures
        ascii_wrap_state(wrap_chars(st, word, max), max),
    decreases word.len(),
{
    if word.len() > 0 {
        lemma_ascii_drop_last(word);
        lemma_wrap_chars_ascii(st, word.drop_last(), max);
        let pre = wrap_chars(st, word.drop_last(), max);
        let c = word.last();
        if pre.2 + 1 > max && pre.1.len() > 0 {
            lemma_ascii_state_break(pre, max);
            lemma_ascii_push(Seq::empty(), c);
        } else {
            lemma_ascii_push(pre.1, c);
        }
    }
}

proof fn lemma_wrap_word_ascii(st: WrapState, word: Seq<char>, max: nat)
    requires
        ascii_wrap_state(st, max),
        all_printable_ascii(word),
        max > 0,
    ensures
        ascii_wrap_state(wrap_word(st, word, max), max),
{
    let ww = text_width(word);
    assert(ww == word.len());
    if ww > max {
        if st.1.len() > 0 {
            lemma_ascii_state_break(st, max);
            lemma_wrap_chars_ascii((st.0.push(st.1), Seq::empty(), 0), word, max);
        } else {
            lemma_wrap_chars_ascii(st, word, max);
        }
    } else {
        let space: nat = if st.1.len() == 0 {
            0
        } else {
            1
        };
        if st.2 + space + ww <= max {
            if space == 1 {
                lemma_ascii_push(st.1, ' ');
                lemma_ascii_concat(st.1.push(' '), word);
            } else {
                lemma_ascii_concat(st.1, word);
            }
        } else {
            lemma_ascii_state_break(st, max);
        }
    }
}

proof fn lemma_wrap_words_ascii(ws: Seq<Seq<char>>, max: nat)
    requires
        forall|i: int| 0 <= i < ws.len() ==> all_printable_ascii(#[trigger] ws[i]),
        max > 0,
    ensures
        ascii_wrap_state(wrap_words(ws, max), max),
    decreases ws.len(),
{
    if ws.len() > 0 {
        assert forall|i: int| 0 <= i < ws.drop_last().len() implies all_printable_ascii(
            #[trigger] ws.drop_last()[i],
        ) by {
            assert(ws.drop_last()[i] == ws[i]);
        }
        lemma_wrap_words_ascii(ws.drop_last(), max);
        assert(all_printable_ascii(ws[ws.len() - 1]));
        lemma_wrap_word_ascii(wrap_words(ws.drop_last(), max), ws.last(), max);
    } else {
        assert(all_printable_ascii(Seq::<char>::empty()));
    }
}

proof fn lemma_words_ascii(s: Seq<char>)
    requires
        forall|k: int| 0 <= k < s.len() && !crate::text::is_ws(#[trigger] s[k]) ==> is_printable_ascii(s[k]),
    ensures
        forall|i: int| 0 <= i < words(s).len() ==> all_printable_ascii(#[trigger] words(s)[i]),
    decreases s.len(),
{
    if s.len() > 0 {
        let t = s.drop_last();
        assert forall|k: int| 0 <= k < t.len() && !crate::text::is_ws(#[trigger] t[k]) implies is_printable_ascii(t[k]) by {
            assert(t[k] == s[k]);
        }
        lemma_words_ascii(t);
        let pre = words(t);
        let c = s.last();
        assert(s[s.len() - 1] == c);
        if crate::text::is_ws(c) {
        } else if s.len() >= 2 && !crate::text::is_ws(s[s.len() - 2]) {
            assert(t.last() == s[s.len() - 2]);
            lemma_words_nonempty(t);
            let w = words(s);
            assert(all_printable_ascii(pre[pre.len() - 1]));
            lemma_ascii_push(pre.last(), c);
            assert forall|i: int| 0 <= i < w.len() implies all_printable_ascii(#[trigger] w[i]) by {
                if i < pre.len() - 1 {
                    assert(w[i] == pre[i]);
                }
            }
        } else {
            let w = words(s);
            lemma_ascii_push(Seq::empty(), c);
            assert(seq![c] =~= Seq::<char>::empty().push(c));
            assert forall|i: int| 0 <= i < w.len() implies all_printable_ascii(#[trigger] w[i]) by {
                if i < pre.len() {
                    assert(w[i] == pre[i]);
                }
            }
        }
    }
}

/// Every line that text is wrapped into fits the column: when the text's
/// non-whitespace characters are printable ASCII, each line is printable
/// ASCII and at most `max` columns wide.
pub proof fn lemma_wrapped_lines_fit(s: Seq<char>, max: nat)
    requires
        forall|k: int| 0 <= k < s.len() && !crate::text::is_ws(#[trigger] s[k]) ==> is_printable_ascii(s[k]),
    ensures
        forall|i: int|
            0 <= i < wrapped(s, max).len() ==> all_printable_ascii(#[trigger] wrapped(s, max)[i])
                && text_width(wrapped(s, max)[i]) <= max,
{
    let r = wrapped(s, max);
    if max == 0 || s.len() == 0 {
        assert(r[0] == Seq::<char>::empty());
    } else {
        lemma_words_ascii(s);
        lemma_wrap_words_ascii(words(s), max);
        let st = wrap_words(words(s), max);
        if st.1.len() > 0 || st.0.len() == 0 {
            lemma_ascii_state_break(st, max);
        }
    }
}

} // verus!

verus! {

// ---------------------------------------------------------------------------
// Home directory expansion
// ---------------------------------------------------------------------------

/// `path` with a leading `"~/"` expanded to `home`; unchanged when it does
/// not start with `"~/"` or no home directory is known.
pub open spec fn tilde_expanded(path: Seq<char>, home: Option<Seq<char>>) -> Seq<char> {
    if path.len() >= 2 && path[0] == '~' && path[1] == '/' && home is Some {
        home->0 + path.skip(1)
    } else {
        path
    }
}

/// Expands a leading `~/` in `path` with the given home directory.
pub fn expand_tilde_with(path: &str, home: Option<&str>) -> (r: String)
    ensures
        r@ == tilde_expanded(path@, match home {
            Some(h) => Some(h@),
            None => None,
        }),
{
    let cs = chars_of(path);
    if cs.len() >= 2 && cs[0] == '~' && cs[1] == '/' {
        if let Some(h) = home {
            let mut r = String::new();
            push_str(&mut r, h);
            let mut i: usize = 1;
            while i < cs.len()
                invariant
                    1 <= i <= cs@.len(),
                    r@ == h@ + cs@.subrange(1, i as int),
                decreases cs@.len() - i,
            {
                push_char(&mut r, cs[i]);
                assert(cs@.subrange(1, i + 1) =~= cs@.subrange(1, i as int).push(cs@[i as int]));
                i = i + 1;
            }
            assert(cs@.subrange(1, cs@.len() as int) =~= cs@.skip(1));
            return r;
        }
    }
    string_of(&cs)
}

} // verus!

verus! {

/// The display width of a string (`UnicodeWidthStr::width`).
pub fn display_width(s: &str) -> (w: usize)
    ensures
        w == text_width(s@),
{
    width_of_str(s)
}

} // verus!
