//! Colour schemes: reading colours from the configuration, the built-in
//! theme presets, and the scheme the interface is drawn with.

use vstd::prelude::*;
use crate::config::UiColorsConfig;
use crate::lyrics::{all_digits, digit_value, digits_value, is_digit};
use crate::text::{chars_of, split_chars, split_on, str_eq, to_lowercase, lowercase, trim, trim_chars, views};
use crate::text_input::{byte_len, char_index};

verus! {

/// A colour as red, green and blue.
#[derive(Debug, Clone, Copy, PartialEq, Eq, Structural)]
pub struct Rgb {
    pub r: u8,
    pub g: u8,
    pub b: u8,
}

/// White, the colour of text that names no colour.
pub open spec fn white() -> Rgb {
    Rgb { r: 255, g: 255, b: 255 }
}

/// The value of a hexadecimal digit.
pub open spec fn hex_val(c: char) -> Option<int> {
    if '0' <= c <= '9' {
        Some(c as int - '0' as int)
    } else if 'a' <= c <= 'f' {
        Some(c as int - 'a' as int + 10)
    } else if 'A' <= c <= 'F' {
        Some(c as int - 'A' as int + 10)
    } else {
        None
    }
}

/// Two characters read as a base-16 byte, as `u8::from_str_radix` reads
/// them: two digits, or `+` and one digit.
pub open spec fn hex_pair(a: char, b: char) -> Option<u8> {
    if a == '+' {
        match hex_val(b) {
            Some(v) => Some(v as u8),
            None => None,
        }
    } else {
        match (hex_val(a), hex_val(b)) {
            (Some(x), Some(y)) => Some((16 * x + y) as u8),
            _ => None,
        }
    }
}

/// `#RRGGBB`.
pub open spec fn hex_rgb(t: Seq<char>) -> Option<Rgb> {
    if t.len() == 7 && t[0] == '#' {
        match (hex_pair(t[1], t[2]), hex_pair(t[3], t[4]), hex_pair(t[5], t[6])) {
            (Some(r), Some(g), Some(b)) => Some(Rgb { r, g, b }),
            _ => None,
        }
    } else {
        None
    }
}

/// A decimal byte, as `u8::from_str` reads it: digits with an optional
/// leading `+`, at most 255.
pub open spec fn dec_u8(s: Seq<char>) -> Option<u8> {
    let d = if s.len() > 0 && s[0] == '+' { s.drop_first() } else { s };
    if d.len() > 0 && all_digits(d) && digits_value(d) <= 255 {
        Some(digits_value(d) as u8)
    } else {
        None
    }
}

/// `R, G, B`: three comma-separated decimal bytes.
pub open spec fn comma_rgb(t: Seq<char>) -> Option<Rgb> {
    let parts = split_on(t, ',');
    if parts.len() == 3 {
        match (dec_u8(trim(parts[0])), dec_u8(trim(parts[1])), dec_u8(trim(parts[2]))) {
            (Some(r), Some(g), Some(b)) => Some(Rgb { r, g, b }),
            _ => None,
        }
    } else {
        None
    }
}

/// The colour a text names (surrounding whitespace ignored): `#RRGGBB`,
/// else `R, G, B`, else white.
pub open spec fn parsed_color(s: Seq<char>) -> Rgb {
    let t = trim(s);
    match hex_rgb(t) {
        Some(c) => c,
        None => match comma_rgb(t) {
            Some(c) => c,
            None => white(),
        },
    }
}

/// Text whose hex reading does not cut a character apart: a trimmed text
/// that starts with `#` and is seven bytes long has character boundaries
/// at bytes 3 and 5.
#[verifier::opaque]
pub open spec fn color_text_ok(s: Seq<char>) -> bool {
    let t = trim(s);
    (t.len() > 0 && t[0] == '#' && byte_len(t) == 7) ==> (char_index(t, 3) >= 0 && char_index(t, 5) >= 0)
}

fn hex_val_of(c: char) -> (r: Option<u8>)
    ensures
        match r {
            Some(v) => hex_val(c) == Some(v as int),
            None => hex_val(c) is None,
        },
{
    if '0' <= c && c <= '9' {
        Some((c as u32 - '0' as u32) as u8)
    } else if 'a' <= c && c <= 'f' {
        Some((c as u32 - 'a' as u32 + 10) as u8)
    } else if 'A' <= c && c <= 'F' {
        Some((c as u32 - 'A' as u32 + 10) as u8)
    } else {
        None
    }
}

fn hex_pair_of(a: char, b: char) -> (r: Option<u8>)
    ensures
        r == hex_pair(a, b),
{
    if a == '+' {
        match hex_val_of(b) {
            Some(v) => Some(v),
            None => None,
        }
    } else {
        match (hex_val_of(a), hex_val_of(b)) {
            (Some(x), Some(y)) => Some(16 * x + y),
            _ => None,
        }
    }
}

fn dec_u8_of(s: &[char]) -> (r: Option<u8>)
    ensures
        r == dec_u8(s@),
{
    let start: usize = if s.len() > 0 && s[0] == '+' { 1 } else { 0 };
    let ghost d = if s@.len() > 0 && s@[0] == '+' { s@.drop_first() } else { s@ };
    assert(d =~= s@.skip(start as int));
    if start >= s.len() {
        return None;
    }
    let mut v: u32 = 0;
    let mut i: usize = start;
    assert(s@.subrange(start as int, start as int) =~= Seq::<char>::empty());
    while i < s.len()
        invariant
            start <= i <= s@.len(),
            d =~= s@.skip(start as int),
            d == (if s@.len() > 0 && s@[0] == '+' { s@.drop_first() } else { s@ }),
            v as nat == digits_value(s@.subrange(start as int, i as int)),
            v <= 255,
            all_digits(s@.subrange(start as int, i as int)),
        decreases s@.len() - i,
    {
        let c = s[i];
        let ghost pre = s@.subrange(start as int, i as int);
        let ghost now = s@.subrange(start as int, i + 1);
        assert(now.drop_last() =~= pre);
        assert(now.last() == c);
        if !('0' <= c && c <= '9') {
            assert(!all_digits(d)) by {
                assert(d[i - start] == c);
                assert(!is_digit(d[i - start]));
            }
            assert(dec_u8(s@) is None);
            return None;
        }
        let nv = v * 10 + (c as u32 - '0' as u32);
        assert(nv as nat == digits_value(now));
        assert(now =~= d.take(i + 1 - start));
        if nv > 255 {
            proof {
                if all_digits(d) {
                    lemma_digits_value_prefix(d, (i + 1 - start) as int);
                    assert(digits_value(d) > 255);
                }
            }
            assert(dec_u8(s@) is None);
            return None;
        }
        assert(all_digits(now)) by {
            assert forall|j: int| 0 <= j < now.len() implies is_digit(#[trigger] now[j]) by {
                if j < pre.len() {
                    assert(now[j] == pre[j]);
                }
            }
        }
        v = nv;
        i = i + 1;
    }
    assert(s@.subrange(start as int, s@.len() as int) =~= d);
    Some(v as u8)
}

proof fn lemma_digits_value_prefix(d: Seq<char>, k: int)
    requires
        0 <= k <= d.len(),
        all_digits(d),
    ensures
        digits_value(d.take(k)) <= digits_value(d),
    decreases d.len(),
{
    if k < d.len() {
        let p = d.drop_last();
        assert(all_digits(p)) by {
            assert forall|i: int| 0 <= i < p.len() implies is_digit(#[trigger] p[i]) by {
                assert(p[i] == d[i]);
            }
        }
        assert(d.take(k) =~= p.take(k));
        lemma_digits_value_prefix(p, k);
        assert(is_digit(d.last()));
    } else {
        assert(d.take(k) =~= d);
    }
}

/// Reads a colour from text: `#RRGGBB` or `R, G, B` (surrounding
/// whitespace ignored); anything else is white.
pub fn parse_color(color_str: &str) -> (c: Rgb)
    requires
        color_text_ok(color_str@),
    ensures
        c == parsed_color(color_str@),
{
    let t = trim_chars(chars_of(color_str).as_slice());
    if t.len() == 7 && t[0] == '#' {
        match (hex_pair_of(t[1], t[2]), hex_pair_of(t[3], t[4]), hex_pair_of(t[5], t[6])) {
            (Some(r), Some(g), Some(b)) => {
                return Rgb { r, g, b };
            },
            _ => {},
        }
    }
    let parts = split_chars(t.as_slice(), ',');
    assert(views(parts@) == split_on(t@, ','));
    if parts.len() == 3 {
        assert(parts@[0]@ == split_on(t@, ',')[0]);
        assert(parts@[1]@ == split_on(t@, ',')[1]);
        assert(parts@[2]@ == split_on(t@, ',')[2]);
        let p0 = trim_chars(parts[0].as_slice());
        let p1 = trim_chars(parts[1].as_slice());
        let p2 = trim_chars(parts[2].as_slice());
        match (dec_u8_of(p0.as_slice()), dec_u8_of(p1.as_slice()), dec_u8_of(p2.as_slice())) {
            (Some(r), Some(g), Some(b)) => {
                return Rgb { r, g, b };
            },
            _ => {},
        }
    }
    Rgb { r: 255, g: 255, b: 255 }
}

/// The colours the interface is drawn with.
#[derive(Debug, Clone, Copy, PartialEq, Eq, Structural)]
pub struct ColorScheme {
    pub foreground: Rgb,
    pub background: Rgb,
    pub accent: Rgb,
    pub accent2: Rgb,
    pub dim: Rgb,
    pub highlight: Rgb,
    pub playing: Rgb,
    pub header_bg: Rgb,
    pub selection_bg: Rgb,
    pub overlay_bg: Rgb,
    pub gauge_bg: Rgb,
    pub art_bg: Rgb,
    pub art_border: Rgb,
}

/// The colours of each theme preset, in preset order.
#[verifier::opaque]
pub open spec fn preset_table() -> Seq<ColorScheme> {
    seq![
        ColorScheme {
                foreground: Rgb { r: 205, g: 214, b: 244 },
                background: Rgb { r: 30, g: 30, b: 46 },
                accent: Rgb { r: 203, g: 166, b: 247 },
                accent2: Rgb { r: 180, g: 190, b: 254 },
                dim: Rgb { r: 127, g: 132, b: 156 },
                highlight: Rgb { r: 245, g: 194, b: 231 },
                playing: Rgb { r: 166, g: 227, b: 161 },
                header_bg: Rgb { r: 24, g: 24, b: 37 },
                selection_bg: Rgb { r: 49, g: 50, b: 68 },
                overlay_bg: Rgb { r: 17, g: 17, b: 27 },
                gauge_bg: Rgb { r: 69, g: 71, b: 90 },
                art_bg: Rgb { r: 30, g: 30, b: 46 },
                art_border: Rgb { r: 69, g: 71, b: 90 },
            },
        ColorScheme {
                foreground: Rgb { r: 76, g: 79, b: 105 },
                background: Rgb { r: 239, g: 241, b: 245 },
                accent: Rgb { r: 136, g: 57, b: 239 },
                accent2: Rgb { r: 114, g: 135, b: 253 },
                dim: Rgb { r: 140, g: 143, b: 161 },
                highlight: Rgb { r: 254, g: 100, b: 11 },
                playing: Rgb { r: 64, g: 160, b: 43 },
                header_bg: Rgb { r: 230, g: 233, b: 239 },
                selection_bg: Rgb { r: 204, g: 208, b: 218 },
                overlay_bg: Rgb { r: 220, g: 224, b: 232 },
                gauge_bg: Rgb { r: 188, g: 192, b: 204 },
                art_bg: Rgb { r: 239, g: 241, b: 245 },
                art_border: Rgb { r: 188, g: 192, b: 204 },
            },
        ColorScheme {
                foreground: Rgb { r: 198, g: 208, b: 245 },
                background: Rgb { r: 48, g: 52, b: 70 },
                accent: Rgb { r: 202, g: 158, b: 230 },
                accent2: Rgb { r: 186, g: 187, b: 241 },
                dim: Rgb { r: 131, g: 139, b: 167 },
                highlight: Rgb { r: 244, g: 184, b: 228 },
                playing: Rgb { r: 166, g: 209, b: 137 },
                header_bg: Rgb { r: 41, g: 44, b: 60 },
                selection_bg: Rgb { r: 65, g: 69, b: 89 },
                overlay_bg: Rgb { r: 35, g: 38, b: 52 },
                gauge_bg: Rgb { r: 81, g: 87, b: 109 },
                art_bg: Rgb { r: 48, g: 52, b: 70 },
                art_border: Rgb { r: 81, g: 87, b: 109 },
            },
        ColorScheme {
                foreground: Rgb { r: 202, g: 211, b: 245 },
                background: Rgb { r: 36, g: 39, b: 58 },
                accent: Rgb { r: 198, g: 160, b: 246 },
                accent2: Rgb { r: 183, g: 189, b: 248 },
                dim: Rgb { r: 128, g: 135, b: 162 },
                highlight: Rgb { r: 245, g: 189, b: 230 },
                playing: Rgb { r: 166, g: 218, b: 149 },
                header_bg: Rgb { r: 30, g: 32, b: 48 },
                selection_bg: Rgb { r: 54, g: 58, b: 79 },
                overlay_bg: Rgb { r: 24, g: 25, b: 38 },
                gauge_bg: Rgb { r: 73, g: 77, b: 100 },
                art_bg: Rgb { r: 36, g: 39, b: 58 },
                art_border: Rgb { r: 73, g: 77, b: 100 },
            },
        ColorScheme {
                foreground: Rgb { r: 216, g: 222, b: 233 },
                background: Rgb { r: 46, g: 52, b: 64 },
                accent: Rgb { r: 136, g: 192, b: 208 },
                accent2: Rgb { r: 129, g: 161, b: 193 },
                dim: Rgb { r: 76, g: 86, b: 106 },
                highlight: Rgb { r: 235, g: 203, b: 139 },
                playing: Rgb { r: 163, g: 190, b: 140 },
                header_bg: Rgb { r: 59, g: 66, b: 82 },
                selection_bg: Rgb { r: 67, g: 76, b: 94 },
                overlay_bg: Rgb { r: 36, g: 41, b: 51 },
                gauge_bg: Rgb { r: 59, g: 66, b: 82 },
                art_bg: Rgb { r: 46, g: 52, b: 64 },
                art_border: Rgb { r: 67, g: 76, b: 94 },
            },
        ColorScheme {
                foreground: Rgb { r: 248, g: 248, b: 242 },
                background: Rgb { r: 40, g: 42, b: 54 },
                accent: Rgb { r: 189, g: 147, b: 249 },
                accent2: Rgb { r: 255, g: 121, b: 198 },
                dim: Rgb { r: 98, g: 114, b: 164 },
                highlight: Rgb { r: 241, g: 250, b: 140 },
                playing: Rgb { r: 80, g: 250, b: 123 },
                header_bg: Rgb { r: 68, g: 71, b: 90 },
                selection_bg: Rgb { r: 68, g: 71, b: 90 },
                overlay_bg: Rgb { r: 33, g: 34, b: 44 },
                gauge_bg: Rgb { r: 68, g: 71, b: 90 },
                art_bg: Rgb { r: 40, g: 42, b: 54 },
                art_border: Rgb { r: 68, g: 71, b: 90 },
            },
        ColorScheme {
                foreground: Rgb { r: 235, g: 219, b: 178 },
                background: Rgb { r: 40, g: 40, b: 40 },
                accent: Rgb { r: 254, g: 128, b: 25 },
                accent2: Rgb { r: 250, g: 189, b: 47 },
                dim: Rgb { r: 168, g: 153, b: 132 },
                highlight: Rgb { r: 250, g: 189, b: 47 },
                playing: Rgb { r: 184, g: 187, b: 38 },
                header_bg: Rgb { r: 60, g: 56, b: 54 },
                selection_bg: Rgb { r: 80, g: 73, b: 69 },
                overlay_bg: Rgb { r: 29, g: 32, b: 33 },
                gauge_bg: Rgb { r: 60, g: 56, b: 54 },
                art_bg: Rgb { r: 40, g: 40, b: 40 },
                art_border: Rgb { r: 80, g: 73, b: 69 },
            },
        ColorScheme {
                foreground: Rgb { r: 60, g: 56, b: 54 },
                background: Rgb { r: 251, g: 241, b: 199 },
                accent: Rgb { r: 175, g: 58, b: 3 },
                accent2: Rgb { r: 181, g: 118, b: 20 },
                dim: Rgb { r: 146, g: 131, b: 116 },
                highlight: Rgb { r: 181, g: 118, b: 20 },
                playing: Rgb { r: 121, g: 116, b: 14 },
                header_bg: Rgb { r: 242, g: 229, b: 188 },
                selection_bg: Rgb { r: 213, g: 196, b: 161 },
                overlay_bg: Rgb { r: 249, g: 245, b: 215 },
                gauge_bg: Rgb { r: 235, g: 219, b: 178 },
                art_bg: Rgb { r: 251, g: 241, b: 199 },
                art_border: Rgb { r: 213, g: 196, b: 161 },
            },
        ColorScheme {
                foreground: Rgb { r: 224, g: 222, b: 244 },
                background: Rgb { r: 25, g: 23, b: 36 },
                accent: Rgb { r: 235, g: 111, b: 146 },
                accent2: Rgb { r: 235, g: 188, b: 186 },
                dim: Rgb { r: 110, g: 106, b: 134 },
                highlight: Rgb { r: 246, g: 193, b: 119 },
                playing: Rgb { r: 156, g: 207, b: 216 },
                header_bg: Rgb { r: 31, g: 29, b: 46 },
                selection_bg: Rgb { r: 38, g: 35, b: 58 },
                overlay_bg: Rgb { r: 25, g: 23, b: 36 },
                gauge_bg: Rgb { r: 31, g: 29, b: 46 },
                art_bg: Rgb { r: 25, g: 23, b: 36 },
                art_border: Rgb { r: 31, g: 29, b: 46 },
            },
        ColorScheme {
                foreground: Rgb { r: 70, g: 66, b: 97 },
                background: Rgb { r: 250, g: 244, b: 237 },
                accent: Rgb { r: 180, g: 99, b: 122 },
                accent2: Rgb { r: 215, g: 130, b: 126 },
                dim: Rgb { r: 152, g: 147, b: 165 },
                highlight: Rgb { r: 234, g: 157, b: 52 },
                playing: Rgb { r: 86, g: 148, b: 159 },
                header_bg: Rgb { r: 255, g: 250, b: 243 },
                selection_bg: Rgb { r: 242, g: 233, b: 225 },
                overlay_bg: Rgb { r: 250, g: 244, b: 237 },
                gauge_bg: Rgb { r: 242, g: 233, b: 225 },
                art_bg: Rgb { r: 250, g: 244, b: 237 },
                art_border: Rgb { r: 242, g: 233, b: 225 },
            },
        ColorScheme {
                foreground: Rgb { r: 192, g: 202, b: 245 },
                background: Rgb { r: 26, g: 27, b: 38 },
                accent: Rgb { r: 122, g: 162, b: 247 },
                accent2: Rgb { r: 187, g: 154, b: 247 },
                dim: Rgb { r: 86, g: 95, b: 137 },
                highlight: Rgb { r: 224, g: 175, b: 104 },
                playing: Rgb { r: 158, g: 206, b: 106 },
                header_bg: Rgb { r: 22, g: 22, b: 30 },
                selection_bg: Rgb { r: 40, g: 52, b: 87 },
                overlay_bg: Rgb { r: 19, g: 19, b: 26 },
                gauge_bg: Rgb { r: 41, g: 46, b: 66 },
                art_bg: Rgb { r: 26, g: 27, b: 38 },
                art_border: Rgb { r: 41, g: 46, b: 66 },
            },
        ColorScheme {
                foreground: Rgb { r: 192, g: 202, b: 245 },
                background: Rgb { r: 36, g: 40, b: 59 },
                accent: Rgb { r: 122, g: 162, b: 247 },
                accent2: Rgb { r: 187, g: 154, b: 247 },
                dim: Rgb { r: 86, g: 95, b: 137 },
                highlight: Rgb { r: 224, g: 175, b: 104 },
                playing: Rgb { r: 158, g: 206, b: 106 },
                header_bg: Rgb { r: 31, g: 35, b: 53 },
                selection_bg: Rgb { r: 46, g: 60, b: 100 },
                overlay_bg: Rgb { r: 26, g: 27, b: 46 },
                gauge_bg: Rgb { r: 59, g: 66, b: 97 },
                art_bg: Rgb { r: 36, g: 40, b: 59 },
                art_border: Rgb { r: 59, g: 66, b: 97 },
            },
        ColorScheme {
                foreground: Rgb { r: 55, g: 96, b: 191 },
                background: Rgb { r: 225, g: 226, b: 231 },
                accent: Rgb { r: 46, g: 125, b: 233 },
                accent2: Rgb { r: 152, g: 84, b: 241 },
                dim: Rgb { r: 132, g: 140, b: 181 },
                highlight: Rgb { r: 140, g: 108, b: 62 },
                playing: Rgb { r: 88, g: 117, b: 57 },
                header_bg: Rgb { r: 208, g: 213, b: 227 },
                selection_bg: Rgb { r: 196, g: 200, b: 218 },
                overlay_bg: Rgb { r: 203, g: 204, b: 214 },
                gauge_bg: Rgb { r: 196, g: 200, b: 218 },
                art_bg: Rgb { r: 225, g: 226, b: 231 },
                art_border: Rgb { r: 196, g: 200, b: 218 },
            },
        ColorScheme {
                foreground: Rgb { r: 131, g: 148, b: 150 },
                background: Rgb { r: 0, g: 43, b: 54 },
                accent: Rgb { r: 38, g: 139, b: 210 },
                accent2: Rgb { r: 42, g: 161, b: 152 },
                dim: Rgb { r: 88, g: 110, b: 117 },
                highlight: Rgb { r: 181, g: 137, b: 0 },
                playing: Rgb { r: 133, g: 153, b: 0 },
                header_bg: Rgb { r: 7, g: 54, b: 66 },
                selection_bg: Rgb { r: 7, g: 54, b: 66 },
                overlay_bg: Rgb { r: 0, g: 31, b: 39 },
                gauge_bg: Rgb { r: 7, g: 54, b: 66 },
                art_bg: Rgb { r: 0, g: 43, b: 54 },
                art_border: Rgb { r: 7, g: 54, b: 66 },
            },
        ColorScheme {
                foreground: Rgb { r: 101, g: 123, b: 131 },
                background: Rgb { r: 253, g: 246, b: 227 },
                accent: Rgb { r: 38, g: 139, b: 210 },
                accent2: Rgb { r: 42, g: 161, b: 152 },
                dim: Rgb { r: 147, g: 161, b: 161 },
                highlight: Rgb { r: 181, g: 137, b: 0 },
                playing: Rgb { r: 133, g: 153, b: 0 },
                header_bg: Rgb { r: 238, g: 232, b: 213 },
                selection_bg: Rgb { r: 238, g: 232, b: 213 },
                overlay_bg: Rgb { r: 245, g: 240, b: 228 },
                gauge_bg: Rgb { r: 238, g: 232, b: 213 },
                art_bg: Rgb { r: 253, g: 246, b: 227 },
                art_border: Rgb { r: 238, g: 232, b: 213 },
            },
        ColorScheme {
                foreground: Rgb { r: 171, g: 178, b: 191 },
                background: Rgb { r: 40, g: 44, b: 52 },
                accent: Rgb { r: 97, g: 175, b: 239 },
                accent2: Rgb { r: 198, g: 120, b: 221 },
                dim: Rgb { r: 92, g: 99, b: 112 },
                highlight: Rgb { r: 229, g: 192, b: 123 },
                playing: Rgb { r: 152, g: 195, b: 121 },
                header_bg: Rgb { r: 33, g: 37, b: 43 },
                selection_bg: Rgb { r: 62, g: 68, b: 81 },
                overlay_bg: Rgb { r: 29, g: 32, b: 38 },
                gauge_bg: Rgb { r: 49, g: 53, b: 63 },
                art_bg: Rgb { r: 40, g: 44, b: 52 },
                art_border: Rgb { r: 62, g: 68, b: 81 },
            },
        ColorScheme {
                foreground: Rgb { r: 248, g: 248, b: 242 },
                background: Rgb { r: 39, g: 40, b: 34 },
                accent: Rgb { r: 249, g: 38, b: 114 },
                accent2: Rgb { r: 174, g: 129, b: 255 },
                dim: Rgb { r: 117, g: 113, b: 94 },
                highlight: Rgb { r: 230, g: 219, b: 116 },
                playing: Rgb { r: 166, g: 226, b: 46 },
                header_bg: Rgb { r: 30, g: 31, b: 28 },
                selection_bg: Rgb { r: 73, g: 72, b: 62 },
                overlay_bg: Rgb { r: 26, g: 27, b: 25 },
                gauge_bg: Rgb { r: 60, g: 61, b: 55 },
                art_bg: Rgb { r: 39, g: 40, b: 34 },
                art_border: Rgb { r: 60, g: 61, b: 55 },
            },
        ColorScheme {
                foreground: Rgb { r: 220, g: 215, b: 186 },
                background: Rgb { r: 31, g: 31, b: 40 },
                accent: Rgb { r: 126, g: 156, b: 216 },
                accent2: Rgb { r: 149, g: 127, b: 184 },
                dim: Rgb { r: 114, g: 113, b: 105 },
                highlight: Rgb { r: 230, g: 195, b: 132 },
                playing: Rgb { r: 152, g: 187, b: 108 },
                header_bg: Rgb { r: 22, g: 22, b: 29 },
                selection_bg: Rgb { r: 45, g: 79, b: 103 },
                overlay_bg: Rgb { r: 22, g: 22, b: 29 },
                gauge_bg: Rgb { r: 34, g: 50, b: 73 },
                art_bg: Rgb { r: 31, g: 31, b: 40 },
                art_border: Rgb { r: 42, g: 42, b: 55 },
            },
        ColorScheme {
                foreground: Rgb { r: 211, g: 198, b: 170 },
                background: Rgb { r: 45, g: 53, b: 59 },
                accent: Rgb { r: 127, g: 187, b: 179 },
                accent2: Rgb { r: 214, g: 153, b: 182 },
                dim: Rgb { r: 133, g: 146, b: 137 },
                highlight: Rgb { r: 219, g: 188, b: 127 },
                playing: Rgb { r: 167, g: 192, b: 128 },
                header_bg: Rgb { r: 52, g: 63, b: 68 },
                selection_bg: Rgb { r: 61, g: 72, b: 77 },
                overlay_bg: Rgb { r: 35, g: 42, b: 46 },
                gauge_bg: Rgb { r: 71, g: 82, b: 88 },
                art_bg: Rgb { r: 45, g: 53, b: 59 },
                art_border: Rgb { r: 71, g: 82, b: 88 },
            },
        ColorScheme {
                foreground: Rgb { r: 230, g: 225, b: 207 },
                background: Rgb { r: 15, g: 20, b: 25 },
                accent: Rgb { r: 255, g: 180, b: 84 },
                accent2: Rgb { r: 54, g: 163, b: 217 },
                dim: Rgb { r: 92, g: 103, b: 115 },
                highlight: Rgb { r: 230, g: 182, b: 115 },
                playing: Rgb { r: 184, g: 204, b: 82 },
                header_bg: Rgb { r: 20, g: 25, b: 31 },
                selection_bg: Rgb { r: 37, g: 51, b: 64 },
                overlay_bg: Rgb { r: 20, g: 25, b: 31 },
                gauge_bg: Rgb { r: 21, g: 26, b: 30 },
                art_bg: Rgb { r: 15, g: 20, b: 25 },
                art_border: Rgb { r: 45, g: 54, b: 64 },
            },
        ColorScheme {
                foreground: Rgb { r: 217, g: 215, b: 206 },
                background: Rgb { r: 33, g: 39, b: 51 },
                accent: Rgb { r: 255, g: 213, b: 127 },
                accent2: Rgb { r: 92, g: 207, b: 230 },
                dim: Rgb { r: 92, g: 103, b: 115 },
                highlight: Rgb { r: 255, g: 196, b: 76 },
                playing: Rgb { r: 186, g: 230, b: 126 },
                header_bg: Rgb { r: 39, g: 45, b: 56 },
                selection_bg: Rgb { r: 52, g: 63, b: 76 },
                overlay_bg: Rgb { r: 22, g: 27, b: 34 },
                gauge_bg: Rgb { r: 36, g: 43, b: 56 },
                art_bg: Rgb { r: 33, g: 39, b: 51 },
                art_border: Rgb { r: 61, g: 71, b: 81 },
            },
        ColorScheme {
                foreground: Rgb { r: 197, g: 200, b: 198 },
                background: Rgb { r: 29, g: 31, b: 33 },
                accent: Rgb { r: 129, g: 162, b: 190 },
                accent2: Rgb { r: 178, g: 148, b: 187 },
                dim: Rgb { r: 150, g: 152, b: 150 },
                highlight: Rgb { r: 240, g: 198, b: 116 },
                playing: Rgb { r: 181, g: 189, b: 104 },
                header_bg: Rgb { r: 40, g: 42, b: 46 },
                selection_bg: Rgb { r: 55, g: 59, b: 65 },
                overlay_bg: Rgb { r: 20, g: 22, b: 26 },
                gauge_bg: Rgb { r: 40, g: 42, b: 46 },
                art_bg: Rgb { r: 29, g: 31, b: 33 },
                art_border: Rgb { r: 55, g: 59, b: 65 },
            },
        ColorScheme {
                foreground: Rgb { r: 242, g: 244, b: 248 },
                background: Rgb { r: 22, g: 22, b: 22 },
                accent: Rgb { r: 120, g: 169, b: 255 },
                accent2: Rgb { r: 190, g: 149, b: 255 },
                dim: Rgb { r: 92, g: 92, b: 92 },
                highlight: Rgb { r: 8, g: 189, b: 186 },
                playing: Rgb { r: 66, g: 190, b: 101 },
                header_bg: Rgb { r: 42, g: 42, b: 42 },
                selection_bg: Rgb { r: 64, g: 64, b: 64 },
                overlay_bg: Rgb { r: 19, g: 19, b: 19 },
                gauge_bg: Rgb { r: 42, g: 42, b: 42 },
                art_bg: Rgb { r: 22, g: 22, b: 22 },
                art_border: Rgb { r: 57, g: 57, b: 57 },
            },
        ColorScheme {
                foreground: Rgb { r: 205, g: 206, b: 207 },
                background: Rgb { r: 25, g: 35, b: 48 },
                accent: Rgb { r: 113, g: 156, b: 214 },
                accent2: Rgb { r: 157, g: 121, b: 214 },
                dim: Rgb { r: 115, g: 128, b: 145 },
                highlight: Rgb { r: 219, g: 192, b: 116 },
                playing: Rgb { r: 129, g: 178, b: 154 },
                header_bg: Rgb { r: 19, g: 26, b: 36 },
                selection_bg: Rgb { r: 43, g: 59, b: 81 },
                overlay_bg: Rgb { r: 19, g: 26, b: 36 },
                gauge_bg: Rgb { r: 33, g: 46, b: 63 },
                art_bg: Rgb { r: 25, g: 35, b: 48 },
                art_border: Rgb { r: 43, g: 59, b: 81 },
            },
        ColorScheme {
                foreground: Rgb { r: 238, g: 255, b: 255 },
                background: Rgb { r: 38, g: 50, b: 56 },
                accent: Rgb { r: 137, g: 221, b: 255 },
                accent2: Rgb { r: 199, g: 146, b: 234 },
                dim: Rgb { r: 84, g: 110, b: 122 },
                highlight: Rgb { r: 255, g: 203, b: 107 },
                playing: Rgb { r: 195, g: 232, b: 141 },
                header_bg: Rgb { r: 30, g: 39, b: 44 },
                selection_bg: Rgb { r: 49, g: 69, b: 73 },
                overlay_bg: Rgb { r: 26, g: 35, b: 39 },
                gauge_bg: Rgb { r: 46, g: 60, b: 67 },
                art_bg: Rgb { r: 38, g: 50, b: 56 },
                art_border: Rgb { r: 49, g: 69, b: 73 },
            },
        ColorScheme {
                foreground: Rgb { r: 191, g: 199, b: 213 },
                background: Rgb { r: 41, g: 45, b: 62 },
                accent: Rgb { r: 199, g: 146, b: 234 },
                accent2: Rgb { r: 130, g: 177, b: 255 },
                dim: Rgb { r: 105, g: 112, b: 152 },
                highlight: Rgb { r: 255, g: 203, b: 107 },
                playing: Rgb { r: 195, g: 232, b: 141 },
                header_bg: Rgb { r: 37, g: 40, b: 55 },
                selection_bg: Rgb { r: 62, g: 68, b: 82 },
                overlay_bg: Rgb { r: 30, g: 33, b: 48 },
                gauge_bg: Rgb { r: 50, g: 55, b: 77 },
                art_bg: Rgb { r: 41, g: 45, b: 62 },
                art_border: Rgb { r: 52, g: 57, b: 79 },
            },
        ColorScheme {
                foreground: Rgb { r: 255, g: 255, b: 255 },
                background: Rgb { r: 38, g: 35, b: 53 },
                accent: Rgb { r: 255, g: 126, b: 219 },
                accent2: Rgb { r: 3, g: 237, b: 249 },
                dim: Rgb { r: 132, g: 139, b: 189 },
                highlight: Rgb { r: 254, g: 222, b: 93 },
                playing: Rgb { r: 114, g: 241, b: 184 },
                header_bg: Rgb { r: 36, g: 27, b: 46 },
                selection_bg: Rgb { r: 61, g: 59, b: 110 },
                overlay_bg: Rgb { r: 26, g: 22, b: 49 },
                gauge_bg: Rgb { r: 52, g: 41, b: 79 },
                art_bg: Rgb { r: 38, g: 35, b: 53 },
                art_border: Rgb { r: 52, g: 41, b: 79 },
            },
        ColorScheme {
                foreground: Rgb { r: 255, g: 255, b: 255 },
                background: Rgb { r: 22, g: 24, b: 26 },
                accent: Rgb { r: 255, g: 94, b: 160 },
                accent2: Rgb { r: 255, g: 94, b: 241 },
                dim: Rgb { r: 123, g: 132, b: 150 },
                highlight: Rgb { r: 241, g: 255, b: 94 },
                playing: Rgb { r: 94, g: 255, b: 108 },
                header_bg: Rgb { r: 30, g: 33, b: 36 },
                selection_bg: Rgb { r: 60, g: 64, b: 72 },
                overlay_bg: Rgb { r: 17, g: 19, b: 21 },
                gauge_bg: Rgb { r: 30, g: 33, b: 36 },
                art_bg: Rgb { r: 22, g: 24, b: 26 },
                art_border: Rgb { r: 60, g: 64, b: 72 },
            },
        ColorScheme {
                foreground: Rgb { r: 213, g: 216, b: 218 },
                background: Rgb { r: 28, g: 30, b: 38 },
                accent: Rgb { r: 233, g: 86, b: 120 },
                accent2: Rgb { r: 184, g: 119, b: 219 },
                dim: Rgb { r: 108, g: 111, b: 147 },
                highlight: Rgb { r: 250, g: 183, b: 149 },
                playing: Rgb { r: 9, g: 247, b: 160 },
                header_bg: Rgb { r: 23, g: 23, b: 27 },
                selection_bg: Rgb { r: 39, g: 44, b: 66 },
                overlay_bg: Rgb { r: 23, g: 23, b: 27 },
                gauge_bg: Rgb { r: 46, g: 48, b: 62 },
                art_bg: Rgb { r: 28, g: 30, b: 38 },
                art_border: Rgb { r: 46, g: 48, b: 62 },
            },
        ColorScheme {
                foreground: Rgb { r: 228, g: 240, b: 251 },
                background: Rgb { r: 27, g: 30, b: 40 },
                accent: Rgb { r: 208, g: 103, b: 157 },
                accent2: Rgb { r: 93, g: 228, b: 199 },
                dim: Rgb { r: 118, g: 124, b: 157 },
                highlight: Rgb { r: 255, g: 250, b: 194 },
                playing: Rgb { r: 95, g: 179, b: 161 },
                header_bg: Rgb { r: 23, g: 25, b: 34 },
                selection_bg: Rgb { r: 48, g: 51, b: 64 },
                overlay_bg: Rgb { r: 20, g: 23, b: 32 },
                gauge_bg: Rgb { r: 48, g: 51, b: 64 },
                art_bg: Rgb { r: 27, g: 30, b: 40 },
                art_border: Rgb { r: 48, g: 51, b: 64 },
            },
        ColorScheme {
                foreground: Rgb { r: 248, g: 248, b: 242 },
                background: Rgb { r: 90, g: 84, b: 117 },
                accent: Rgb { r: 255, g: 184, b: 209 },
                accent2: Rgb { r: 197, g: 163, b: 255 },
                dim: Rgb { r: 161, g: 155, b: 187 },
                highlight: Rgb { r: 255, g: 243, b: 82 },
                playing: Rgb { r: 194, g: 255, b: 223 },
                header_bg: Rgb { r: 76, g: 68, b: 104 },
                selection_bg: Rgb { r: 107, g: 97, b: 142 },
                overlay_bg: Rgb { r: 62, g: 58, b: 84 },
                gauge_bg: Rgb { r: 107, g: 97, b: 142 },
                art_bg: Rgb { r: 90, g: 84, b: 117 },
                art_border: Rgb { r: 107, g: 97, b: 142 },
            },
        ColorScheme {
                foreground: Rgb { r: 201, g: 199, b: 205 },
                background: Rgb { r: 22, g: 22, b: 23 },
                accent: Rgb { r: 234, g: 131, b: 165 },
                accent2: Rgb { r: 226, g: 158, b: 202 },
                dim: Rgb { r: 117, g: 117, b: 129 },
                highlight: Rgb { r: 230, g: 185, b: 157 },
                playing: Rgb { r: 144, g: 185, b: 159 },
                header_bg: Rgb { r: 19, g: 19, b: 20 },
                selection_bg: Rgb { r: 42, g: 42, b: 45 },
                overlay_bg: Rgb { r: 24, g: 24, b: 26 },
                gauge_bg: Rgb { r: 39, g: 39, b: 42 },
                art_bg: Rgb { r: 22, g: 22, b: 23 },
                art_border: Rgb { r: 39, g: 39, b: 42 },
            },
        ColorScheme {
                foreground: Rgb { r: 255, g: 224, b: 240 },
                background: Rgb { r: 26, g: 8, b: 24 },
                accent: Rgb { r: 255, g: 20, b: 147 },
                accent2: Rgb { r: 255, g: 105, b: 180 },
                dim: Rgb { r: 194, g: 77, b: 130 },
                highlight: Rgb { r: 255, g: 133, b: 194 },
                playing: Rgb { r: 255, g: 0, b: 110 },
                header_bg: Rgb { r: 42, g: 10, b: 32 },
                selection_bg: Rgb { r: 74, g: 21, b: 53 },
                overlay_bg: Rgb { r: 18, g: 6, b: 20 },
                gauge_bg: Rgb { r: 58, g: 16, b: 48 },
                art_bg: Rgb { r: 26, g: 8, b: 24 },
                art_border: Rgb { r: 74, g: 21, b: 53 },
            },
        ColorScheme {
                foreground: Rgb { r: 122, g: 0, b: 64 },
                background: Rgb { r: 255, g: 240, b: 248 },
                accent: Rgb { r: 255, g: 20, b: 147 },
                accent2: Rgb { r: 204, g: 0, b: 102 },
                dim: Rgb { r: 212, g: 96, b: 138 },
                highlight: Rgb { r: 255, g: 0, b: 110 },
                playing: Rgb { r: 230, g: 0, b: 115 },
                header_bg: Rgb { r: 255, g: 214, b: 237 },
                selection_bg: Rgb { r: 255, g: 179, b: 217 },
                overlay_bg: Rgb { r: 255, g: 232, b: 245 },
                gauge_bg: Rgb { r: 255, g: 179, b: 217 },
                art_bg: Rgb { r: 255, g: 240, b: 248 },
                art_border: Rgb { r: 255, g: 179, b: 217 },
            },
    ]
}

/// The preset a (lower-cased) theme name selects, by position in
/// [`preset_table`].
#[verifier::opaque]
pub open spec fn preset_id(name: Seq<char>) -> Option<int> {
    if name == "catppuccin"@ || name == "catppuccin-mocha"@ {
        Some(0)
    } else if name == "catppuccin-latte"@ {
        Some(1)
    } else if name == "catppuccin-frappe"@ {
        Some(2)
    } else if name == "catppuccin-macchiato"@ {
        Some(3)
    } else if name == "nord"@ {
        Some(4)
    } else if name == "dracula"@ {
        Some(5)
    } else if name == "gruvbox"@ || name == "gruvbox-dark"@ {
        Some(6)
    } else if name == "gruvbox-light"@ {
        Some(7)
    } else if name == "rose-pine"@ || name == "rose-pine-main"@ {
        Some(8)
    } else if name == "rose-pine-dawn"@ {
        Some(9)
    } else if name == "tokyo-night"@ {
        Some(10)
    } else if name == "tokyo-night-storm"@ {
        Some(11)
    } else if name == "tokyo-night-light"@ {
        Some(12)
    } else if name == "solarized"@ || name == "solarized-dark"@ {
        Some(13)
    } else if name == "solarized-light"@ {
        Some(14)
    } else if name == "one-dark"@ || name == "onedark"@ {
        Some(15)
    } else if name == "monokai"@ {
        Some(16)
    } else if name == "kanagawa"@ || name == "kanagawa-wave"@ {
        Some(17)
    } else if name == "everforest"@ || name == "everforest-dark"@ {
        Some(18)
    } else if name == "ayu"@ || name == "ayu-dark"@ {
        Some(19)
    } else if name == "ayu-mirage"@ {
        Some(20)
    } else if name == "tomorrow-night"@ {
        Some(21)
    } else if name == "oxocarbon"@ {
        Some(22)
    } else if name == "nightfox"@ {
        Some(23)
    } else if name == "material"@ || name == "material-dark"@ {
        Some(24)
    } else if name == "palenight"@ || name == "material-palenight"@ {
        Some(25)
    } else if name == "synthwave84"@ || name == "synthwave-84"@ || name == "synthwave"@ {
        Some(26)
    } else if name == "cyberdream"@ {
        Some(27)
    } else if name == "horizon"@ {
        Some(28)
    } else if name == "poimandres"@ {
        Some(29)
    } else if name == "fairy-floss"@ || name == "fairyfloss"@ {
        Some(30)
    } else if name == "mellow"@ {
        Some(31)
    } else if name == "girlypop"@ || name == "girlypop-dark"@ {
        Some(32)
    } else if name == "girlypop-light"@ {
        Some(33)
    } else {
        None
    }
}

fn preset_of(i: usize) -> (p: ColorScheme)
    requires
        i < preset_table().len(),
    ensures
        p == preset_table()[i as int],
{
    proof {
        reveal(preset_table);
    }
    match i {
        0 => ColorScheme {
                foreground: Rgb { r: 205, g: 214, b: 244 },
                background: Rgb { r: 30, g: 30, b: 46 },
                accent: Rgb { r: 203, g: 166, b: 247 },
                accent2: Rgb { r: 180, g: 190, b: 254 },
                dim: Rgb { r: 127, g: 132, b: 156 },
                highlight: Rgb { r: 245, g: 194, b: 231 },
                playing: Rgb { r: 166, g: 227, b: 161 },
                header_bg: Rgb { r: 24, g: 24, b: 37 },
                selection_bg: Rgb { r: 49, g: 50, b: 68 },
                overlay_bg: Rgb { r: 17, g: 17, b: 27 },
                gauge_bg: Rgb { r: 69, g: 71, b: 90 },
                art_bg: Rgb { r: 30, g: 30, b: 46 },
                art_border: Rgb { r: 69, g: 71, b: 90 },
            },
        1 => ColorScheme {
                foreground: Rgb { r: 76, g: 79, b: 105 },
                background: Rgb { r: 239, g: 241, b: 245 },
                accent: Rgb { r: 136, g: 57, b: 239 },
                accent2: Rgb { r: 114, g: 135, b: 253 },
                dim: Rgb { r: 140, g: 143, b: 161 },
                highlight: Rgb { r: 254, g: 100, b: 11 },
                playing: Rgb { r: 64, g: 160, b: 43 },
                header_bg: Rgb { r: 230, g: 233, b: 239 },
                selection_bg: Rgb { r: 204, g: 208, b: 218 },
                overlay_bg: Rgb { r: 220, g: 224, b: 232 },
                gauge_bg: Rgb { r: 188, g: 192, b: 204 },
                art_bg: Rgb { r: 239, g: 241, b: 245 },
                art_border: Rgb { r: 188, g: 192, b: 204 },
            },
        2 => ColorScheme {
                foreground: Rgb { r: 198, g: 208, b: 245 },
                background: Rgb { r: 48, g: 52, b: 70 },
                accent: Rgb { r: 202, g: 158, b: 230 },
                accent2: Rgb { r: 186, g: 187, b: 241 },
                dim: Rgb { r: 131, g: 139, b: 167 },
                highlight: Rgb { r: 244, g: 184, b: 228 },
                playing: Rgb { r: 166, g: 209, b: 137 },
                header_bg: Rgb { r: 41, g: 44, b: 60 },
                selection_bg: Rgb { r: 65, g: 69, b: 89 },
                overlay_bg: Rgb { r: 35, g: 38, b: 52 },
                gauge_bg: Rgb { r: 81, g: 87, b: 109 },
                art_bg: Rgb { r: 48, g: 52, b: 70 },
                art_border: Rgb { r: 81, g: 87, b: 109 },
            },
        3 => ColorScheme {
                foreground: Rgb { r: 202, g: 211, b: 245 },
                background: Rgb { r: 36, g: 39, b: 58 },
                accent: Rgb { r: 198, g: 160, b: 246 },
                accent2: Rgb { r: 183, g: 189, b: 248 },
                dim: Rgb { r: 128, g: 135, b: 162 },
                highlight: Rgb { r: 245, g: 189, b: 230 },
                playing: Rgb { r: 166, g: 218, b: 149 },
                header_bg: Rgb { r: 30, g: 32, b: 48 },
                selection_bg: Rgb { r: 54, g: 58, b: 79 },
                overlay_bg: Rgb { r: 24, g: 25, b: 38 },
                gauge_bg: Rgb { r: 73, g: 77, b: 100 },
                art_bg: Rgb { r: 36, g: 39, b: 58 },
                art_border: Rgb { r: 73, g: 77, b: 100 },
            },
        4 => ColorScheme {
                foreground: Rgb { r: 216, g: 222, b: 233 },
                background: Rgb { r: 46, g: 52, b: 64 },
                accent: Rgb { r: 136, g: 192, b: 208 },
                accent2: Rgb { r: 129, g: 161, b: 193 },
                dim: Rgb { r: 76, g: 86, b: 106 },
                highlight: Rgb { r: 235, g: 203, b: 139 },
                playing: Rgb { r: 163, g: 190, b: 140 },
                header_bg: Rgb { r: 59, g: 66, b: 82 },
                selection_bg: Rgb { r: 67, g: 76, b: 94 },
                overlay_bg: Rgb { r: 36, g: 41, b: 51 },
                gauge_bg: Rgb { r: 59, g: 66, b: 82 },
                art_bg: Rgb { r: 46, g: 52, b: 64 },
                art_border: Rgb { r: 67, g: 76, b: 94 },
            },
        5 => ColorScheme {
                foreground: Rgb { r: 248, g: 248, b: 242 },
                background: Rgb { r: 40, g: 42, b: 54 },
                accent: Rgb { r: 189, g: 147, b: 249 },
                accent2: Rgb { r: 255, g: 121, b: 198 },
                dim: Rgb { r: 98, g: 114, b: 164 },
                highlight: Rgb { r: 241, g: 250, b: 140 },
                playing: Rgb { r: 80, g: 250, b: 123 },
                header_bg: Rgb { r: 68, g: 71, b: 90 },
                selection_bg: Rgb { r: 68, g: 71, b: 90 },
                overlay_bg: Rgb { r: 33, g: 34, b: 44 },
                gauge_bg: Rgb { r: 68, g: 71, b: 90 },
                art_bg: Rgb { r: 40, g: 42, b: 54 },
                art_border: Rgb { r: 68, g: 71, b: 90 },
            },
        6 => ColorScheme {
                foreground: Rgb { r: 235, g: 219, b: 178 },
                background: Rgb { r: 40, g: 40, b: 40 },
                accent: Rgb { r: 254, g: 128, b: 25 },
                accent2: Rgb { r: 250, g: 189, b: 47 },
                dim: Rgb { r: 168, g: 153, b: 132 },
                highlight: Rgb { r: 250, g: 189, b: 47 },
                playing: Rgb { r: 184, g: 187, b: 38 },
                header_bg: Rgb { r: 60, g: 56, b: 54 },
                selection_bg: Rgb { r: 80, g: 73, b: 69 },
                overlay_bg: Rgb { r: 29, g: 32, b: 33 },
                gauge_bg: Rgb { r: 60, g: 56, b: 54 },
                art_bg: Rgb { r: 40, g: 40, b: 40 },
                art_border: Rgb { r: 80, g: 73, b: 69 },
            },
        7 => ColorScheme {
                foreground: Rgb { r: 60, g: 56, b: 54 },
                background: Rgb { r: 251, g: 241, b: 199 },
                accent: Rgb { r: 175, g: 58, b: 3 },
                accent2: Rgb { r: 181, g: 118, b: 20 },
                dim: Rgb { r: 146, g: 131, b: 116 },
                highlight: Rgb { r: 181, g: 118, b: 20 },
                playing: Rgb { r: 121, g: 116, b: 14 },
                header_bg: Rgb { r: 242, g: 229, b: 188 },
                selection_bg: Rgb { r: 213, g: 196, b: 161 },
                overlay_bg: Rgb { r: 249, g: 245, b: 215 },
                gauge_bg: Rgb { r: 235, g: 219, b: 178 },
                art_bg: Rgb { r: 251, g: 241, b: 199 },
                art_border: Rgb { r: 213, g: 196, b: 161 },
            },
        8 => ColorScheme {
                foreground: Rgb { r: 224, g: 222, b: 244 },
                background: Rgb { r: 25, g: 23, b: 36 },
                accent: Rgb { r: 235, g: 111, b: 146 },
                accent2: Rgb { r: 235, g: 188, b: 186 },
                dim: Rgb { r: 110, g: 106, b: 134 },
                highlight: Rgb { r: 246, g: 193, b: 119 },
                playing: Rgb { r: 156, g: 207, b: 216 },
                header_bg: Rgb { r: 31, g: 29, b: 46 },
                selection_bg: Rgb { r: 38, g: 35, b: 58 },
                overlay_bg: Rgb { r: 25, g: 23, b: 36 },
                gauge_bg: Rgb { r: 31, g: 29, b: 46 },
                art_bg: Rgb { r: 25, g: 23, b: 36 },
                art_border: Rgb { r: 31, g: 29, b: 46 },
            },
        9 => ColorScheme {
                foreground: Rgb { r: 70, g: 66, b: 97 },
                background: Rgb { r: 250, g: 244, b: 237 },
                accent: Rgb { r: 180, g: 99, b: 122 },
                accent2: Rgb { r: 215, g: 130, b: 126 },
                dim: Rgb { r: 152, g: 147, b: 165 },
                highlight: Rgb { r: 234, g: 157, b: 52 },
                playing: Rgb { r: 86, g: 148, b: 159 },
                header_bg: Rgb { r: 255, g: 250, b: 243 },
                selection_bg: Rgb { r: 242, g: 233, b: 225 },
                overlay_bg: Rgb { r: 250, g: 244, b: 237 },
                gauge_bg: Rgb { r: 242, g: 233, b: 225 },
                art_bg: Rgb { r: 250, g: 244, b: 237 },
                art_border: Rgb { r: 242, g: 233, b: 225 },
            },
        10 => ColorScheme {
                foreground: Rgb { r: 192, g: 202, b: 245 },
                background: Rgb { r: 26, g: 27, b: 38 },
                accent: Rgb { r: 122, g: 162, b: 247 },
                accent2: Rgb { r: 187, g: 154, b: 247 },
                dim: Rgb { r: 86, g: 95, b: 137 },
                highlight: Rgb { r: 224, g: 175, b: 104 },
                playing: Rgb { r: 158, g: 206, b: 106 },
                header_bg: Rgb { r: 22, g: 22, b: 30 },
                selection_bg: Rgb { r: 40, g: 52, b: 87 },
                overlay_bg: Rgb { r: 19, g: 19, b: 26 },
                gauge_bg: Rgb { r: 41, g: 46, b: 66 },
                art_bg: Rgb { r: 26, g: 27, b: 38 },
                art_border: Rgb { r: 41, g: 46, b: 66 },
            },
        11 => ColorScheme {
                foreground: Rgb { r: 192, g: 202, b: 245 },
                background: Rgb { r: 36, g: 40, b: 59 },
                accent: Rgb { r: 122, g: 162, b: 247 },
                accent2: Rgb { r: 187, g: 154, b: 247 },
                dim: Rgb { r: 86, g: 95, b: 137 },
                highlight: Rgb { r: 224, g: 175, b: 104 },
                playing: Rgb { r: 158, g: 206, b: 106 },
                header_bg: Rgb { r: 31, g: 35, b: 53 },
                selection_bg: Rgb { r: 46, g: 60, b: 100 },
                overlay_bg: Rgb { r: 26, g: 27, b: 46 },
                gauge_bg: Rgb { r: 59, g: 66, b: 97 },
                art_bg: Rgb { r: 36, g: 40, b: 59 },
                art_border: Rgb { r: 59, g: 66, b: 97 },
            },
        12 => ColorScheme {
                foreground: Rgb { r: 55, g: 96, b: 191 },
                background: Rgb { r: 225, g: 226, b: 231 },
                accent: Rgb { r: 46, g: 125, b: 233 },
                accent2: Rgb { r: 152, g: 84, b: 241 },
                dim: Rgb { r: 132, g: 140, b: 181 },
                highlight: Rgb { r: 140, g: 108, b: 62 },
                playing: Rgb { r: 88, g: 117, b: 57 },
                header_bg: Rgb { r: 208, g: 213, b: 227 },
                selection_bg: Rgb { r: 196, g: 200, b: 218 },
                overlay_bg: Rgb { r: 203, g: 204, b: 214 },
                gauge_bg: Rgb { r: 196, g: 200, b: 218 },
                art_bg: Rgb { r: 225, g: 226, b: 231 },
                art_border: Rgb { r: 196, g: 200, b: 218 },
            },
        13 => ColorScheme {
                foreground: Rgb { r: 131, g: 148, b: 150 },
                background: Rgb { r: 0, g: 43, b: 54 },
                accent: Rgb { r: 38, g: 139, b: 210 },
                accent2: Rgb { r: 42, g: 161, b: 152 },
                dim: Rgb { r: 88, g: 110, b: 117 },
                highlight: Rgb { r: 181, g: 137, b: 0 },
                playing: Rgb { r: 133, g: 153, b: 0 },
                header_bg: Rgb { r: 7, g: 54, b: 66 },
                selection_bg: Rgb { r: 7, g: 54, b: 66 },
                overlay_bg: Rgb { r: 0, g: 31, b: 39 },
                gauge_bg: Rgb { r: 7, g: 54, b: 66 },
                art_bg: Rgb { r: 0, g: 43, b: 54 },
                art_border: Rgb { r: 7, g: 54, b: 66 },
            },
        14 => ColorScheme {
                foreground: Rgb { r: 101, g: 123, b: 131 },
                background: Rgb { r: 253, g: 246, b: 227 },
                accent: Rgb { r: 38, g: 139, b: 210 },
                accent2: Rgb { r: 42, g: 161, b: 152 },
                dim: Rgb { r: 147, g: 161, b: 161 },
                highlight: Rgb { r: 181, g: 137, b: 0 },
                playing: Rgb { r: 133, g: 153, b: 0 },
                header_bg: Rgb { r: 238, g: 232, b: 213 },
                selection_bg: Rgb { r: 238, g: 232, b: 213 },
                overlay_bg: Rgb { r: 245, g: 240, b: 228 },
                gauge_bg: Rgb { r: 238, g: 232, b: 213 },
                art_bg: Rgb { r: 253, g: 246, b: 227 },
                art_border: Rgb { r: 238, g: 232, b: 213 },
            },
        15 => ColorScheme {
                foreground: Rgb { r: 171, g: 178, b: 191 },
                background: Rgb { r: 40, g: 44, b: 52 },
                accent: Rgb { r: 97, g: 175, b: 239 },
                accent2: Rgb { r: 198, g: 120, b: 221 },
                dim: Rgb { r: 92, g: 99, b: 112 },
                highlight: Rgb { r: 229, g: 192, b: 123 },
                playing: Rgb { r: 152, g: 195, b: 121 },
                header_bg: Rgb { r: 33, g: 37, b: 43 },
                selection_bg: Rgb { r: 62, g: 68, b: 81 },
                overlay_bg: Rgb { r: 29, g: 32, b: 38 },
                gauge_bg: Rgb { r: 49, g: 53, b: 63 },
                art_bg: Rgb { r: 40, g: 44, b: 52 },
                art_border: Rgb { r: 62, g: 68, b: 81 },
            },
        16 => ColorScheme {
                foreground: Rgb { r: 248, g: 248, b: 242 },
                background: Rgb { r: 39, g: 40, b: 34 },
                accent: Rgb { r: 249, g: 38, b: 114 },
                accent2: Rgb { r: 174, g: 129, b: 255 },
                dim: Rgb { r: 117, g: 113, b: 94 },
                highlight: Rgb { r: 230, g: 219, b: 116 },
                playing: Rgb { r: 166, g: 226, b: 46 },
                header_bg: Rgb { r: 30, g: 31, b: 28 },
                selection_bg: Rgb { r: 73, g: 72, b: 62 },
                overlay_bg: Rgb { r: 26, g: 27, b: 25 },
                gauge_bg: Rgb { r: 60, g: 61, b: 55 },
                art_bg: Rgb { r: 39, g: 40, b: 34 },
                art_border: Rgb { r: 60, g: 61, b: 55 },
            },
        17 => ColorScheme {
                foreground: Rgb { r: 220, g: 215, b: 186 },
                background: Rgb { r: 31, g: 31, b: 40 },
                accent: Rgb { r: 126, g: 156, b: 216 },
                accent2: Rgb { r: 149, g: 127, b: 184 },
                dim: Rgb { r: 114, g: 113, b: 105 },
                highlight: Rgb { r: 230, g: 195, b: 132 },
                playing: Rgb { r: 152, g: 187, b: 108 },
                header_bg: Rgb { r: 22, g: 22, b: 29 },
                selection_bg: Rgb { r: 45, g: 79, b: 103 },
                overlay_bg: Rgb { r: 22, g: 22, b: 29 },
                gauge_bg: Rgb { r: 34, g: 50, b: 73 },
                art_bg: Rgb { r: 31, g: 31, b: 40 },
                art_border: Rgb { r: 42, g: 42, b: 55 },
            },
        18 => ColorScheme {
                foreground: Rgb { r: 211, g: 198, b: 170 },
                background: Rgb { r: 45, g: 53, b: 59 },
                accent: Rgb { r: 127, g: 187, b: 179 },
                accent2: Rgb { r: 214, g: 153, b: 182 },
                dim: Rgb { r: 133, g: 146, b: 137 },
                highlight: Rgb { r: 219, g: 188, b: 127 },
                playing: Rgb { r: 167, g: 192, b: 128 },
                header_bg: Rgb { r: 52, g: 63, b: 68 },
                selection_bg: Rgb { r: 61, g: 72, b: 77 },
                overlay_bg: Rgb { r: 35, g: 42, b: 46 },
                gauge_bg: Rgb { r: 71, g: 82, b: 88 },
                art_bg: Rgb { r: 45, g: 53, b: 59 },
                art_border: Rgb { r: 71, g: 82, b: 88 },
            },
        19 => ColorScheme {
                foreground: Rgb { r: 230, g: 225, b: 207 },
                background: Rgb { r: 15, g: 20, b: 25 },
                accent: Rgb { r: 255, g: 180, b: 84 },
                accent2: Rgb { r: 54, g: 163, b: 217 },
                dim: Rgb { r: 92, g: 103, b: 115 },
                highlight: Rgb { r: 230, g: 182, b: 115 },
                playing: Rgb { r: 184, g: 204, b: 82 },
                header_bg: Rgb { r: 20, g: 25, b: 31 },
                selection_bg: Rgb { r: 37, g: 51, b: 64 },
                overlay_bg: Rgb { r: 20, g: 25, b: 31 },
                gauge_bg: Rgb { r: 21, g: 26, b: 30 },
                art_bg: Rgb { r: 15, g: 20, b: 25 },
                art_border: Rgb { r: 45, g: 54, b: 64 },
            },
        20 => ColorScheme {
                foreground: Rgb { r: 217, g: 215, b: 206 },
                background: Rgb { r: 33, g: 39, b: 51 },
                accent: Rgb { r: 255, g: 213, b: 127 },
                accent2: Rgb { r: 92, g: 207, b: 230 },
                dim: Rgb { r: 92, g: 103, b: 115 },
                highlight: Rgb { r: 255, g: 196, b: 76 },
                playing: Rgb { r: 186, g: 230, b: 126 },
                header_bg: Rgb { r: 39, g: 45, b: 56 },
                selection_bg: Rgb { r: 52, g: 63, b: 76 },
                overlay_bg: Rgb { r: 22, g: 27, b: 34 },
                gauge_bg: Rgb { r: 36, g: 43, b: 56 },
                art_bg: Rgb { r: 33, g: 39, b: 51 },
                art_border: Rgb { r: 61, g: 71, b: 81 },
            },
        21 => ColorScheme {
                foreground: Rgb { r: 197, g: 200, b: 198 },
                background: Rgb { r: 29, g: 31, b: 33 },
                accent: Rgb { r: 129, g: 162, b: 190 },
                accent2: Rgb { r: 178, g: 148, b: 187 },
                dim: Rgb { r: 150, g: 152, b: 150 },
                highlight: Rgb { r: 240, g: 198, b: 116 },
                playing: Rgb { r: 181, g: 189, b: 104 },
                header_bg: Rgb { r: 40, g: 42, b: 46 },
                selection_bg: Rgb { r: 55, g: 59, b: 65 },
                overlay_bg: Rgb { r: 20, g: 22, b: 26 },
                gauge_bg: Rgb { r: 40, g: 42, b: 46 },
                art_bg: Rgb { r: 29, g: 31, b: 33 },
                art_border: Rgb { r: 55, g: 59, b: 65 },
            },
        22 => ColorScheme {
                foreground: Rgb { r: 242, g: 244, b: 248 },
                background: Rgb { r: 22, g: 22, b: 22 },
                accent: Rgb { r: 120, g: 169, b: 255 },
                accent2: Rgb { r: 190, g: 149, b: 255 },
                dim: Rgb { r: 92, g: 92, b: 92 },
                highlight: Rgb { r: 8, g: 189, b: 186 },
                playing: Rgb { r: 66, g: 190, b: 101 },
                header_bg: Rgb { r: 42, g: 42, b: 42 },
                selection_bg: Rgb { r: 64, g: 64, b: 64 },
                overlay_bg: Rgb { r: 19, g: 19, b: 19 },
                gauge_bg: Rgb { r: 42, g: 42, b: 42 },
                art_bg: Rgb { r: 22, g: 22, b: 22 },
                art_border: Rgb { r: 57, g: 57, b: 57 },
            },
        23 => ColorScheme {
                foreground: Rgb { r: 205, g: 206, b: 207 },
                background: Rgb { r: 25, g: 35, b: 48 },
                accent: Rgb { r: 113, g: 156, b: 214 },
                accent2: Rgb { r: 157, g: 121, b: 214 },
                dim: Rgb { r: 115, g: 128, b: 145 },
                highlight: Rgb { r: 219, g: 192, b: 116 },
                playing: Rgb { r: 129, g: 178, b: 154 },
                header_bg: Rgb { r: 19, g: 26, b: 36 },
                selection_bg: Rgb { r: 43, g: 59, b: 81 },
                overlay_bg: Rgb { r: 19, g: 26, b: 36 },
                gauge_bg: Rgb { r: 33, g: 46, b: 63 },
                art_bg: Rgb { r: 25, g: 35, b: 48 },
                art_border: Rgb { r: 43, g: 59, b: 81 },
            },
        24 => ColorScheme {
                foreground: Rgb { r: 238, g: 255, b: 255 },
                background: Rgb { r: 38, g: 50, b: 56 },
                accent: Rgb { r: 137, g: 221, b: 255 },
                accent2: Rgb { r: 199, g: 146, b: 234 },
                dim: Rgb { r: 84, g: 110, b: 122 },
                highlight: Rgb { r: 255, g: 203, b: 107 },
                playing: Rgb { r: 195, g: 232, b: 141 },
                header_bg: Rgb { r: 30, g: 39, b: 44 },
                selection_bg: Rgb { r: 49, g: 69, b: 73 },
                overlay_bg: Rgb { r: 26, g: 35, b: 39 },
                gauge_bg: Rgb { r: 46, g: 60, b: 67 },
                art_bg: Rgb { r: 38, g: 50, b: 56 },
                art_border: Rgb { r: 49, g: 69, b: 73 },
            },
        25 => ColorScheme {
                foreground: Rgb { r: 191, g: 199, b: 213 },
                background: Rgb { r: 41, g: 45, b: 62 },
                accent: Rgb { r: 199, g: 146, b: 234 },
                accent2: Rgb { r: 130, g: 177, b: 255 },
                dim: Rgb { r: 105, g: 112, b: 152 },
                highlight: Rgb { r: 255, g: 203, b: 107 },
                playing: Rgb { r: 195, g: 232, b: 141 },
                header_bg: Rgb { r: 37, g: 40, b: 55 },
                selection_bg: Rgb { r: 62, g: 68, b: 82 },
                overlay_bg: Rgb { r: 30, g: 33, b: 48 },
                gauge_bg: Rgb { r: 50, g: 55, b: 77 },
                art_bg: Rgb { r: 41, g: 45, b: 62 },
                art_border: Rgb { r: 52, g: 57, b: 79 },
            },
        26 => ColorScheme {
                foreground: Rgb { r: 255, g: 255, b: 255 },
                background: Rgb { r: 38, g: 35, b: 53 },
                accent: Rgb { r: 255, g: 126, b: 219 },
                accent2: Rgb { r: 3, g: 237, b: 249 },
                dim: Rgb { r: 132, g: 139, b: 189 },
                highlight: Rgb { r: 254, g: 222, b: 93 },
                playing: Rgb { r: 114, g: 241, b: 184 },
                header_bg: Rgb { r: 36, g: 27, b: 46 },
                selection_bg: Rgb { r: 61, g: 59, b: 110 },
                overlay_bg: Rgb { r: 26, g: 22, b: 49 },
                gauge_bg: Rgb { r: 52, g: 41, b: 79 },
                art_bg: Rgb { r: 38, g: 35, b: 53 },
                art_border: Rgb { r: 52, g: 41, b: 79 },
            },
        27 => ColorScheme {
                foreground: Rgb { r: 255, g: 255, b: 255 },
                background: Rgb { r: 22, g: 24, b: 26 },
                accent: Rgb { r: 255, g: 94, b: 160 },
                accent2: Rgb { r: 255, g: 94, b: 241 },
                dim: Rgb { r: 123, g: 132, b: 150 },
                highlight: Rgb { r: 241, g: 255, b: 94 },
                playing: Rgb { r: 94, g: 255, b: 108 },
                header_bg: Rgb { r: 30, g: 33, b: 36 },
                selection_bg: Rgb { r: 60, g: 64, b: 72 },
                overlay_bg: Rgb { r: 17, g: 19, b: 21 },
                gauge_bg: Rgb { r: 30, g: 33, b: 36 },
                art_bg: Rgb { r: 22, g: 24, b: 26 },
                art_border: Rgb { r: 60, g: 64, b: 72 },
            },
        28 => ColorScheme {
                foreground: Rgb { r: 213, g: 216, b: 218 },
                background: Rgb { r: 28, g: 30, b: 38 },
                accent: Rgb { r: 233, g: 86, b: 120 },
                accent2: Rgb { r: 184, g: 119, b: 219 },
                dim: Rgb { r: 108, g: 111, b: 147 },
                highlight: Rgb { r: 250, g: 183, b: 149 },
                playing: Rgb { r: 9, g: 247, b: 160 },
                header_bg: Rgb { r: 23, g: 23, b: 27 },
                selection_bg: Rgb { r: 39, g: 44, b: 66 },
                overlay_bg: Rgb { r: 23, g: 23, b: 27 },
                gauge_bg: Rgb { r: 46, g: 48, b: 62 },
                art_bg: Rgb { r: 28, g: 30, b: 38 },
                art_border: Rgb { r: 46, g: 48, b: 62 },
            },
        29 => ColorScheme {
                foreground: Rgb { r: 228, g: 240, b: 251 },
                background: Rgb { r: 27, g: 30, b: 40 },
                accent: Rgb { r: 208, g: 103, b: 157 },
                accent2: Rgb { r: 93, g: 228, b: 199 },
                dim: Rgb { r: 118, g: 124, b: 157 },
                highlight: Rgb { r: 255, g: 250, b: 194 },
                playing: Rgb { r: 95, g: 179, b: 161 },
                header_bg: Rgb { r: 23, g: 25, b: 34 },
                selection_bg: Rgb { r: 48, g: 51, b: 64 },
                overlay_bg: Rgb { r: 20, g: 23, b: 32 },
                gauge_bg: Rgb { r: 48, g: 51, b: 64 },
                art_bg: Rgb { r: 27, g: 30, b: 40 },
                art_border: Rgb { r: 48, g: 51, b: 64 },
            },
        30 => ColorScheme {
                foreground: Rgb { r: 248, g: 248, b: 242 },
                background: Rgb { r: 90, g: 84, b: 117 },
                accent: Rgb { r: 255, g: 184, b: 209 },
                accent2: Rgb { r: 197, g: 163, b: 255 },
                dim: Rgb { r: 161, g: 155, b: 187 },
                highlight: Rgb { r: 255, g: 243, b: 82 },
                playing: Rgb { r: 194, g: 255, b: 223 },
                header_bg: Rgb { r: 76, g: 68, b: 104 },
                selection_bg: Rgb { r: 107, g: 97, b: 142 },
                overlay_bg: Rgb { r: 62, g: 58, b: 84 },
                gauge_bg: Rgb { r: 107, g: 97, b: 142 },
                art_bg: Rgb { r: 90, g: 84, b: 117 },
                art_border: Rgb { r: 107, g: 97, b: 142 },
            },
        31 => ColorScheme {
                foreground: Rgb { r: 201, g: 199, b: 205 },
                background: Rgb { r: 22, g: 22, b: 23 },
                accent: Rgb { r: 234, g: 131, b: 165 },
                accent2: Rgb { r: 226, g: 158, b: 202 },
                dim: Rgb { r: 117, g: 117, b: 129 },
                highlight: Rgb { r: 230, g: 185, b: 157 },
                playing: Rgb { r: 144, g: 185, b: 159 },
                header_bg: Rgb { r: 19, g: 19, b: 20 },
                selection_bg: Rgb { r: 42, g: 42, b: 45 },
                overlay_bg: Rgb { r: 24, g: 24, b: 26 },
                gauge_bg: Rgb { r: 39, g: 39, b: 42 },
                art_bg: Rgb { r: 22, g: 22, b: 23 },
                art_border: Rgb { r: 39, g: 39, b: 42 },
            },
        32 => ColorScheme {
                foreground: Rgb { r: 255, g: 224, b: 240 },
                background: Rgb { r: 26, g: 8, b: 24 },
                accent: Rgb { r: 255, g: 20, b: 147 },
                accent2: Rgb { r: 255, g: 105, b: 180 },
                dim: Rgb { r: 194, g: 77, b: 130 },
                highlight: Rgb { r: 255, g: 133, b: 194 },
                playing: Rgb { r: 255, g: 0, b: 110 },
                header_bg: Rgb { r: 42, g: 10, b: 32 },
                selection_bg: Rgb { r: 74, g: 21, b: 53 },
                overlay_bg: Rgb { r: 18, g: 6, b: 20 },
                gauge_bg: Rgb { r: 58, g: 16, b: 48 },
                art_bg: Rgb { r: 26, g: 8, b: 24 },
                art_border: Rgb { r: 74, g: 21, b: 53 },
            },
        33 => ColorScheme {
                foreground: Rgb { r: 122, g: 0, b: 64 },
                background: Rgb { r: 255, g: 240, b: 248 },
                accent: Rgb { r: 255, g: 20, b: 147 },
                accent2: Rgb { r: 204, g: 0, b: 102 },
                dim: Rgb { r: 212, g: 96, b: 138 },
                highlight: Rgb { r: 255, g: 0, b: 110 },
                playing: Rgb { r: 230, g: 0, b: 115 },
                header_bg: Rgb { r: 255, g: 214, b: 237 },
                selection_bg: Rgb { r: 255, g: 179, b: 217 },
                overlay_bg: Rgb { r: 255, g: 232, b: 245 },
                gauge_bg: Rgb { r: 255, g: 179, b: 217 },
                art_bg: Rgb { r: 255, g: 240, b: 248 },
                art_border: Rgb { r: 255, g: 179, b: 217 },
            },
        _ => ColorScheme {
                foreground: Rgb { r: 122, g: 0, b: 64 },
                background: Rgb { r: 255, g: 240, b: 248 },
                accent: Rgb { r: 255, g: 20, b: 147 },
                accent2: Rgb { r: 204, g: 0, b: 102 },
                dim: Rgb { r: 212, g: 96, b: 138 },
                highlight: Rgb { r: 255, g: 0, b: 110 },
                playing: Rgb { r: 230, g: 0, b: 115 },
                header_bg: Rgb { r: 255, g: 214, b: 237 },
                selection_bg: Rgb { r: 255, g: 179, b: 217 },
                overlay_bg: Rgb { r: 255, g: 232, b: 245 },
                gauge_bg: Rgb { r: 255, g: 179, b: 217 },
                art_bg: Rgb { r: 255, g: 240, b: 248 },
                art_border: Rgb { r: 255, g: 179, b: 217 },
            },
    }
}

fn preset_id_of(name: &str) -> (r: Option<usize>)
    ensures
        match r {
            Some(i) => preset_id(name@) == Some(i as int),
            None => preset_id(name@) is None,
        },
{
    proof {
        reveal(preset_id);
    }
    if str_eq(name, "catppuccin") || str_eq(name, "catppuccin-mocha") {
        Some(0)
    } else if str_eq(name, "catppuccin-latte") {
        Some(1)
    } else if str_eq(name, "catppuccin-frappe") {
        Some(2)
    } else if str_eq(name, "catppuccin-macchiato") {
        Some(3)
    } else if str_eq(name, "nord") {
        Some(4)
    } else if str_eq(name, "dracula") {
        Some(5)
    } else if str_eq(name, "gruvbox") || str_eq(name, "gruvbox-dark") {
        Some(6)
    } else if str_eq(name, "gruvbox-light") {
        Some(7)
    } else if str_eq(name, "rose-pine") || str_eq(name, "rose-pine-main") {
        Some(8)
    } else if str_eq(name, "rose-pine-dawn") {
        Some(9)
    } else if str_eq(name, "tokyo-night") {
        Some(10)
    } else if str_eq(name, "tokyo-night-storm") {
        Some(11)
    } else if str_eq(name, "tokyo-night-light") {
        Some(12)
    } else if str_eq(name, "solarized") || str_eq(name, "solarized-dark") {
        Some(13)
    } else if str_eq(name, "solarized-light") {
        Some(14)
    } else if str_eq(name, "one-dark") || str_eq(name, "onedark") {
        Some(15)
    } else if str_eq(name, "monokai") {
        Some(16)
    } else if str_eq(name, "kanagawa") || str_eq(name, "kanagawa-wave") {
        Some(17)
    } else if str_eq(name, "everforest") || str_eq(name, "everforest-dark") {
        Some(18)
    } else if str_eq(name, "ayu") || str_eq(name, "ayu-dark") {
        Some(19)
    } else if str_eq(name, "ayu-mirage") {
        Some(20)
    } else if str_eq(name, "tomorrow-night") {
        Some(21)
    } else if str_eq(name, "oxocarbon") {
        Some(22)
    } else if str_eq(name, "nightfox") {
        Some(23)
    } else if str_eq(name, "material") || str_eq(name, "material-dark") {
        Some(24)
    } else if str_eq(name, "palenight") || str_eq(name, "material-palenight") {
        Some(25)
    } else if str_eq(name, "synthwave84") || str_eq(name, "synthwave-84") || str_eq(name, "synthwave") {
        Some(26)
    } else if str_eq(name, "cyberdream") {
        Some(27)
    } else if str_eq(name, "horizon") {
        Some(28)
    } else if str_eq(name, "poimandres") {
        Some(29)
    } else if str_eq(name, "fairy-floss") || str_eq(name, "fairyfloss") {
        Some(30)
    } else if str_eq(name, "mellow") {
        Some(31)
    } else if str_eq(name, "girlypop") || str_eq(name, "girlypop-dark") {
        Some(32)
    } else if str_eq(name, "girlypop-light") {
        Some(33)
    } else {
        None
    }
}

/// The built-in colours, used where neither the configuration nor a
/// preset sets one.
pub open spec fn default_scheme() -> ColorScheme {
    ColorScheme {
            foreground: Rgb { r: 220, g: 215, b: 205 },
            background: Rgb { r: 18, g: 16, b: 14 },
            accent: Rgb { r: 214, g: 163, b: 98 },
            accent2: Rgb { r: 178, g: 120, b: 68 },
            dim: Rgb { r: 100, g: 92, b: 80 },
            highlight: Rgb { r: 240, g: 195, b: 120 },
            playing: Rgb { r: 130, g: 200, b: 140 },
            header_bg: Rgb { r: 30, g: 26, b: 22 },
            selection_bg: Rgb { r: 45, g: 38, b: 28 },
            overlay_bg: Rgb { r: 22, g: 18, b: 14 },
            gauge_bg: Rgb { r: 40, g: 35, b: 28 },
            art_bg: Rgb { r: 18, g: 16, b: 14 },
            art_border: Rgb { r: 40, g: 35, b: 28 },
        }
}

fn default_scheme_exec() -> (r: ColorScheme)
    ensures
        r == default_scheme(),
{
    ColorScheme {
            foreground: Rgb { r: 220, g: 215, b: 205 },
            background: Rgb { r: 18, g: 16, b: 14 },
            accent: Rgb { r: 214, g: 163, b: 98 },
            accent2: Rgb { r: 178, g: 120, b: 68 },
            dim: Rgb { r: 100, g: 92, b: 80 },
            highlight: Rgb { r: 240, g: 195, b: 120 },
            playing: Rgb { r: 130, g: 200, b: 140 },
            header_bg: Rgb { r: 30, g: 26, b: 22 },
            selection_bg: Rgb { r: 45, g: 38, b: 28 },
            overlay_bg: Rgb { r: 22, g: 18, b: 14 },
            gauge_bg: Rgb { r: 40, g: 35, b: 28 },
            art_bg: Rgb { r: 18, g: 16, b: 14 },
            art_border: Rgb { r: 40, g: 35, b: 28 },
        }
}

/// The names of the themes offered, "default" (no preset) first.
pub open spec fn theme_name_list() -> Seq<Seq<char>> {
    seq!["default"@, "catppuccin-mocha"@, "catppuccin-latte"@, "catppuccin-frappe"@, "catppuccin-macchiato"@, "nord"@, "dracula"@, "gruvbox"@, "gruvbox-light"@, "rose-pine"@, "rose-pine-dawn"@, "tokyo-night"@, "tokyo-night-storm"@, "tokyo-night-light"@, "solarized-dark"@, "solarized-light"@, "one-dark"@, "monokai"@, "kanagawa"@, "everforest"@, "ayu-dark"@, "ayu-mirage"@, "tomorrow-night"@, "oxocarbon"@, "nightfox"@, "material-dark"@, "palenight"@, "synthwave84"@, "cyberdream"@, "horizon"@, "poimandres"@, "fairy-floss"@, "mellow"@, "girlypop-dark"@, "girlypop-light"@]
}

/// The names of the themes offered, "default" (no preset) first.
pub fn theme_names() -> (r: Vec<&'static str>)
    ensures
        r@.map_values(|s: &'static str| s@) == theme_name_list(),
{
    let r = vec!["default", "catppuccin-mocha", "catppuccin-latte", "catppuccin-frappe", "catppuccin-macchiato", "nord", "dracula", "gruvbox", "gruvbox-light", "rose-pine", "rose-pine-dawn", "tokyo-night", "tokyo-night-storm", "tokyo-night-light", "solarized-dark", "solarized-light", "one-dark", "monokai", "kanagawa", "everforest", "ayu-dark", "ayu-mirage", "tomorrow-night", "oxocarbon", "nightfox", "material-dark", "palenight", "synthwave84", "cyberdream", "horizon", "poimandres", "fairy-floss", "mellow", "girlypop-dark", "girlypop-light"];
    assert(r@.map_values(|s: &'static str| s@) =~= theme_name_list());
    r
}


} // verus!

verus! {

// ---------------------------------------------------------------------------
// Presets and the configured scheme
// ---------------------------------------------------------------------------

proof fn lemma_preset_id_range(name: Seq<char>)
    ensures
        preset_id(name) matches Some(i) ==> 0 <= i < preset_table().len(),
{
    reveal(preset_id);
    reveal(preset_table);
}

/// The preset a theme name selects (names are matched in lower case).
pub open spec fn preset_for(name: Seq<char>) -> Option<ColorScheme> {
    match preset_id(lowercase(name)) {
        Some(i) => Some(preset_table()[i]),
        None => None,
    }
}

/// The preset a theme name selects, if any.
pub fn get_preset(name: &str) -> (r: Option<ColorScheme>)
    ensures
        r == preset_for(name@),
{
    let lower = to_lowercase(name);
    match preset_id_of(lower.as_str()) {
        Some(i) => {
            proof {
                lemma_preset_id_range(lower@);
            }
            Some(preset_of(i))
        },
        None => None,
    }
}

/// The scheme that configured colours are laid over: the theme's preset,
/// or the built-in colours without a (known) theme.
pub open spec fn base_scheme(theme: Option<Seq<char>>) -> ColorScheme {
    match theme {
        Some(n) => match preset_for(n) {
            Some(p) => p,
            None => default_scheme(),
        },
        None => default_scheme(),
    }
}

/// A configured colour if there is one, else the base scheme's.
#[verifier::opaque]
pub open spec fn resolved(cfg: Option<String>, base: Rgb) -> Rgb {
    match cfg {
        Some(t) => parsed_color(t@),
        None => base,
    }
}

fn pick(cfg: &Option<String>, base: Rgb) -> (r: Rgb)
    requires
        cfg matches Some(t) ==> color_text_ok(t@),
    ensures
        r == resolved(*cfg, base),
{
    proof {
        reveal(resolved);
    }
    match cfg {
        Some(t) => parse_color(t.as_str()),
        None => base,
    }
}

fn base_for(theme: Option<&str>) -> (r: ColorScheme)
    ensures
        r == base_scheme(match theme { Some(t) => Some(t@), None => None }),
{
    let preset = match theme {
        Some(t) => get_preset(t),
        None => None,
    };
    match preset {
        Some(p) => p,
        None => default_scheme_exec(),
    }
}

impl ColorScheme {
    /// The scheme for the configured colours and theme: each colour set in
    /// the configuration wins, the rest come from the theme's preset (or
    /// the built-in colours).
    #[verifier::rlimit(60)]
    pub fn from_config(colors: &UiColorsConfig, theme: Option<&str>) -> (r: ColorScheme)
        requires
            colors.foreground matches Some(t) ==> color_text_ok(t@),
            colors.background matches Some(t) ==> color_text_ok(t@),
            colors.accent matches Some(t) ==> color_text_ok(t@),
            colors.accent2 matches Some(t) ==> color_text_ok(t@),
            colors.dim matches Some(t) ==> color_text_ok(t@),
            colors.highlight matches Some(t) ==> color_text_ok(t@),
            colors.playing matches Some(t) ==> color_text_ok(t@),
            colors.header_bg matches Some(t) ==> color_text_ok(t@),
            colors.selection_bg matches Some(t) ==> color_text_ok(t@),
            colors.overlay_bg matches Some(t) ==> color_text_ok(t@),
            colors.gauge_bg matches Some(t) ==> color_text_ok(t@),
            colors.art_bg matches Some(t) ==> color_text_ok(t@),
            colors.art_border matches Some(t) ==> color_text_ok(t@),
        ensures
            ({
                let base = base_scheme(match theme { Some(t) => Some(t@), None => None });
                &&& r.foreground == resolved(colors.foreground, base.foreground)
                &&& r.background == resolved(colors.background, base.background)
                &&& r.accent == resolved(colors.accent, base.accent)
                &&& r.accent2 == resolved(colors.accent2, base.accent2)
                &&& r.dim == resolved(colors.dim, base.dim)
                &&& r.highlight == resolved(colors.highlight, base.highlight)
                &&& r.playing == resolved(colors.playing, base.playing)
                &&& r.header_bg == resolved(colors.header_bg, base.header_bg)
                &&& r.selection_bg == resolved(colors.selection_bg, base.selection_bg)
                &&& r.overlay_bg == resolved(colors.overlay_bg, base.overlay_bg)
                &&& r.gauge_bg == resolved(colors.gauge_bg, base.gauge_bg)
                &&& r.art_bg == resolved(colors.art_bg, base.art_bg)
                &&& r.art_border == resolved(colors.art_border, base.art_border)
            }),
    {
        let base = base_for(theme);
        ColorScheme {
            foreground: pick(&colors.foreground, base.foreground),
            background: pick(&colors.background, base.background),
            accent: pick(&colors.accent, base.accent),
            accent2: pick(&colors.accent2, base.accent2),
            dim: pick(&colors.dim, base.dim),
            highlight: pick(&colors.highlight, base.highlight),
            playing: pick(&colors.playing, base.playing),
            header_bg: pick(&colors.header_bg, base.header_bg),
            selection_bg: pick(&colors.selection_bg, base.selection_bg),
            overlay_bg: pick(&colors.overlay_bg, base.overlay_bg),
            gauge_bg: pick(&colors.gauge_bg, base.gauge_bg),
            art_bg: pick(&colors.art_bg, base.art_bg),
            art_border: pick(&colors.art_border, base.art_border),
        }
    }
}

/// The swatch shown for a theme: accent, highlight, playing, accent2 and
/// dim of its preset (the built-in colours for an unknown name).
pub fn theme_swatch(name: &str) -> (r: [Rgb; 5])
    ensures
        ({
            let s = base_scheme(Some(name@));
            r@ == seq![s.accent, s.highlight, s.playing, s.accent2, s.dim]
        }),
{
    let s = match get_preset(name) {
        Some(p) => p,
        None => default_scheme_exec(),
    };
    let r = [s.accent, s.highlight, s.playing, s.accent2, s.dim];
    assert(r@ =~= seq![s.accent, s.highlight, s.playing, s.accent2, s.dim]);
    r
}

} // verus!
