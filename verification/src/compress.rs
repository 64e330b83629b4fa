//! Compressing the library for mobile devices: which source files to
//! convert (one per output name, the best quality winning), where each
//! converted file goes, the encoder invocation, and the playlists rewritten
//! to point at the converted files.
//!
//! Running the encoder and touching the file system is the caller's part.

use vstd::prelude::*;
use crate::paths::{
    extension_of, is_absolute, join_path, joined, parent_of, path_extension, path_strip_prefix,
    path_with_extension, stripped_of, with_extension_of,
};
use crate::text::{chars_of, join_texts, lines, lines_of, lowercase, push_str, str_eq, string_of, to_lowercase, trim, trim_chars, views};
use crate::util::string_views;

verus! {

/// `%query%`: the SQL `LIKE` pattern matching text that contains the query.
pub fn like_pattern(q: &str) -> (r: String)
    ensures
        r@ == "%"@ + q@ + "%"@,
{
    let mut r = "%".to_owned();
    push_str(&mut r, q);
    push_str(&mut r, "%");
    r
}

/// The encoder for an output format.
pub open spec fn codec_name(format: Seq<char>) -> Seq<char> {
    if format == "mp3"@ {
        "libmp3lame"@
    } else if format == "aac"@ || format == "m4a"@ {
        "aac"@
    } else if format == "opus"@ {
        "libopus"@
    } else {
        "libmp3lame"@
    }
}

/// Chooses the encoder for an output format (MP3 when unknown).
pub fn codec_for(format: &str) -> (r: &'static str)
    ensures
        r@ == codec_name(format@),
{
    if str_eq(format, "mp3") {
        "libmp3lame"
    } else if str_eq(format, "aac") || str_eq(format, "m4a") {
        "aac"
    } else if str_eq(format, "opus") {
        "libopus"
    } else {
        "libmp3lame"
    }
}

/// The encoder arguments converting `src` into `out`.
pub open spec fn encoder_args(src: Seq<char>, out: Seq<char>, format: Seq<char>, bitrate: Seq<char>) -> Seq<Seq<char>> {
    seq![
        "-i"@, src, "-c:a"@, codec_name(format), "-b:a"@, bitrate, "-map"@, "0"@, "-c:v"@, "copy"@,
        "-y"@, out,
    ]
}

/// The arguments of one encoder run: input, audio codec and bitrate, all
/// streams kept, cover art copied, output overwritten.
pub fn ffmpeg_args(src: &str, out: &str, format: &str, bitrate: &str) -> (r: Vec<String>)
    ensures
        string_views(r@) == encoder_args(src@, out@, format@, bitrate@),
{
    let r = vec![
        "-i".to_owned(),
        src.to_owned(),
        "-c:a".to_owned(),
        codec_for(format).to_owned(),
        "-b:a".to_owned(),
        bitrate.to_owned(),
        "-map".to_owned(),
        "0".to_owned(),
        "-c:v".to_owned(),
        "copy".to_owned(),
        "-y".to_owned(),
        out.to_owned(),
    ];
    assert(string_views(r@) =~= encoder_args(src@, out@, format@, bitrate@));
    r
}

/// The encoder ffmpeg is given follows the output format: AAC (and M4A)
/// output is encoded with `aac`, Opus with `libopus`, and MP3 or any other
/// format with `libmp3lame`.
pub proof fn lemma_encoder_for_format(src: Seq<char>, out: Seq<char>, format: Seq<char>, bitrate: Seq<char>)
    ensures
        encoder_args(src, out, format, bitrate).len() == 12,
        encoder_args(src, out, format, bitrate)[2] == "-c:a"@,
        format == "aac"@ || format == "m4a"@ ==> encoder_args(src, out, format, bitrate)[3] == "aac"@,
        format == "opus"@ ==> encoder_args(src, out, format, bitrate)[3] == "libopus"@,
        !(format == "aac"@ || format == "m4a"@ || format == "opus"@) ==> encoder_args(
            src,
            out,
            format,
            bitrate,
        )[3] == "libmp3lame"@,
{
    reveal_strlit("aac");
    reveal_strlit("m4a");
    reveal_strlit("mp3");
    reveal_strlit("opus");
    assert("aac"@[0] != "mp3"@[0]);
    assert("m4a"@[1] != "mp3"@[1]);
    assert("opus"@ != "mp3"@);
    assert("opus"@ != "aac"@);
    assert("opus"@ != "m4a"@);
}

/// Rank of a source by its (lower-cased) extension, lower is better:
/// FLAC, then M4A, then MP3, then anything else.
pub open spec fn source_rank(path: Seq<char>) -> u8 {
    let e = match extension_of(path) {
        Some(e) => lowercase(e),
        None => lowercase(Seq::empty()),
    };
    if e == "flac"@ {
        0
    } else if e == "m4a"@ {
        1
    } else if e == "mp3"@ {
        2
    } else {
        100
    }
}

/// The quality rank of a source file.
pub fn source_quality_rank(path: &str) -> (r: u8)
    ensures
        r == source_rank(path@),
{
    let ext = match path_extension(path) {
        Some(e) => e,
        None => String::new(),
    };
    let e = to_lowercase(ext.as_str());
    if str_eq(e.as_str(), "flac") {
        0
    } else if str_eq(e.as_str(), "m4a") {
        1
    } else if str_eq(e.as_str(), "mp3") {
        2
    } else {
        100
    }
}

/// The name a converted file would have, compared without case.
pub open spec fn output_key(src: Seq<char>, format: Seq<char>) -> Seq<char> {
    lowercase(with_extension_of(src, format))
}

/// Keeping one source per output key: each key in order of its first
/// source, with the first source of the best rank.
pub open spec fn best_sources(paths: Seq<Seq<char>>, format: Seq<char>) -> Seq<(Seq<char>, Seq<char>)>
    decreases paths.len(),
{
    if paths.len() == 0 {
        Seq::empty()
    } else {
        let pre = best_sources(paths.drop_last(), format);
        let p = paths.last();
        let k = output_key(p, format);
        match key_position(pre, k) {
            None => pre.push((k, p)),
            Some(i) => if source_rank(p) < source_rank(pre[i].1) {
                pre.update(i, (k, p))
            } else {
                pre
            },
        }
    }
}

/// Where key `k` is in the list, if it is.
pub open spec fn key_position(v: Seq<(Seq<char>, Seq<char>)>, k: Seq<char>) -> Option<int>
    decreases v.len(),
{
    if v.len() == 0 {
        None
    } else if v.last().0 == k {
        Some(v.len() - 1)
    } else {
        key_position(v.drop_last(), k)
    }
}

proof fn lemma_key_position_bounds(v: Seq<(Seq<char>, Seq<char>)>, k: Seq<char>)
    ensures
        key_position(v, k) matches Some(i) ==> 0 <= i < v.len() && v[i].0 == k,
    decreases v.len(),
{
    if v.len() > 0 && v.last().0 != k {
        lemma_key_position_bounds(v.drop_last(), k);
    }
}

/// Pairs as text.
pub open spec fn pair_texts(v: Seq<(String, String)>) -> Seq<(Seq<char>, Seq<char>)> {
    v.map_values(|p: (String, String)| (p.0@, p.1@))
}

fn find_key(v: &Vec<(String, String)>, k: &str) -> (r: Option<usize>)
    ensures
        match r {
            Some(i) => key_position(pair_texts(v@), k@) == Some(i as int),
            None => key_position(pair_texts(v@), k@) is None,
        },
{
    let ghost pv = pair_texts(v@);
    let mut i: usize = v.len();
    assert(pv.take(pv.len() as int) =~= pv);
    while i > 0
        invariant
            i <= v@.len(),
            pv == pair_texts(v@),
            key_position(pv, k@) == key_position(pv.take(i as int), k@),
        decreases i,
    {
        assert(pv.take(i as int).last() == pv[i - 1]);
        assert(pv.take(i as int).drop_last() =~= pv.take(i - 1));
        if str_eq(v[i - 1].0.as_str(), k) {
            return Some(i - 1);
        }
        i = i - 1;
    }
    None
}

/// The sources to convert: for sources whose converted names differ only in
/// case (which would clash on case-insensitive file systems), only the best
/// quality one (FLAC, then M4A, then MP3), the first of equals.
pub fn dedupe_sources(paths: &Vec<String>, format: &str) -> (r: Vec<String>)
    requires
        !format@.contains('/'),
    ensures
        string_views(r@) == best_sources(string_views(paths@), format@).map_values(
            |p: (Seq<char>, Seq<char>)| p.1,
        ),
{
    let ghost ps = string_views(paths@);
    let mut best: Vec<(String, String)> = Vec::new();
    let mut i: usize = 0;
    assert(ps.take(0) =~= Seq::<Seq<char>>::empty());
    while i < paths.len()
        invariant
            i <= paths@.len(),
            !format@.contains('/'),
            ps == string_views(paths@),
            pair_texts(best@) == best_sources(ps.take(i as int), format@),
        decreases paths@.len() - i,
    {
        let p = &paths[i];
        let out = path_with_extension(p.as_str(), format);
        let key = to_lowercase(out.as_str());
        let ghost pre = pair_texts(best@);
        assert(ps.take(i + 1).drop_last() =~= ps.take(i as int));
        assert(ps.take(i + 1).last() == p@);
        proof {
            lemma_key_position_bounds(pre, key@);
        }
        match find_key(&best, key.as_str()) {
            None => {
                best.push((key, p.clone()));
                assert(pair_texts(best@) =~= pre.push((output_key(p@, format@), p@)));
            },
            Some(j) => {
                if source_quality_rank(p.as_str()) < source_quality_rank(best[j].1.as_str()) {
                    let ghost kk = key@;
                    best.set(j, (key, p.clone()));
                    assert(pair_texts(best@) =~= pre.update(j as int, (kk, p@)));
                }
            },
        }
        i = i + 1;
    }
    assert(ps.take(paths@.len() as int) =~= ps);
    let mut r: Vec<String> = Vec::new();
    let mut k: usize = 0;
    let ghost bv = pair_texts(best@);
    while k < best.len()
        invariant
            k <= best@.len(),
            bv == pair_texts(best@),
            string_views(r@) == bv.take(k as int).map_values(|p: (Seq<char>, Seq<char>)| p.1),
        decreases best@.len() - k,
    {
        let ghost old_r = string_views(r@);
        r.push(best[k].1.clone());
        assert(bv[k as int] == (best@[k as int].0@, best@[k as int].1@));
        assert(string_views(r@) =~= old_r.push(best@[k as int].1@));
        assert(bv.take(k + 1).map_values(|p: (Seq<char>, Seq<char>)| p.1) =~= bv.take(k as int).map_values(
            |p: (Seq<char>, Seq<char>)| p.1,
        ).push(bv[k as int].1));
        assert(string_views(r@) =~= bv.take(k + 1).map_values(|p: (Seq<char>, Seq<char>)| p.1));
        k = k + 1;
    }
    assert(bv.take(best@.len() as int) =~= bv);
    r
}

/// Where the converted file of a source goes: its path under the music
/// directory placed under the output directory, with the new extension.
pub open spec fn output_path_of(music_dir: Seq<char>, output_dir: Seq<char>, src: Seq<char>, format: Seq<char>) -> Seq<char> {
    let rel = match stripped_of(src, music_dir) {
        Some(r) => r,
        None => src,
    };
    with_extension_of(joined(output_dir, rel), format)
}

/// The output path for a source file (given as a full path).
pub fn output_path(music_dir: &str, output_dir: &str, src: &str, format: &str) -> (r: String)
    requires
        !format@.contains('/'),
    ensures
        r@ == output_path_of(music_dir@, output_dir@, src@, format@),
{
    let rel = match path_strip_prefix(src, music_dir) {
        Some(r) => r,
        None => src.to_owned(),
    };
    let joined_path = join_path(output_dir, rel.as_str());
    path_with_extension(joined_path.as_str(), format)
}

/// A playlist line as rewritten for the converted library: comments and
/// blank lines kept; a track under the music directory becomes its path
/// relative to it with the new extension; other tracks are kept as written.
pub open spec fn export_line(line: Seq<char>, playlist_dir: Seq<char>, music_dir: Seq<char>, format: Seq<char>) -> Seq<char> {
    let t = trim(line);
    if t.len() == 0 || t[0] == '#' {
        line
    } else {
        let song = if is_absolute(t) { t } else { joined(playlist_dir, t) };
        match stripped_of(song, music_dir) {
            Some(rel) => with_extension_of(rel, format),
            None => line,
        }
    }
}

/// The exported playlist: each line rewritten, joined by newlines, with a
/// final newline.
pub open spec fn exported_text(content: Seq<char>, playlist_dir: Seq<char>, music_dir: Seq<char>, format: Seq<char>) -> Seq<char> {
    join_texts(
        lines(content).map_values(|l: Seq<char>| export_line(l, playlist_dir, music_dir, format)),
        "\n"@,
    ) + "\n"@
}

/// Rewrites a playlist for the converted library.
pub fn export_playlist_text(content: &str, playlist_dir: &str, music_dir: &str, format: &str) -> (r: String)
    requires
        !format@.contains('/'),
    ensures
        r@ == exported_text(content@, playlist_dir@, music_dir@, format@),
{
    let ls = lines_of(chars_of(content).as_slice());
    let ghost lv = views(ls@);
    let ghost outs = lv.map_values(|l: Seq<char>| export_line(l, playlist_dir@, music_dir@, format@));
    let mut r = String::new();
    let mut i: usize = 0;
    while i < ls.len()
        invariant
            i <= ls@.len(),
            !format@.contains('/'),
            lv == views(ls@),
            lv == lines(content@),
            outs == lv.map_values(|l: Seq<char>| export_line(l, playlist_dir@, music_dir@, format@)),
            r@ == join_texts(outs.take(i as int), "\n"@),
        decreases ls@.len() - i,
    {
        let line = string_of(ls[i].as_slice());
        assert(line@ == lv[i as int]);
        let t = trim_chars(ls[i].as_slice());
        let out: String = if t.len() == 0 || t[0] == '#' {
            line
        } else {
            let ts = string_of(t.as_slice());
            let song = if t[0] == '/' {
                ts
            } else {
                join_path(playlist_dir, ts.as_str())
            };
            match path_strip_prefix(song.as_str(), music_dir) {
                Some(rel) => path_with_extension(rel.as_str(), format),
                None => line,
            }
        };
        assert(out@ == outs[i as int]);
        if i > 0 {
            push_str(&mut r, "\n");
        }
        push_str(&mut r, out.as_str());
        assert(outs.take(i + 1).drop_last() =~= outs.take(i as int));
        if i == 0 {
            assert(Seq::<char>::empty() + out@ =~= out@);
        }
        i = i + 1;
    }
    assert(outs.take(ls@.len() as int) =~= outs);
    push_str(&mut r, "\n");
    r
}

} // verus!

verus! {

proof fn lemma_key_position_none(v: Seq<(Seq<char>, Seq<char>)>, k: Seq<char>)
    ensures
        key_position(v, k) is None <==> forall|i: int| 0 <= i < v.len() ==> v[i].0 != k,
    decreases v.len(),
{
    if v.len() > 0 {
        lemma_key_position_none(v.drop_last(), k);
        if v.last().0 != k {
            assert forall|i: int| 0 <= i < v.len() - 1 implies v[i].0 == v.drop_last()[i].0 by {}
        }
    }
}

/// Deduplicating the sources keeps one source per output name: the kept
/// names are distinct, each kept source has its name, and every source's
/// name is kept.
pub proof fn lemma_best_sources_distinct(paths: Seq<Seq<char>>, format: Seq<char>)
    ensures
        ({
            let r = best_sources(paths, format);
            &&& forall|i: int, j: int| 0 <= i < j < r.len() ==> r[i].0 != r[j].0
            &&& forall|i: int| 0 <= i < r.len() ==> r[i].0 == output_key(r[i].1, format)
            &&& forall|m: int| 0 <= m < paths.len() ==> exists|i: int|
                0 <= i < r.len() && r[i].0 == output_key(#[trigger] paths[m], format)
        }),
    decreases paths.len(),
{
    if paths.len() > 0 {
        let d = paths.drop_last();
        lemma_best_sources_distinct(d, format);
        let pre = best_sources(d, format);
        let p = paths.last();
        let k = output_key(p, format);
        lemma_key_position_bounds(pre, k);
        lemma_key_position_none(pre, k);
        let r = best_sources(paths, format);
        match key_position(pre, k) {
            None => {
                assert(r == pre.push((k, p)));
                assert forall|m: int| 0 <= m < paths.len() implies exists|i: int|
                    0 <= i < r.len() && r[i].0 == output_key(#[trigger] paths[m], format) by {
                    if m < d.len() {
                        assert(paths[m] == d[m]);
                        let i = choose|i: int| 0 <= i < pre.len() && pre[i].0 == output_key(d[m], format);
                        assert(r[i] == pre[i]);
                    } else {
                        assert(r[pre.len() as int].0 == k);
                    }
                }
            },
            Some(i0) => {
                assert forall|m: int| 0 <= m < paths.len() implies exists|i: int|
                    0 <= i < r.len() && r[i].0 == output_key(#[trigger] paths[m], format) by {
                    if m < d.len() {
                        assert(paths[m] == d[m]);
                        let i = choose|i: int| 0 <= i < pre.len() && pre[i].0 == output_key(d[m], format);
                        assert(r[i].0 == pre[i].0);
                    } else {
                        assert(r[i0].0 == k);
                    }
                }
            },
        }
    }
}

/// For every source, the source kept under its output name is of the same
/// or a better quality rank: a key class keeps a source of least rank.
pub proof fn lemma_best_sources_least_rank(paths: Seq<Seq<char>>, format: Seq<char>)
    ensures
        forall|m: int, i: int|
            0 <= m < paths.len() && 0 <= i < best_sources(paths, format).len() && best_sources(
                paths,
                format,
            )[i].0 == output_key(paths[m], format) ==> source_rank(
                #[trigger] best_sources(paths, format)[i].1,
            ) <= source_rank(#[trigger] paths[m]),
    decreases paths.len(),
{
    if paths.len() > 0 {
        let d = paths.drop_last();
        lemma_best_sources_least_rank(d, format);
        lemma_best_sources_distinct(d, format);
        let pre = best_sources(d, format);
        let p = paths.last();
        let k = output_key(p, format);
        lemma_key_position_bounds(pre, k);
        lemma_key_position_none(pre, k);
        let r = best_sources(paths, format);
        assert forall|m: int, i: int|
            0 <= m < paths.len() && 0 <= i < r.len() && r[i].0 == output_key(
                paths[m],
                format,
            ) implies source_rank(#[trigger] r[i].1) <= source_rank(#[trigger] paths[m]) by {
            match key_position(pre, k) {
                None => {
                    if m < d.len() {
                        assert(paths[m] == d[m]);
                        if i < pre.len() {
                            assert(r[i] == pre[i]);
                            assert(source_rank(pre[i].1) <= source_rank(d[m]));
                        } else {
                            assert(r[i] == (k, p));
                            assert(pre.len() > 0 ==> true);
                            let i2 = choose|i2: int| 0 <= i2 < pre.len() && pre[i2].0 == output_key(
                                #[trigger] d[m],
                                format,
                            );
                            assert(pre[i2].0 == k);
                        }
                    } else {
                        if i < pre.len() {
                            assert(r[i] == pre[i]);
                            assert(pre[i].0 == k);
                        }
                    }
                },
                Some(i0) => {
                    if source_rank(p) < source_rank(pre[i0].1) {
                        if i == i0 {
                            assert(r[i] == (k, p));
                            if m < d.len() {
                                assert(paths[m] == d[m]);
                                assert(source_rank(pre[i0].1) <= source_rank(d[m]));
                            }
                        } else {
                            assert(r[i] == pre[i]);
                            if m < d.len() {
                                assert(paths[m] == d[m]);
                                assert(source_rank(pre[i].1) <= source_rank(d[m]));
                            } else {
                                assert(pre[i].0 == k);
                                assert(pre[i0].0 == k);
                            }
                        }
                    } else {
                        assert(r == pre);
                        if m < d.len() {
                            assert(paths[m] == d[m]);
                            assert(source_rank(pre[i].1) <= source_rank(d[m]));
                        } else {
                            assert(pre[i].0 == k);
                            assert(pre[i0].0 == k);
                            assert(i == i0);
                        }
                    }
                },
            }
        }
    }
}

} // verus!
