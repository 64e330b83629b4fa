//! The library-management commands: which job a subcommand runs, with the
//! paths it works on, and the text rules the indexer follows (file names
//! built from tags, CSV rows).

use vstd::prelude::*;
use crate::cli::Commands;
use crate::config::Config;
use crate::paths::{
    extension_of, file_name_of, file_stem_of, join_path, joined, path_extension, path_file_name,
    path_file_stem, path_strip_prefix, paths_equal, same_path, stripped_of,
};
use crate::order::{lemma_insert_by_at, sort_by};
use crate::lyrics::{all_digits, ascii_lower, ascii_lowercase, digits_value, is_digit};
use crate::text::{
    chars_eq, chars_of, join_texts, lowercase, push_char, push_str, split_chars, split_on, str_eq,
    string_of, to_lowercase, trim, trim_chars, views,
};
use crate::util::{expand_tilde_with, tilde_expanded};

verus! {

/// A job of the library manager, with everything it needs to run.
#[derive(Debug, Clone)]
pub enum Job {
    Index { music_dir: String, db_path: String, dry_run: bool },
    Dupes { db_path: String, music_dir: String, fix: bool },
    Ls { db_path: String, query: Option<String>, genre: Option<String> },
    Export { db_path: String },
    Stats { music_dir: String, db_path: String },
    Search { db_path: String, query: String },
    Genres { db_path: String },
    Compress {
        music_dir: String,
        db_path: String,
        output_dir: String,
        format: String,
        bitrate: String,
        jobs: Option<usize>,
        force: bool,
        query: Option<String>,
    },
    Lyrics { db_path: String, music_dir: String, query: Option<String>, overwrite: bool, dry_run: bool },
    Info { db_path: String, music_dir: String, query: String },
    Sync { src: String, dst: String, dry_run: bool, no_delete: bool },
    Nothing,
}

/// An optional text as characters.
pub open spec fn opt_text(o: Option<&str>) -> Option<Seq<char>> {
    match o {
        Some(s) => Some(s@),
        None => None,
    }
}

/// An optional string as characters.
pub open spec fn opt_string(o: Option<String>) -> Option<Seq<char>> {
    match o {
        Some(s) => Some(s@),
        None => None,
    }
}

/// The database file name: that of the configured database path, or the
/// default's.
pub open spec fn db_file_name(db_path: Seq<char>) -> Seq<char> {
    match file_name_of(db_path) {
        Some(n) => n,
        None => "music_library.db"@,
    }
}

/// The job for a subcommand.  The configured music directory and database
/// path are tilde-expanded against `home`; indexing another directory
/// (`source`) keeps the database's file name but puts it in that directory.
pub fn dispatch(command: Commands, config: &Config, home: Option<&str>) -> (job: Job)
    ensures
        ({
            let h = opt_text(home);
            let m = tilde_expanded(config.files.music_directory@, h);
            let d = tilde_expanded(config.files.database_name@, h);
            match command {
                Commands::Index { dry_run, source } => job matches Job::Index {
                    music_dir: jm,
                    db_path: jd,
                    dry_run: jr,
                } && jr == dry_run && match source {
                    Some(s) => jm@ == tilde_expanded(s@, h) && jd@ == tilde_expanded(s@, h) + "/"@
                        + db_file_name(d),
                    None => jm@ == m && jd@ == d,
                },
                Commands::Dupes { fix } => job matches Job::Dupes { db_path: jd, music_dir: jm, fix: f }
                    && jd@ == d && jm@ == m && f == fix,
                Commands::Ls { query, genre } => job matches Job::Ls { db_path: jd, query: q, genre: g }
                    && jd@ == d && opt_string(q) == opt_string(query) && opt_string(g) == opt_string(
                    genre,
                ),
                Commands::Export => job matches Job::Export { db_path: jd } && jd@ == d,
                Commands::Stats => job matches Job::Stats { music_dir: jm, db_path: jd } && jm@ == m
                    && jd@ == d,
                Commands::Search { query } => job matches Job::Search { db_path: jd, query: q } && jd@
                    == d && q@ == query@,
                Commands::Genres => job matches Job::Genres { db_path: jd } && jd@ == d,
                Commands::Compress { output_dir, format, bitrate, jobs, force, query } => job matches Job::Compress {
                    music_dir: jm,
                    db_path: jd,
                    output_dir: o,
                    format: f,
                    bitrate: b,
                    jobs: j,
                    force: fo,
                    query: q,
                } && jm@ == m && jd@ == d && o@ == output_dir@ && f@ == format@ && b@ == bitrate@
                    && j == jobs && fo == force && opt_string(q) == opt_string(query),
                Commands::Lyrics { query, overwrite, dry_run } => job matches Job::Lyrics {
                    db_path: jd,
                    music_dir: jm,
                    query: q,
                    overwrite: ow,
                    dry_run: dr,
                } && jd@ == d && jm@ == m && opt_string(q) == opt_string(query) && ow == overwrite && dr
                    == dry_run,
                Commands::Info { query } => job matches Job::Info { db_path: jd, music_dir: jm, query: q }
                    && jd@ == d && jm@ == m && q@ == query@,
                Commands::Config { .. } => job is Nothing,
                Commands::Sync { src, dst, dry_run, no_delete } => job matches Job::Sync {
                    src: s,
                    dst: t,
                    dry_run: dr,
                    no_delete: nd,
                } && s@ == src@ && t@ == dst@ && dr == dry_run && nd == no_delete,
            }
        }),
{
    let music_dir = expand_tilde_with(config.files.music_directory.as_str(), home);
    let db_path = expand_tilde_with(config.files.database_name.as_str(), home);
    match command {
        Commands::Index { dry_run, source } => {
            match source {
                Some(src) => {
                    let src = expand_tilde_with(src.as_str(), home);
                    let db_filename = match path_file_name(db_path.as_str()) {
                        Some(n) => n,
                        None => "music_library.db".to_owned(),
                    };
                    let mut eff_db = src.clone();
                    push_str(&mut eff_db, "/");
                    push_str(&mut eff_db, db_filename.as_str());
                    Job::Index { music_dir: src, db_path: eff_db, dry_run }
                },
                None => Job::Index { music_dir, db_path, dry_run },
            }
        },
        Commands::Dupes { fix } => Job::Dupes { db_path, music_dir, fix },
        Commands::Ls { query, genre } => Job::Ls { db_path, query, genre },
        Commands::Export => Job::Export { db_path },
        Commands::Stats => Job::Stats { music_dir, db_path },
        Commands::Search { query } => Job::Search { db_path, query },
        Commands::Genres => Job::Genres { db_path },
        Commands::Compress { output_dir, format, bitrate, jobs, force, query } => Job::Compress {
            music_dir,
            db_path,
            output_dir,
            format,
            bitrate,
            jobs,
            force,
            query,
        },
        Commands::Lyrics { query, overwrite, dry_run } => Job::Lyrics {
            db_path,
            music_dir,
            query,
            overwrite,
            dry_run,
        },
        Commands::Info { query } => Job::Info { db_path, music_dir, query },
        Commands::Config { .. } => Job::Nothing,
        Commands::Sync { src, dst, dry_run, no_delete } => Job::Sync { src, dst, dry_run, no_delete },
    }
}

} // verus!

verus! {

// ---------------------------------------------------------------------------
// File names from tags
// ---------------------------------------------------------------------------

/// Replacement pairs as text.
pub open spec fn pairs_text(v: Seq<(String, String)>) -> Seq<(Seq<char>, Seq<char>)> {
    v.map_values(|p: (String, String)| (p.0@, p.1@))
}

/// The replacement listed for character `c`: the text paired with the
/// first key that is exactly `c`.
pub open spec fn replacement_for(pairs: Seq<(Seq<char>, Seq<char>)>, c: char) -> Option<Seq<char>>
    decreases pairs.len(),
{
    if pairs.len() == 0 {
        None
    } else if pairs[0].0 == seq![c] {
        Some(pairs[0].1)
    } else {
        replacement_for(pairs.drop_first(), c)
    }
}

/// How one character is written in a file name.
pub open spec fn sanitized_char(c: char, pairs: Option<Seq<(Seq<char>, Seq<char>)>>) -> Seq<char> {
    match pairs {
        Some(p) => match replacement_for(p, c) {
            Some(t) => t,
            None => seq![c],
        },
        None => seq![c],
    }
}

/// A tag value made safe for a file name: each character with a
/// replacement is replaced, the others kept.
pub open spec fn sanitized(s: Seq<char>, pairs: Option<Seq<(Seq<char>, Seq<char>)>>) -> Seq<char>
    decreases s.len(),
{
    if s.len() == 0 {
        Seq::empty()
    } else {
        sanitized(s.drop_last(), pairs) + sanitized_char(s.last(), pairs)
    }
}

/// Optional replacement pairs as text.
pub open spec fn opt_pairs(r: Option<&Vec<(String, String)>>) -> Option<Seq<(Seq<char>, Seq<char>)>> {
    match r {
        Some(v) => Some(pairs_text(v@)),
        None => None,
    }
}

fn replacement_of<'a>(pairs: &'a Vec<(String, String)>, c: char) -> (r: Option<&'a String>)
    ensures
        match r {
            Some(t) => replacement_for(pairs_text(pairs@), c) == Some(t@),
            None => replacement_for(pairs_text(pairs@), c) is None,
        },
{
    let ghost ps = pairs_text(pairs@);
    let mut i: usize = 0;
    assert(ps.skip(0) =~= ps);
    while i < pairs.len()
        invariant
            i <= pairs@.len(),
            ps == pairs_text(pairs@),
            replacement_for(ps, c) == replacement_for(ps.skip(i as int), c),
        decreases pairs@.len() - i,
    {
        let key = chars_of(pairs[i].0.as_str());
        assert(ps.skip(i as int)[0] == (pairs@[i as int].0@, pairs@[i as int].1@));
        assert(ps.skip(i as int).drop_first() =~= ps.skip(i + 1));
        if key.len() == 1 && key[0] == c {
            assert(key@ =~= seq![c]);
            return Some(&pairs[i].1);
        }
        assert(key@ != seq![c]) by {
            if key@ == seq![c] {
                assert(key@.len() == 1);
            }
        }
        i = i + 1;
    }
    None
}

/// Makes a tag value safe for use in a file name with the configured
/// replacements.
pub fn sanitize_filename_component(s: &str, replacements: Option<&Vec<(String, String)>>) -> (r: String)
    ensures
        r@ == sanitized(s@, opt_pairs(replacements)),
{
    let cs = chars_of(s);
    let mut r = String::new();
    let mut i: usize = 0;
    assert(cs@.take(0) =~= Seq::<char>::empty());
    while i < cs.len()
        invariant
            i <= cs@.len(),
            cs@ == s@,
            r@ == sanitized(cs@.take(i as int), opt_pairs(replacements)),
        decreases cs@.len() - i,
    {
        let c = cs[i];
        let mut done = false;
        match replacements {
            Some(map) => match replacement_of(map, c) {
                Some(t) => {
                    push_str(&mut r, t.as_str());
                    done = true;
                },
                None => {},
            },
            None => {},
        }
        if !done {
            push_char(&mut r, c);
            assert(r@ =~= sanitized(cs@.take(i as int), opt_pairs(replacements)) + seq![c]);
        }
        assert(cs@.take(i + 1).drop_last() =~= cs@.take(i as int));
        assert(cs@.take(i + 1).last() == c);
        i = i + 1;
    }
    assert(cs@.take(cs@.len() as int) =~= cs@);
    r
}

/// `s` with every occurrence of `from` (nonempty), scanning from the left
/// without overlaps, replaced by `to` (`str::replace`).
pub open spec fn replaced(s: Seq<char>, from: Seq<char>, to: Seq<char>) -> Seq<char>
    decreases s.len(),
{
    if s.len() == 0 {
        Seq::empty()
    } else if from.len() > 0 && from.len() <= s.len() && s.take(from.len() as int) == from {
        to + replaced(s.skip(from.len() as int), from, to)
    } else {
        seq![s[0]] + replaced(s.drop_first(), from, to)
    }
}

fn starts_at(s: &Vec<char>, i: usize, p: &Vec<char>) -> (r: bool)
    requires
        i <= s@.len(),
    ensures
        r == (p@.len() <= s@.len() - i && s@.skip(i as int).take(p@.len() as int) == p@),
{
    let n = s.len();
    if p.len() > n - i {
        return false;
    }
    let mut k: usize = 0;
    while k < p.len()
        invariant
            n == s@.len(),
            i <= n,
            k <= p@.len() <= s@.len() - i,
            forall|j: int| 0 <= j < k ==> s@[i + j] == p@[j],
        decreases p@.len() - k,
    {
        if s[i + k] != p[k] {
            assert(s@.skip(i as int).take(p@.len() as int)[k as int] != p@[k as int]);
            return false;
        }
        k = k + 1;
    }
    assert(s@.skip(i as int).take(p@.len() as int) =~= p@);
    true
}

/// Replaces every occurrence of `from` in `s` by `to`.
pub fn replace_all(s: &str, from: &str, to: &str) -> (r: String)
    requires
        from@.len() > 0,
    ensures
        r@ == replaced(s@, from@, to@),
{
    let cs = chars_of(s);
    let pat = chars_of(from);
    let mut r = String::new();
    let mut i: usize = 0;
    assert(cs@.skip(0) =~= cs@);
    while i < cs.len()
        invariant
            i <= cs@.len(),
            cs@ == s@,
            pat@ == from@,
            pat@.len() > 0,
            r@ + replaced(cs@.skip(i as int), from@, to@) == replaced(s@, from@, to@),
        decreases cs@.len() - i,
    {
        let ghost rest = cs@.skip(i as int);
        if starts_at(&cs, i, &pat) {
            push_str(&mut r, to);
            assert(rest.skip(pat@.len() as int) =~= cs@.skip(i + pat@.len()));
            assert(r@ + replaced(cs@.skip(i + pat@.len()), from@, to@) =~= replaced(s@, from@, to@));
            i = i + pat.len();
        } else {
            push_char(&mut r, cs[i]);
            assert(rest.drop_first() =~= cs@.skip(i + 1));
            assert(rest[0] == cs@[i as int]);
            assert(r@ + replaced(cs@.skip(i + 1), from@, to@) =~= replaced(s@, from@, to@));
            i = i + 1;
        }
    }
    assert(r@ + Seq::<char>::empty() =~= r@);
    r
}

/// The album artist used in file names: the track artist when the album
/// artist is blank or "Various Artists" (in any ASCII case).
pub open spec fn naming_artist(artist: Seq<char>, albumartist: Seq<char>) -> Seq<char> {
    let t = trim(albumartist);
    if t.len() == 0 || ascii_lower(t) == ascii_lower("Various Artists"@) {
        artist
    } else {
        albumartist
    }
}

/// The path a pattern gives for a track: `{artist}`, `{albumartist}`,
/// `{album}`, `{title}` and `{ext}` replaced, in that order, by the
/// sanitized tag values.
pub open spec fn pattern_path(
    pattern: Seq<char>,
    artist: Seq<char>,
    albumartist: Seq<char>,
    album: Seq<char>,
    title: Seq<char>,
    ext: Seq<char>,
    pairs: Option<Seq<(Seq<char>, Seq<char>)>>,
) -> Seq<char> {
    let p1 = replaced(pattern, "{artist}"@, sanitized(artist, pairs));
    let p2 = replaced(p1, "{albumartist}"@, sanitized(naming_artist(artist, albumartist), pairs));
    let p3 = replaced(p2, "{album}"@, sanitized(album, pairs));
    let p4 = replaced(p3, "{title}"@, sanitized(title, pairs));
    replaced(p4, "{ext}"@, sanitized(ext, pairs))
}

fn is_various_artists(albumartist: &str) -> (r: bool)
    ensures
        r == {
            let t = trim(albumartist@);
            t.len() == 0 || ascii_lower(t) == ascii_lower("Various Artists"@)
        },
{
    let cs = chars_of(albumartist);
    let t = trim_chars(&cs);
    if t.len() == 0 {
        return true;
    }
    let lt = ascii_lowercase(&t);
    let va = chars_of("Various Artists");
    let lva = ascii_lowercase(&va);
    chars_eq(&lt, &lva)
}

/// Builds a track's path from a naming pattern and its tags.
pub fn generate_path_from_pattern(
    pattern: &str,
    artist: &str,
    albumartist: &str,
    album: &str,
    title: &str,
    ext: &str,
    replacements: Option<&Vec<(String, String)>>,
) -> (r: String)
    ensures
        r@ == pattern_path(pattern@, artist@, albumartist@, album@, title@, ext@, opt_pairs(replacements)),
{
    let artist_s = sanitize_filename_component(artist, replacements);
    let albumartist_s = if is_various_artists(albumartist) {
        sanitize_filename_component(artist, replacements)
    } else {
        sanitize_filename_component(albumartist, replacements)
    };
    let album_s = sanitize_filename_component(album, replacements);
    let title_s = sanitize_filename_component(title, replacements);
    let ext_s = sanitize_filename_component(ext, replacements);
    proof {
        reveal_strlit("{artist}");
        reveal_strlit("{albumartist}");
        reveal_strlit("{album}");
        reveal_strlit("{title}");
        reveal_strlit("{ext}");
    }
    let p1 = replace_all(pattern, "{artist}", artist_s.as_str());
    let p2 = replace_all(p1.as_str(), "{albumartist}", albumartist_s.as_str());
    let p3 = replace_all(p2.as_str(), "{album}", album_s.as_str());
    let p4 = replace_all(p3.as_str(), "{title}", title_s.as_str());
    replace_all(p4.as_str(), "{ext}", ext_s.as_str())
}

} // verus!

verus! {

// ---------------------------------------------------------------------------
// Song names from file names
// ---------------------------------------------------------------------------

/// The first position at or after `i` where `p` occurs in `s`.
pub open spec fn match_from(s: Seq<char>, p: Seq<char>, i: int) -> Option<int>
    decreases s.len() + 1 - i,
{
    if i < 0 || i + p.len() > s.len() {
        None
    } else if s.skip(i).take(p.len() as int) == p {
        Some(i)
    } else {
        match_from(s, p, i + 1)
    }
}

/// The second piece of `s` split at `sep` (the text between its first and
/// second occurrence, or to the end), when `sep` occurs at all.
pub open spec fn second_piece(s: Seq<char>, sep: Seq<char>) -> Option<Seq<char>> {
    match match_from(s, sep, 0) {
        None => None,
        Some(i) => {
            let after = s.skip(i + sep.len());
            Some(
                match match_from(after, sep, 0) {
                    Some(j) => after.take(j),
                    None => after,
                },
            )
        },
    }
}

/// The song name in a file stem such as "Artist - Song": the piece after
/// " - ", or else after the full-width " － ".
pub open spec fn song_name_in(stem: Seq<char>) -> Option<Seq<char>> {
    match second_piece(stem, " - "@) {
        Some(x) => Some(x),
        None => second_piece(stem, " － "@),
    }
}

fn find_from(s: &Vec<char>, p: &Vec<char>, from: usize) -> (r: Option<usize>)
    requires
        from <= s@.len(),
        p@.len() > 0,
    ensures
        r matches Some(i) ==> i + p@.len() <= s@.len(),
        match r {
            Some(i) => match_from(s@, p@, from as int) == Some(i as int),
            None => match_from(s@, p@, from as int) is None,
        },
{
    let n = s.len();
    let mut i: usize = from;
    while i <= n && p.len() <= n - i
        invariant
            from <= i <= n,
            n == s@.len(),
            p@.len() > 0,
            match_from(s@, p@, from as int) == match_from(s@, p@, i as int),
        decreases n + 1 - i,
    {
        if starts_at(s, i, p) {
            return Some(i);
        }
        i = i + 1;
    }
    None
}

fn second_piece_of(s: &Vec<char>, sep: &Vec<char>) -> (r: Option<Vec<char>>)
    requires
        sep@.len() > 0,
    ensures
        match r {
            Some(v) => second_piece(s@, sep@) == Some(v@),
            None => second_piece(s@, sep@) is None,
        },
{
    match find_from(s, sep, 0) {
        None => None,
        Some(i) => {
            let n = s.len();
            assert(n == s@.len());
            let start = i + sep.len();
            let mut after: Vec<char> = Vec::new();
            let mut k: usize = start;
            while k < s.len()
                invariant
                    start <= k <= s@.len(),
                    after@ == s@.subrange(start as int, k as int),
                decreases s@.len() - k,
            {
                after.push(s[k]);
                assert(s@.subrange(start as int, k + 1) =~= s@.subrange(start as int, k as int).push(s@[k as int]));
                k = k + 1;
            }
            assert(after@ =~= s@.skip(start as int));
            match find_from(&after, sep, 0) {
                Some(j) => {
                    let mut piece: Vec<char> = Vec::new();
                    let mut m: usize = 0;
                    while m < j
                        invariant
                            m <= j,
                            j as int + sep@.len() <= after@.len(),
                            piece@ == after@.take(m as int),
                        decreases j - m,
                    {
                        piece.push(after[m]);
                        assert(after@.take(m + 1) =~= after@.take(m as int).push(after@[m as int]));
                        m = m + 1;
                    }
                    Some(piece)
                },
                None => Some(after),
            }
        },
    }
}

/// The song name in a file name such as "Artist - Song.flac".
pub fn extract_song_name_from_filename(filename: &str) -> (r: Option<String>)
    ensures
        match file_stem_of(filename@) {
            None => r is None,
            Some(stem) => match r {
                Some(n) => song_name_in(stem) == Some(n@),
                None => song_name_in(stem) is None,
            },
        },
{
    let stem = match path_file_stem(filename) {
        Some(s) => s,
        None => return None,
    };
    let cs = chars_of(stem.as_str());
    proof {
        reveal_strlit(" - ");
        reveal_strlit(" － ");
    }
    let dash = chars_of(" - ");
    let wide = chars_of(" － ");
    match second_piece_of(&cs, &dash) {
        Some(v) => Some(string_of(&v)),
        None => match second_piece_of(&cs, &wide) {
            Some(v) => Some(string_of(&v)),
            None => None,
        },
    }
}

// ---------------------------------------------------------------------------
// CSV export
// ---------------------------------------------------------------------------

/// A field needs quoting when it holds a comma, a quote or a line break.
pub open spec fn needs_quotes(f: Seq<char>) -> bool {
    f.contains(',') || f.contains('"') || f.contains('\n')
}

/// A field as written to CSV: quoted, with its quotes doubled, when needed.
pub open spec fn csv_field(f: Seq<char>) -> Seq<char> {
    if needs_quotes(f) {
        seq!['"'] + replaced(f, "\""@, "\"\""@) + seq!['"']
    } else {
        f
    }
}

/// A CSV record: the fields separated by commas, ended by a newline.
pub open spec fn csv_line(fields: Seq<Seq<char>>) -> Seq<char> {
    join_texts(fields.map_values(|f: Seq<char>| csv_field(f)), ","@) + seq!['\n']
}

fn has_char(v: &Vec<char>, c: char) -> (r: bool)
    ensures
        r == v@.contains(c),
{
    let mut i: usize = 0;
    while i < v.len()
        invariant
            i <= v@.len(),
            forall|j: int| 0 <= j < i ==> v@[j] != c,
        decreases v@.len() - i,
    {
        if v[i] == c {
            assert(v@[i as int] == c);
            return true;
        }
        i = i + 1;
    }
    false
}

/// One CSV record for the given fields.
pub fn csv_row(fields: &[&str]) -> (r: String)
    ensures
        r@ == csv_line(fields@.map_values(|f: &str| f@)),
{
    let ghost fs = fields@.map_values(|f: &str| f@);
    let ghost parts = fs.map_values(|f: Seq<char>| csv_field(f));
    let mut r = String::new();
    let mut i: usize = 0;
    while i < fields.len()
        invariant
            i <= fields@.len(),
            fs == fields@.map_values(|f: &str| f@),
            parts == fs.map_values(|f: Seq<char>| csv_field(f)),
            r@ == join_texts(parts.take(i as int), ","@),
        decreases fields@.len() - i,
    {
        if i > 0 {
            push_str(&mut r, ",");
        }
        let f = fields[i];
        let cs = chars_of(f);
        let ghost before = r@;
        if has_char(&cs, ',') || has_char(&cs, '"') || has_char(&cs, '\n') {
            push_char(&mut r, '"');
            proof {
                reveal_strlit("\"");
            }
            let esc = replace_all(f, "\"", "\"\"");
            push_str(&mut r, esc.as_str());
            push_char(&mut r, '"');
            assert(r@ =~= before + csv_field(f@));
        } else {
            push_str(&mut r, f);
        }
        assert(parts[i as int] == csv_field(f@));
        assert(parts.take(i + 1).drop_last() =~= parts.take(i as int));
        if i == 0 {
            assert(parts.take(1)[0] == csv_field(f@));
            assert(Seq::<char>::empty() + csv_field(f@) =~= csv_field(f@));
        }
        i = i + 1;
    }
    assert(parts.take(fields@.len() as int) =~= parts);
    push_char(&mut r, '\n');
    r
}

/// The full path of a track stored relative to the music directory.
pub fn abs_track_path(base_dir: &str, path: &str) -> (r: String)
    ensures
        r@ == joined(base_dir@, path@),
{
    join_path(base_dir, path)
}

} // verus!

verus! {

// ---------------------------------------------------------------------------
// Indexing audio files
// ---------------------------------------------------------------------------

/// The file types that are indexed.
pub open spec fn audio_extension(ext: Seq<char>) -> bool {
    ext == "mp3"@ || ext == "flac"@ || ext == "wav"@ || ext == "m4a"@
}

/// Whether files with this extension are indexed.
pub fn is_audio_extension(ext: &str) -> (r: bool)
    ensures
        r == audio_extension(ext@),
{
    str_eq(ext, "mp3") || str_eq(ext, "flac") || str_eq(ext, "wav") || str_eq(ext, "m4a")
}

/// A year tag as `i32::from_str` reads it (an optional sign, then
/// decimal digits, within range), or 0 when it does not read.
pub open spec fn year_value(s: Seq<char>) -> i32 {
    let neg = s.len() > 0 && s[0] == '-';
    let d = if s.len() > 0 && (s[0] == '+' || s[0] == '-') { s.drop_first() } else { s };
    if d.len() > 0 && all_digits(d) {
        let v: int = if neg { -(digits_value(d) as int) } else { digits_value(d) as int };
        if i32::MIN <= v <= i32::MAX {
            v as i32
        } else {
            0
        }
    } else {
        0
    }
}

/// Reads the year tag of a file.
pub fn parse_year(s: &str) -> (r: i32)
    ensures
        r == year_value(s@),
{
    let cs = chars_of(s);
    let n = cs.len();
    let neg = n > 0 && cs[0] == '-';
    let start: usize = if n > 0 && (cs[0] == '+' || cs[0] == '-') { 1 } else { 0 };
    let ghost d = if cs@.len() > 0 && (cs@[0] == '+' || cs@[0] == '-') { cs@.drop_first() } else { cs@ };
    assert(d =~= cs@.skip(start as int));
    if start >= n {
        return 0;
    }
    let mut v: i64 = 0;
    let mut i: usize = start;
    assert(cs@.subrange(start as int, start as int) =~= Seq::<char>::empty());
    while i < n
        invariant
            start <= i <= n == cs@.len(),
            cs@ == s@,
            d =~= cs@.skip(start as int),
            d == (if cs@.len() > 0 && (cs@[0] == '+' || cs@[0] == '-') { cs@.drop_first() } else { cs@ }),
            0 <= v <= 2_147_483_648,
            v as nat == digits_value(cs@.subrange(start as int, i as int)),
            neg == (cs@.len() > 0 && cs@[0] == '-'),
            all_digits(cs@.subrange(start as int, i as int)),
        decreases n - i,
    {
        let c = cs[i];
        let ghost pre = cs@.subrange(start as int, i as int);
        let ghost now = cs@.subrange(start as int, i + 1);
        assert(now.drop_last() =~= pre);
        assert(now.last() == c);
        if !('0' <= c && c <= '9') {
            assert(!all_digits(d)) by {
                assert(d[i - start] == c);
                assert(!is_digit(d[i - start]));
            }
            return 0;
        }
        let nv = v * 10 + (c as u32 - '0' as u32) as i64;
        assert(nv as nat == digits_value(now));
        assert(now =~= d.take(i + 1 - start));
        if nv > 2_147_483_648 {
            proof {
                if all_digits(d) {
                    lemma_digits_prefix_le(d, (i + 1 - start) as int);
                }
            }
            return 0;
        }
        assert(all_digits(now)) by {
            assert forall|j: int| 0 <= j < now.len() implies is_digit(#[trigger] now[j]) by {
                if j < pre.len() {
                    assert(now[j] == pre[j]);
                }
            }
        }
        v = nv;
        i = i + 1;
    }
    assert(cs@.subrange(start as int, n as int) =~= d);
    let val = if neg { -v } else { v };
    if val < -2_147_483_648 || val > 2_147_483_647 {
        0
    } else {
        val as i32
    }
}

pub(crate) proof fn lemma_digits_prefix_le(d: Seq<char>, k: int)
    requires
        0 <= k <= d.len(),
        all_digits(d),
    ensures
        digits_value(d.take(k)) <= digits_value(d),
    decreases d.len(),
{
    if k < d.len() {
        let p = d.drop_last();
        assert(all_digits(p)) by {
            assert forall|i: int| 0 <= i < p.len() implies is_digit(#[trigger] p[i]) by {
                assert(p[i] == d[i]);
            }
        }
        assert(d.take(k) =~= p.take(k));
        lemma_digits_prefix_le(p, k);
        assert(is_digit(d.last()));
    } else {
        assert(d.take(k) =~= d);
    }
}

/// What indexing does with one audio file.
#[derive(Debug, Clone)]
pub struct IndexPlan {
    /// The path stored in the database: relative to the music directory
    /// when the file lies under it.
    pub rel_path: String,
    /// Where the naming pattern moves the file, when it moves.
    pub move_to: Option<String>,
}

/// The file's path after renaming by the pattern (when a pattern is set
/// and gives another path).
pub open spec fn planned_move(
    path: Seq<char>,
    ext: Seq<char>,
    artist: Seq<char>,
    albumartist: Seq<char>,
    album: Seq<char>,
    title: Seq<char>,
    music_dir: Seq<char>,
    pattern: Option<Seq<char>>,
    pairs: Option<Seq<(Seq<char>, Seq<char>)>>,
) -> Option<Seq<char>> {
    match pattern {
        None => None,
        Some(p) => {
            let new_abs = joined(music_dir, pattern_path(p, artist, albumartist, album, title, ext, pairs));
            if same_path(new_abs, path) {
                None
            } else {
                Some(new_abs)
            }
        },
    }
}

/// The plan for one file: nothing for files that are not audio; otherwise
/// its (possibly renamed) path, stored relative to the music directory.
pub fn plan_index_entry(
    path: &str,
    ext: &str,
    artist: &str,
    albumartist: &str,
    album: &str,
    title: &str,
    music_dir: &str,
    file_pattern: Option<&str>,
    replace: Option<&Vec<(String, String)>>,
) -> (r: Option<IndexPlan>)
    ensures
        !audio_extension(ext@) ==> r is None,
        audio_extension(ext@) ==> (r matches Some(plan) && {
            let mv = planned_move(
                path@,
                ext@,
                artist@,
                albumartist@,
                album@,
                title@,
                music_dir@,
                opt_text(file_pattern),
                opt_pairs(replace),
            );
            let final_path = match mv {
                Some(m) => m,
                None => path@,
            };
            &&& opt_string(plan.move_to) == mv
            &&& plan.rel_path@ == match stripped_of(final_path, music_dir@) {
                Some(rel) => rel,
                None => final_path,
            }
        }),
{
    if !is_audio_extension(ext) {
        return None;
    }
    let mut move_to: Option<String> = None;
    match file_pattern {
        Some(p) => {
            let new_rel = generate_path_from_pattern(p, artist, albumartist, album, title, ext, replace);
            let new_abs = join_path(music_dir, new_rel.as_str());
            if !paths_equal(new_abs.as_str(), path) {
                move_to = Some(new_abs);
            }
        },
        None => {},
    }
    let final_path = match &move_to {
        Some(m) => m.clone(),
        None => path.to_owned(),
    };
    let rel_path = match path_strip_prefix(final_path.as_str(), music_dir) {
        Some(rel) => rel,
        None => final_path,
    };
    Some(IndexPlan { rel_path, move_to })
}

// ---------------------------------------------------------------------------
// Duplicates of different quality
// ---------------------------------------------------------------------------

/// Quality rank of a file type by (lower-cased) extension, lower is
/// better: FLAC 1, M4A 2, MP3 3, others 100.
pub open spec fn quality_rank_of(ext: Seq<char>) -> u8 {
    let e = lowercase(ext);
    if e == "flac"@ {
        1
    } else if e == "m4a"@ {
        2
    } else if e == "mp3"@ {
        3
    } else {
        100
    }
}

/// The quality rank of a file extension.
pub fn quality_rank(ext: &str) -> (r: u8)
    ensures
        r == quality_rank_of(ext@),
{
    let e = to_lowercase(ext);
    if str_eq(e.as_str(), "flac") {
        1
    } else if str_eq(e.as_str(), "m4a") {
        2
    } else if str_eq(e.as_str(), "mp3") {
        3
    } else {
        100
    }
}

/// The label shown for a quality rank.
pub fn quality_label(rank: u8) -> (r: &'static str)
    ensures
        r@ == (if rank == 1 {
            "FLAC"@
        } else if rank == 2 {
            "M4A"@
        } else if rank == 3 {
            "MP3"@
        } else {
            "OTHER"@
        }),
{
    if rank == 1 {
        "FLAC"
    } else if rank == 2 {
        "M4A"
    } else if rank == 3 {
        "MP3"
    } else {
        "OTHER"
    }
}

/// The files of a duplicate group that have an extension, with their
/// ranks, in listing order.
pub open spec fn ranked_files(files: Seq<Seq<char>>) -> Seq<(u8, Seq<char>)>
    decreases files.len(),
{
    if files.len() == 0 {
        Seq::empty()
    } else {
        let pre = ranked_files(files.drop_last());
        match extension_of(files.last()) {
            Some(e) => pre.push((quality_rank_of(e), files.last())),
            None => pre,
        }
    }
}

/// Better quality first.
pub open spec fn by_rank() -> spec_fn((u8, Seq<char>), (u8, Seq<char>)) -> bool {
    |a: (u8, Seq<char>), b: (u8, Seq<char>)| a.0 <= b.0
}

/// Rank/file pairs as text.
pub open spec fn rank_texts(v: Seq<(u8, String)>) -> Seq<(u8, Seq<char>)> {
    v.map_values(|p: (u8, String)| (p.0, p.1@))
}

/// The files of a duplicate group (comma-separated paths), ranked by
/// quality, best first (equal ranks in listing order); files without an
/// extension are left out.
pub fn quality_listing(paths: &str) -> (r: Vec<(u8, String)>)
    ensures
        rank_texts(r@) == sort_by(ranked_files(split_on(paths@, ',')), by_rank()),
{
    let pieces = split_chars(chars_of(paths).as_slice(), ',');
    let ghost ps = split_on(paths@, ',');
    let mut ranked: Vec<(u8, String)> = Vec::new();
    let mut i: usize = 0;
    assert(ps.take(0) =~= Seq::<Seq<char>>::empty());
    while i < pieces.len()
        invariant
            i <= pieces@.len(),
            views(pieces@) == ps,
            rank_texts(ranked@) == ranked_files(ps.take(i as int)),
        decreases pieces@.len() - i,
    {
        let f = string_of(pieces[i].as_slice());
        assert(f@ == ps[i as int]);
        assert(ps.take(i + 1).drop_last() =~= ps.take(i as int));
        assert(ps.take(i + 1).last() == ps[i as int]);
        match path_extension(f.as_str()) {
            Some(e) => {
                let rank = quality_rank(e.as_str());
                let ghost pre = rank_texts(ranked@);
                let ghost fv = f@;
                ranked.push((rank, f));
                assert(rank_texts(ranked@) =~= pre.push((rank, fv)));
            },
            None => {},
        }
        i = i + 1;
    }
    assert(ps.take(pieces@.len() as int) =~= ps);
    let ghost all = rank_texts(ranked@);
    let ghost items = ranked@;
    let n = ranked.len();
    let mut src = ranked;
    let mut out: Vec<(u8, String)> = Vec::new();
    let mut k: usize = 0;
    assert(all.take(0) =~= Seq::<(u8, Seq<char>)>::empty());
    assert(items.skip(0) =~= items);
    while src.len() > 0
        invariant
            k <= items.len() == n,
            all == rank_texts(items),
            src@ == items.skip(k as int),
            rank_texts(out@) == sort_by(all.take(k as int), by_rank()),
        decreases src@.len(),
    {
        assert(k < items.len());
        let x = src.remove(0);
        assert(x == items[k as int]);
        let ghost s = rank_texts(out@);
        let ghost xv = (x.0, x.1@);
        let mut j: usize = out.len();
        while j > 0 && out[j - 1].0 > x.0
            invariant
                j <= out@.len(),
                s == rank_texts(out@),
                xv == (x.0, x.1@),
                forall|m: int| j <= m < s.len() ==> !(by_rank())(#[trigger] s[m], xv),
            decreases j,
        {
            assert(s[j - 1] == (out@[j - 1].0, out@[j - 1].1@));
            j = j - 1;
        }
        proof {
            lemma_insert_by_at(s, xv, by_rank(), j as int);
        }
        out.insert(j, x);
        assert(rank_texts(out@) =~= s.insert(j as int, xv));
        assert(all[k as int] == xv);
        assert(all.take(k + 1).drop_last() =~= all.take(k as int));
        assert(items.skip(k + 1) =~= items.skip(k as int).drop_first());
        k = k + 1;
    }
    assert(all.take(k as int) =~= all);
    out
}

/// A duplicate group has a strictly better copy than its second best.
pub fn has_lower_quality(listing: &Vec<(u8, String)>) -> (r: bool)
    ensures
        r == (listing@.len() > 1 && listing@[0].0 < listing@[1].0),
{
    listing.len() > 1 && listing[0].0 < listing[1].0
}

} // verus!
