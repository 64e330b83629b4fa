//! Lyrics from the lrclib service: the request for a track, when a request
//! is retried, when the search endpoint is asked as well, and which lyrics
//! are kept from the answer.
//!
//! The requests themselves are made by the caller; the functions here decide
//! what to ask and what the answers mean.

use vstd::prelude::*;
use crate::lyrics::{is_synced_lyrics, starts_timed};
use crate::text::{decimal, is_blank, lines, push_decimal, trim};

verus! {

/// What was found for one track.
#[derive(Debug, Clone)]
pub enum LyricsResolution {
    Synced(String),
    Plain(String),
    Instrumental,
}

impl LyricsResolution {
    pub open spec fn tag_view(self) -> Seq<char> {
        match self {
            LyricsResolution::Synced(s) => s@,
            LyricsResolution::Plain(s) => s@,
            LyricsResolution::Instrumental => "[Instrumental]"@,
        }
    }

    /// The exact text to write into the file's lyrics tag.
    pub fn tag_text(self) -> (r: String)
        ensures
            r@ == self.tag_view(),
    {
        match self {
            LyricsResolution::Synced(s) => s,
            LyricsResolution::Plain(s) => s,
            LyricsResolution::Instrumental => "[Instrumental]".to_owned(),
        }
    }

    pub open spec fn kind_name(self) -> Seq<char> {
        match self {
            LyricsResolution::Synced(_) => "synced"@,
            LyricsResolution::Plain(_) => "plain"@,
            LyricsResolution::Instrumental => "instrumental"@,
        }
    }

    /// The kind of lyrics, as reported to the user.
    pub fn kind(&self) -> (r: &'static str)
        ensures
            r@ == self.kind_name(),
    {
        match self {
            LyricsResolution::Synced(_) => "synced",
            LyricsResolution::Plain(_) => "plain",
            LyricsResolution::Instrumental => "instrumental",
        }
    }
}

/// One entry of an lrclib answer.
#[derive(Debug, Clone)]
pub struct LrcLibResult {
    pub track_name: String,
    pub artist_name: String,
    pub plain_lyrics: Option<String>,
    pub synced_lyrics: Option<String>,
    pub instrumental: bool,
}

/// Text that is present and not blank.
pub open spec fn filled(t: Option<String>) -> bool {
    t matches Some(s) && trim(s@).len() != 0
}

fn is_filled(t: &Option<String>) -> (r: bool)
    ensures
        r == filled(*t),
{
    match t {
        Some(s) => !is_blank(s.as_str()),
        None => false,
    }
}

/// The direct lookup gave nothing usable: no entry, or an entry without
/// synced lyrics that is not marked instrumental.
pub open spec fn wants_search(result: Option<LrcLibResult>) -> bool {
    match result {
        None => true,
        Some(r) => !r.instrumental && !filled(r.synced_lyrics),
    }
}

/// Whether the search endpoint should be asked after the direct lookup.
pub fn needs_fallback(result: &Option<LrcLibResult>) -> (r: bool)
    ensures
        r == wants_search(*result),
{
    match result {
        None => true,
        Some(r) => !r.instrumental && !is_filled(&r.synced_lyrics),
    }
}

/// What an entry yields: synced lyrics if it has them, else plain lyrics,
/// else (nothing but blanks) instrumental.
pub open spec fn resolution_view(r: LrcLibResult) -> (Seq<char>, Seq<char>) {
    if filled(r.synced_lyrics) {
        ("synced"@, r.synced_lyrics->0@)
    } else if filled(r.plain_lyrics) {
        ("plain"@, r.plain_lyrics->0@)
    } else {
        ("instrumental"@, "[Instrumental]"@)
    }
}

/// The resolution of one entry.
pub fn resolution_of(r: LrcLibResult) -> (res: LyricsResolution)
    ensures
        (res.kind_name(), res.tag_view()) == resolution_view(r),
{
    let synced = is_filled(&r.synced_lyrics);
    let plain = is_filled(&r.plain_lyrics);
    if synced {
        match r.synced_lyrics {
            Some(s) => LyricsResolution::Synced(s),
            None => LyricsResolution::Instrumental,
        }
    } else if plain {
        match r.plain_lyrics {
            Some(p) => LyricsResolution::Plain(p),
            None => LyricsResolution::Instrumental,
        }
    } else {
        LyricsResolution::Instrumental
    }
}

/// The lyrics for a track from the direct lookup and, when one was made,
/// the search: the search's entry replaces the lookup's when the lookup
/// wanted a search and the search found something.  `None` when neither
/// found an entry.
pub fn resolve_with(primary: Option<LrcLibResult>, searched: Option<LrcLibResult>) -> (res: Option<LyricsResolution>)
    ensures
        match res {
            None => primary is None && (searched is None || !wants_search(primary)),
            Some(l) => {
                let chosen = if wants_search(primary) && searched is Some {
                    searched->0
                } else {
                    primary->0
                };
                (primary is Some || searched is Some)
                    && (l.kind_name(), l.tag_view()) == resolution_view(chosen)
            },
        },
{
    let fallback = needs_fallback(&primary);
    let chosen = if fallback && searched.is_some() {
        searched
    } else {
        primary
    };
    match chosen {
        Some(r) => Some(resolution_of(r)),
        None => None,
    }
}

/// The query parameters of a direct lookup: artist and track, then album
/// and duration when known.
pub open spec fn lookup_query(
    artist: Seq<char>,
    title: Seq<char>,
    album: Option<Seq<char>>,
    duration: Option<u32>,
) -> Seq<(Seq<char>, Seq<char>)> {
    let base = seq![("artist_name"@, artist), ("track_name"@, title)];
    let with_album = match album {
        Some(a) => base.push(("album_name"@, a)),
        None => base,
    };
    match duration {
        Some(d) => with_album.push(("duration"@, decimal(d as nat))),
        None => with_album,
    }
}

/// Query pairs as text.
pub open spec fn pair_views(q: Seq<(String, String)>) -> Seq<(Seq<char>, Seq<char>)> {
    q.map_values(|p: (String, String)| (p.0@, p.1@))
}

/// The query parameters for looking up a track.
pub fn fetch_query(artist: &str, title: &str, album: Option<&str>, duration_secs: Option<u32>) -> (q: Vec<(String, String)>)
    ensures
        pair_views(q@) == lookup_query(
            artist@,
            title@,
            match album {
                Some(a) => Some(a@),
                None => None,
            },
            duration_secs,
        ),
{
    let mut q: Vec<(String, String)> = vec![
        ("artist_name".to_owned(), artist.to_owned()),
        ("track_name".to_owned(), title.to_owned()),
    ];
    let ghost q0 = pair_views(q@);
    match album {
        Some(a) => {
            q.push(("album_name".to_owned(), a.to_owned()));
            assert(pair_views(q@) =~= q0.push(("album_name"@, a@)));
        },
        None => {},
    }
    let ghost q1 = pair_views(q@);
    match duration_secs {
        Some(d) => {
            let mut t = String::new();
            push_decimal(&mut t, d as u64);
            q.push(("duration".to_owned(), t));
            assert(pair_views(q@) =~= q1.push(("duration"@, decimal(d as nat))));
        },
        None => {},
    }
    assert(pair_views(q@) =~= lookup_query(
        artist@,
        title@,
        match album {
            Some(a) => Some(a@),
            None => None,
        },
        duration_secs,
    ));
    q
}

/// The query parameters of a search: artist and track.
pub fn search_query(artist: &str, title: &str) -> (q: Vec<(String, String)>)
    ensures
        pair_views(q@) == seq![("artist_name"@, artist@), ("track_name"@, title@)],
{
    let q = vec![
        ("artist_name".to_owned(), artist.to_owned()),
        ("track_name".to_owned(), title.to_owned()),
    ];
    assert(pair_views(q@) =~= seq![("artist_name"@, artist@), ("track_name"@, title@)]);
    q
}

/// A status worth retrying: too many requests, or a server error.
pub open spec fn transient(status: u16) -> bool {
    status == 429 || (500 <= status <= 599)
}

/// After the `attempt`-th request (counting from 1) came back with
/// `status`: `None` to take that answer, or how many milliseconds to wait
/// before asking again.  Transient failures are retried up to five requests
/// in all, waiting 500 ms doubled per attempt.
pub fn retry_delay_ms(attempt: u32, status: u16) -> (r: Option<u64>)
    ensures
        !transient(status) || attempt >= 5 ==> r is None,
        transient(status) && attempt < 5 ==> r == Some(
            (500 * vstd::arithmetic::power2::pow2(attempt as nat)) as u64,
        ),
{
    let is_transient = status == 429 || (500 <= status && status <= 599);
    if !is_transient || attempt >= 5 {
        return None;
    }
    let shift = if attempt < 6 { attempt } else { 6 };
    proof {
        vstd::arithmetic::power2::lemma2_to64();
    }
    let factor: u64 = 1u64 << shift;
    assert(factor == vstd::arithmetic::power2::pow2(shift as nat)) by {
        vstd::bits::lemma_u64_shl_is_mul(1, shift as u64);
    }
    Some(500 * factor)
}

} // verus!

verus! {

// ---------------------------------------------------------------------------
// Which tracks get lyrics, and what is asked for them
// ---------------------------------------------------------------------------

/// All characters are ASCII.
pub open spec fn is_ascii_text(s: Seq<char>) -> bool {
    forall|i: int| 0 <= i < s.len() ==> (s[i] as u32) < 128
}

/// What `deunicode::deunicode` gives for a text: an ASCII transliteration.
pub uninterp spec fn transliterated(s: Seq<char>) -> Seq<char>;

/// `deunicode::deunicode`: the crate documents that the result is ASCII and
/// that every ASCII character maps to itself (so ASCII text comes back
/// unchanged).  The transliteration tables themselves are not restated.
#[verifier::external_body]
pub(crate) fn normalize_text(s: &str) -> (r: String)
    ensures
        r@ == transliterated(s@),
        is_ascii_text(r@),
        is_ascii_text(s@) ==> r@ == s@,
{
    deunicode::deunicode(s)
}

/// A track that will be given lyrics.
#[derive(Debug, Clone)]
pub struct LyricsCandidate {
    /// Full path of the audio file.
    pub path: String,
    /// Album artist if present, else track artist.
    pub artist: String,
    pub album: String,
    pub title: String,
    pub duration: i64,
    pub has_lyrics: bool,
    pub is_synced: bool,
}

/// The lyrics already in a file are worth keeping: there are some, and they
/// are synced or no overwrite was asked for.
pub open spec fn keeps_lyrics(existing: Option<Seq<char>>, overwrite: bool) -> bool {
    match existing {
        Some(l) => trim(l).len() != 0 && (synced_text(l) || !overwrite),
        None => false,
    }
}

/// Some line of the text starts with an LRC timestamp.
pub open spec fn synced_text(l: Seq<char>) -> bool {
    exists|i: int| 0 <= i < lines(l).len() && starts_timed(#[trigger] lines(l)[i])
}

/// Decides whether a track gets lyrics, given the lyrics already in its file:
/// it does when it has none (or only blanks), or when they are unsynced and
/// `overwrite` is set.  The artist asked for is the album artist unless that
/// is blank.
pub fn lyrics_candidate(
    abs_path: String,
    artist: String,
    albumartist: String,
    album: String,
    title: String,
    duration: i64,
    existing: Option<&str>,
    overwrite: bool,
) -> (r: Option<LyricsCandidate>)
    ensures
        ({
            let ex = match existing {
                Some(e) => Some(e@),
                None => None,
            };
            match r {
                None => keeps_lyrics(ex, overwrite),
                Some(c) => {
                    &&& !keeps_lyrics(ex, overwrite)
                    &&& c.path@ == abs_path@
                    &&& c.artist@ == (if trim(albumartist@).len() == 0 {
                        artist@
                    } else {
                        albumartist@
                    })
                    &&& c.album@ == album@
                    &&& c.title@ == title@
                    &&& c.duration == duration
                    &&& c.has_lyrics == (ex matches Some(l) && trim(l).len() != 0)
                    &&& c.is_synced == (ex matches Some(l) && trim(l).len() != 0 && synced_text(l))
                },
            }
        }),
{
    let (has_lyrics, is_synced) = match existing {
        Some(l) => {
            if is_blank(l) {
                (false, false)
            } else {
                (true, is_synced_lyrics(l))
            }
        },
        None => (false, false),
    };
    if !has_lyrics || (!is_synced && overwrite) {
        let artist = if is_blank(albumartist.as_str()) {
            artist
        } else {
            albumartist
        };
        Some(LyricsCandidate { path: abs_path, artist, album, title, duration, has_lyrics, is_synced })
    } else {
        None
    }
}

/// What to write into a candidate's lyrics tag for a found resolution:
/// existing unsynced lyrics are replaced only by synced ones; a track
/// without lyrics takes whatever was found.
pub fn lyrics_to_write(c: &LyricsCandidate, r: LyricsResolution) -> (w: Option<String>)
    ensures
        match w {
            Some(t) => !(c.has_lyrics && !c.is_synced && !(r is Synced)) && t@ == r.tag_view(),
            None => c.has_lyrics && !c.is_synced && !(r is Synced),
        },
{
    let synced = match &r {
        LyricsResolution::Synced(_) => true,
        _ => false,
    };
    if c.has_lyrics && !c.is_synced && !synced {
        None
    } else {
        Some(r.tag_text())
    }
}

impl LyricsCandidate {
    pub open spec fn reason_text(&self) -> Seq<char> {
        if !self.has_lyrics {
            "missing lyrics"@
        } else {
            "unsynced — will overwrite"@
        }
    }

    /// Why the track is updated.
    pub fn reason(&self) -> (r: &'static str)
        ensures
            r@ == self.reason_text(),
    {
        if !self.has_lyrics {
            "missing lyrics"
        } else {
            "unsynced — will overwrite"
        }
    }

    /// The duration sent with the lookup: the track's length in seconds when
    /// it is known (positive), cut to 32 bits.
    pub open spec fn lookup_duration(&self) -> Option<u32> {
        if self.duration > 0 {
            Some(self.duration as u32)
        } else {
            None
        }
    }

    /// The query of the direct lookup for this track: artist and title
    /// transliterated to ASCII, the album when there is one, the duration
    /// when known.
    pub fn lookup_query_params(&self) -> (q: Vec<(String, String)>)
        ensures
            pair_views(q@) == lookup_query(
                transliterated(self.artist@),
                transliterated(self.title@),
                if self.album@.len() == 0 {
                    None
                } else {
                    Some(self.album@)
                },
                self.lookup_duration(),
            ),
    {
        let dur: Option<u32> = if self.duration > 0 {
            Some(self.duration as u32)
        } else {
            None
        };
        let artist = normalize_text(self.artist.as_str());
        let title = normalize_text(self.title.as_str());
        let album: Option<&str> = if self.album.as_str().is_empty() {
            None
        } else {
            Some(self.album.as_str())
        };
        fetch_query(artist.as_str(), title.as_str(), album, dur)
    }

    /// The query of the fallback search for this track: artist and title
    /// transliterated to ASCII.
    pub fn search_query_params(&self) -> (q: Vec<(String, String)>)
        ensures
            pair_views(q@) == seq![
                ("artist_name"@, transliterated(self.artist@)),
                ("track_name"@, transliterated(self.title@)),
            ],
    {
        let artist = normalize_text(self.artist.as_str());
        let title = normalize_text(self.title.as_str());
        search_query(artist.as_str(), title.as_str())
    }
}

} // verus!
