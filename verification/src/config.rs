//! The configuration: where the library lives, how files are named on
//! import, the look of the interface, and the character replacements used
//! in file names.
//!
//! Reading and writing the configuration file is the front end's part; this
//! module holds the values and their defaults.

use vstd::prelude::*;

verus! {

/// Default database path.
pub const DEFAULT_DATABASE_PATH: &'static str = "~/Music/music_library.db";

/// Default music directory.
pub const DEFAULT_MUSIC_DIR: &'static str = "~/Music";

/// Where the library and its database are, and how imported files are
/// named.
#[derive(Debug, Clone)]
pub struct FilesConfig {
    pub database_name: String,
    pub music_directory: String,
    /// File-naming pattern for renaming files on import, such as
    /// `"{album}/{albumartist} - {title}.{ext}"`.
    pub file_pattern: Option<String>,
    /// Glob patterns (relative to the music directory) skipped when
    /// indexing.
    pub ignore: Option<Vec<String>>,
}

/// Colours set in the configuration, each as text (`#RRGGBB` or
/// `R, G, B`); unset ones come from the theme.
#[derive(Debug, Clone)]
pub struct UiColorsConfig {
    pub foreground: Option<String>,
    pub background: Option<String>,
    pub accent: Option<String>,
    pub accent2: Option<String>,
    pub dim: Option<String>,
    pub highlight: Option<String>,
    pub playing: Option<String>,
    pub header_bg: Option<String>,
    pub selection_bg: Option<String>,
    pub overlay_bg: Option<String>,
    pub gauge_bg: Option<String>,
    pub art_bg: Option<String>,
    pub art_border: Option<String>,
}

/// The interface settings.
#[derive(Debug, Clone)]
pub struct UiConfig {
    pub theme: Option<String>,
    pub colors: UiColorsConfig,
    /// Extra track-list columns, by configuration key.
    pub columns: Vec<String>,
}

/// The whole configuration.
#[derive(Debug, Clone)]
pub struct Config {
    pub files: FilesConfig,
    pub ui: UiConfig,
    /// Replacements for characters that file systems refuse, applied to
    /// file and folder names when renaming on import: (character, text)
    /// pairs, each character listed once.
    pub replace: Option<Vec<(String, String)>>,
}

/// The columns shown by default.
pub open spec fn default_column_keys() -> Seq<Seq<char>> {
    seq!["artist"@, "album"@, "duration"@, "play_count"@]
}

/// The default replacements: look-alike characters for those that file
/// systems refuse.
pub open spec fn default_replacements() -> Seq<(Seq<char>, Seq<char>)> {
    seq![
        (":"@, "∶"@),
        ("/"@, "⁄"@),
        ("*"@, "∗"@),
        ("?"@, "？"@),
        ("\""@, "″"@),
        ("\\"@, "⧵"@),
        ("."@, "․"@),
        ("|"@, "ǀ"@),
        ("<"@, "‹"@),
        (">"@, "›"@),
    ]
}

/// Texts as character sequences.
pub open spec fn texts(v: Seq<String>) -> Seq<Seq<char>> {
    v.map_values(|s: String| s@)
}

/// Replacement pairs as character sequences.
pub open spec fn pair_texts(v: Seq<(String, String)>) -> Seq<(Seq<char>, Seq<char>)> {
    v.map_values(|p: (String, String)| (p.0@, p.1@))
}

/// The default database path.
pub fn default_database_name() -> (r: String)
    ensures
        r@ == DEFAULT_DATABASE_PATH@,
{
    DEFAULT_DATABASE_PATH.to_owned()
}

/// The default music directory.
pub fn default_music_directory() -> (r: String)
    ensures
        r@ == DEFAULT_MUSIC_DIR@,
{
    DEFAULT_MUSIC_DIR.to_owned()
}

/// The columns shown by default.
pub fn default_columns() -> (r: Vec<String>)
    ensures
        texts(r@) == default_column_keys(),
{
    let r = vec!["artist".to_owned(), "album".to_owned(), "duration".to_owned(), "play_count".to_owned()];
    assert(texts(r@) =~= default_column_keys());
    r
}

/// The default replacements.
pub fn default_replace() -> (r: Option<Vec<(String, String)>>)
    ensures
        r matches Some(v) && pair_texts(v@) == default_replacements(),
{
    let v = vec![
        (":".to_owned(), "∶".to_owned()),
        ("/".to_owned(), "⁄".to_owned()),
        ("*".to_owned(), "∗".to_owned()),
        ("?".to_owned(), "？".to_owned()),
        ("\"".to_owned(), "″".to_owned()),
        ("\\".to_owned(), "⧵".to_owned()),
        (".".to_owned(), "․".to_owned()),
        ("|".to_owned(), "ǀ".to_owned()),
        ("<".to_owned(), "‹".to_owned()),
        (">".to_owned(), "›".to_owned()),
    ];
    assert(pair_texts(v@) =~= default_replacements());
    Some(v)
}

impl UiColorsConfig {
    /// No colour is set.
    pub open spec fn unset(&self) -> bool {
        &&& self.foreground is None
        &&& self.background is None
        &&& self.accent is None
        &&& self.accent2 is None
        &&& self.dim is None
        &&& self.highlight is None
        &&& self.playing is None
        &&& self.header_bg is None
        &&& self.selection_bg is None
        &&& self.overlay_bg is None
        &&& self.gauge_bg is None
        &&& self.art_bg is None
        &&& self.art_border is None
    }
}

impl Default for FilesConfig {
    fn default() -> (r: Self)
        ensures
            r.database_name@ == DEFAULT_DATABASE_PATH@,
            r.music_directory@ == DEFAULT_MUSIC_DIR@,
            r.file_pattern is None,
            r.ignore is None,
    {
        FilesConfig {
            database_name: default_database_name(),
            music_directory: default_music_directory(),
            file_pattern: None,
            ignore: None,
        }
    }
}

impl Default for UiColorsConfig {
    fn default() -> (r: Self)
        ensures
            r.unset(),
    {
        UiColorsConfig {
            foreground: None,
            background: None,
            accent: None,
            accent2: None,
            dim: None,
            highlight: None,
            playing: None,
            header_bg: None,
            selection_bg: None,
            overlay_bg: None,
            gauge_bg: None,
            art_bg: None,
            art_border: None,
        }
    }
}

impl Default for UiConfig {
    fn default() -> (r: Self)
        ensures
            r.theme is None,
            r.colors.unset(),
            texts(r.columns@) == default_column_keys(),
    {
        UiConfig { theme: None, colors: UiColorsConfig::default(), columns: default_columns() }
    }
}

impl Default for Config {
    fn default() -> (r: Self)
        ensures
            r.files.database_name@ == DEFAULT_DATABASE_PATH@,
            r.files.music_directory@ == DEFAULT_MUSIC_DIR@,
            r.files.file_pattern is None,
            r.files.ignore is None,
            r.ui.theme is None,
            r.ui.colors.unset(),
            texts(r.ui.columns@) == default_column_keys(),
            r.replace matches Some(v) && pair_texts(v@) == default_replacements(),
    {
        Config { files: FilesConfig::default(), ui: UiConfig::default(), replace: default_replace() }
    }
}

} // verus!
