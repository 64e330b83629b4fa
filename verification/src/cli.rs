//! The command line: the subcommands of the program and their options.
//! Parsing the arguments is the front end's part.

use vstd::prelude::*;

verus! {

/// The parsed command line: a subcommand, or none to open the player.
#[derive(Debug, Clone)]
pub struct Cli {
    pub command: Option<Commands>,
}

/// The subcommands.
#[derive(Debug, Clone)]
pub enum Commands {
    /// Index the music library and playlists.
    Index { dry_run: bool, source: Option<String> },
    /// Find duplicate tracks.
    Dupes { fix: bool },
    /// List all tracks.
    Ls { query: Option<String>, genre: Option<String> },
    /// Export tracks to CSV.
    Export,
    /// Show statistics.
    Stats,
    /// Search the library.
    Search { query: String },
    /// List all genres.
    Genres,
    /// Compress audio files for mobile sync.
    Compress {
        output_dir: String,
        format: String,
        bitrate: String,
        jobs: Option<usize>,
        force: bool,
        query: Option<String>,
    },
    /// Fetch and embed lyrics.
    Lyrics { query: Option<String>, overwrite: bool, dry_run: bool },
    /// Show detailed info about a track.
    Info { query: String },
    /// Show or edit the configuration file.
    Config { edit: bool },
    /// Sync two music libraries by comparing their databases.
    Sync { src: String, dst: String, dry_run: bool, no_delete: bool },
}

} // verus!
