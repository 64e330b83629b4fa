//! Lyre: the verified core of a terminal music player and library manager.

pub mod text;
pub mod util;
pub mod types;
pub mod lyrics;
pub mod keys;
pub mod navigable_list;
pub mod text_input;
pub mod paths;
pub mod order;
pub mod playlist;
pub mod queue;
pub mod keybindings;
pub mod mpris;
pub mod lrclib;
pub mod config;
pub mod cli;
pub mod indexer;
pub mod sync;
pub mod library;
pub mod colors;
pub mod overlay;
pub mod compress;
pub mod query;

pub mod view;
pub mod background;
pub mod favorites;
pub mod rows;
pub mod playlist_edit;
pub mod status;
pub mod layout;
pub mod startup;
pub mod metadata;
pub mod now_playing;
pub mod info_panel;
pub mod geometry;
pub mod search_panel;
pub mod help_view;
pub mod queue_panel;
pub mod lyrics_panel;
pub mod sidebar_panel;
pub mod dedupe;
pub mod ignore;
