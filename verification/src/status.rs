//! The status line: what the player reports after a command.

use vstd::prelude::*;
use crate::text::{decimal, push_decimal, push_str};
use crate::types::{LoopMode, SortField, SortOrder, Track};

verus! {

broadcast use vstd::string::group_string_axioms;

/// "Sort: Artist ↑" — the sort field and an arrow for the order.
pub open spec fn sort_status_text(f: SortField, o: SortOrder) -> Seq<char> {
    "Sort: "@ + f.label_text() + " "@ + if o == SortOrder::Asc {
        "↑"@
    } else {
        "↓"@
    }
}

pub fn sort_status(f: SortField, o: SortOrder) -> (r: String)
    ensures
        r@ == sort_status_text(f, o),
{
    let mut r = String::new();
    push_str(&mut r, "Sort: ");
    push_str(&mut r, f.label());
    push_str(&mut r, " ");
    push_str(&mut r, if o == SortOrder::Asc {
        "↑"
    } else {
        "↓"
    });
    r
}

/// "Shuffle: on" or "Shuffle: off".
pub fn shuffle_status(on: bool) -> (r: String)
    ensures
        r@ == "Shuffle: "@ + if on {
            "on"@
        } else {
            "off"@
        },
{
    let mut r = String::new();
    push_str(&mut r, "Shuffle: ");
    push_str(&mut r, if on {
        "on"
    } else {
        "off"
    });
    r
}

/// "Loop: " and the loop mode's label.
pub fn loop_status(m: LoopMode) -> (r: String)
    ensures
        r@ == "Loop: "@ + m.label_text(),
{
    let mut r = String::new();
    push_str(&mut r, "Loop: ");
    push_str(&mut r, m.label());
    r
}

/// "Playing: Title — Artist" for the track that started.
pub fn playing_status(t: &Track) -> (r: String)
    ensures
        r@ == "Playing: "@ + t.shown_title() + " — "@ + t.shown_artist(),
{
    let mut r = String::new();
    push_str(&mut r, "Playing: ");
    push_str(&mut r, t.display_title());
    push_str(&mut r, " — ");
    push_str(&mut r, t.display_artist());
    r
}

/// "Added to queue: Title" after adding one track.
pub fn queued_status(t: &Track) -> (r: String)
    ensures
        r@ == "Added to queue: "@ + t.shown_title(),
{
    let mut r = String::new();
    push_str(&mut r, "Added to queue: ");
    push_str(&mut r, t.display_title());
    r
}

/// "Added 3 tracks to queue".
pub fn queued_many_status(n: usize) -> (r: String)
    ensures
        r@ == "Added "@ + decimal(n as nat) + " tracks to queue"@,
{
    let mut r = String::new();
    push_str(&mut r, "Added ");
    push_decimal(&mut r, n as u64);
    push_str(&mut r, " tracks to queue");
    r
}

/// "Created playlist: Name".
pub fn created_status(name: &str) -> (r: String)
    ensures
        r@ == "Created playlist: "@ + name@,
{
    let mut r = String::new();
    push_str(&mut r, "Created playlist: ");
    push_str(&mut r, name);
    r
}

/// After adding `n` tracks to a playlist: "Added to Name" for one track,
/// "Added 3 tracks to Name" otherwise.
pub open spec fn added_to_playlist_text(n: nat, name: Seq<char>) -> Seq<char> {
    if n == 1 {
        "Added to "@ + name
    } else {
        "Added "@ + decimal(n) + " tracks to "@ + name
    }
}

pub fn added_to_playlist_status(n: usize, name: &str) -> (r: String)
    ensures
        r@ == added_to_playlist_text(n as nat, name@),
{
    let mut r = String::new();
    if n == 1 {
        push_str(&mut r, "Added to ");
    } else {
        push_str(&mut r, "Added ");
        push_decimal(&mut r, n as u64);
        push_str(&mut r, " tracks to ");
    }
    push_str(&mut r, name);
    r
}

} // verus!
