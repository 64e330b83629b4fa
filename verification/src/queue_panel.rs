//! The content of the queue panel: its title, its rows, and the message of
//! an empty queue.

use vstd::prelude::*;
use crate::layout::total_seconds;
use crate::text::{chars_of, decimal, push_decimal, push_str};
use crate::types::{duration_text, format_duration, PlayerState, Track};
use crate::util::{truncate_field, truncated};

verus! {

broadcast use vstd::string::group_string_axioms;

/// "Queue [keys] (N tracks, total time)".
pub open spec fn queue_title_text(keys: Seq<char>, q: Seq<Track>) -> Seq<char> {
    "Queue ["@ + keys + "] ("@ + decimal(q.len()) + " tracks, "@ + duration_text(total_seconds(q))
        + ")"@
}

/// The title of the queue panel.  The running total of durations must stay
/// within `i64`.
pub fn queue_title(keys: &str, q: &[Track]) -> (r: String)
    requires
        forall|k: int|
            0 <= k <= q@.len() ==> i64::MIN <= #[trigger] total_seconds(q@.take(k)) <= i64::MAX,
    ensures
        r@ == queue_title_text(keys@, q@),
{
    let mut total: i64 = 0;
    let mut i: usize = 0;
    assert(q@.take(0) =~= Seq::<Track>::empty());
    while i < q.len()
        invariant
            i <= q@.len(),
            forall|k: int|
                0 <= k <= q@.len() ==> i64::MIN <= #[trigger] total_seconds(q@.take(k))
                    <= i64::MAX,
            total == total_seconds(q@.take(i as int)),
        decreases q@.len() - i,
    {
        assert(q@.take(i + 1).drop_last() =~= q@.take(i as int));
        assert(total_seconds(q@.take(i + 1)) == total_seconds(q@.take(i as int))
            + q@[i as int].duration);
        total = total + q[i].duration;
        i = i + 1;
    }
    assert(q@.take(q@.len() as int) =~= q@);
    let mut r = String::new();
    push_str(&mut r, "Queue [");
    push_str(&mut r, keys);
    push_str(&mut r, "] (");
    push_decimal(&mut r, q.len() as u64);
    push_str(&mut r, " tracks, ");
    let d = format_duration(total);
    push_str(&mut r, d.as_str());
    push_str(&mut r, ")");
    r
}

/// The message of an empty queue, with the keys that fill it.
pub fn queue_empty_text(add_keys: &str, all_keys: &str) -> (r: String)
    ensures
        r@ == "No tracks in queue\n\nPress ["@ + add_keys@ + "] on a track\nor ["@ + all_keys@
            + "] to add all"@,
{
    let mut r = String::new();
    push_str(&mut r, "No tracks in queue\n\nPress [");
    push_str(&mut r, add_keys);
    push_str(&mut r, "] on a track\nor [");
    push_str(&mut r, all_keys);
    push_str(&mut r, "] to add all");
    r
}

/// The icon of a queue row: the player's state on the row that is loaded
/// while the player is not stopped, else blank.
pub open spec fn queue_icon_text(is_current: bool, state: PlayerState) -> Seq<char> {
    if is_current && state != PlayerState::Stopped {
        match state {
            PlayerState::Playing => "▶ "@,
            PlayerState::Paused => "⏸ "@,
            PlayerState::Stopped => "  "@,
        }
    } else {
        "  "@
    }
}

/// The width left for "title - artist" once the icon, the duration and a
/// gap are placed.
pub open spec fn title_room(width: nat, dur_len: nat) -> nat {
    if width >= 3 + dur_len {
        (width - (3 + dur_len)) as nat
    } else {
        0
    }
}

/// A queue row: the icon and "title - artist" cut to the room left, then
/// a space and the duration.
pub open spec fn queue_row_text(t: Track, is_current: bool, state: PlayerState, width: nat) -> (
    Seq<char>,
    Seq<char>,
) {
    let dur = duration_text(t.duration as int);
    (
        queue_icon_text(is_current, state) + truncated(
            t.shown_title() + " - "@ + t.shown_artist(),
            title_room(width, dur.len()),
        ),
        " "@ + dur,
    )
}

pub fn queue_row(t: &Track, is_current: bool, state: PlayerState, width: usize) -> (r: (
    String,
    String,
))
    ensures
        (r.0@, r.1@) == queue_row_text(*t, is_current, state, width as nat),
{
    let dur = t.duration_str();
    let dur_len = chars_of(dur.as_str()).len();
    let room = if dur_len <= width && width - dur_len >= 3 {
        width - dur_len - 3
    } else {
        0
    };
    let icon = if is_current && state != PlayerState::Stopped {
        match state {
            PlayerState::Playing => "▶ ",
            PlayerState::Paused => "⏸ ",
            PlayerState::Stopped => "  ",
        }
    } else {
        "  "
    };
    let mut both = String::new();
    push_str(&mut both, t.display_title());
    push_str(&mut both, " - ");
    push_str(&mut both, t.display_artist());
    let cut = truncate_field(both.as_str(), room);
    let mut left = String::new();
    push_str(&mut left, icon);
    push_str(&mut left, cut.as_str());
    let mut right = String::new();
    push_str(&mut right, " ");
    push_str(&mut right, dur.as_str());
    (left, right)
}

/// How a queue row is coloured.
#[derive(Debug, Clone, Copy, PartialEq, Eq, Structural)]
pub enum QueueLook {
    /// The cursor's row while the queue has the focus.
    Focused,
    /// The cursor's row while another panel has the focus.
    Selected,
    /// The row that is loaded in the player.
    Playing,
    Normal,
}

/// The look of a row: the cursor wins over the loaded track.  The loaded
/// track counts only while the player is not stopped.
pub fn queue_look(selected: bool, active: bool, is_current: bool, state: PlayerState) -> (r:
    QueueLook)
    ensures
        r == if selected && active {
            QueueLook::Focused
        } else if selected {
            QueueLook::Selected
        } else if is_current && state != PlayerState::Stopped {
            QueueLook::Playing
        } else {
            QueueLook::Normal
        },
{
    if selected && active {
        QueueLook::Focused
    } else if selected {
        QueueLook::Selected
    } else if is_current && state != PlayerState::Stopped {
        QueueLook::Playing
    } else {
        QueueLook::Normal
    }
}

} // verus!
