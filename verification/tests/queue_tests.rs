use lyre::queue::{PlayQueue, Step};
use lyre::types::{LoopMode, Track};

fn track(path: &str) -> Track {
    Track {
        path: path.to_string(),
        artist: String::new(),
        album: String::new(),
        albumartist: String::new(),
        title: String::new(),
        duration: 0,
        year: 0,
        genre: String::new(),
        added_at: 0,
        favorite: false,
        play_count: 0,
        last_played: 0,
    }
}

fn queue_of(n: usize, start: usize) -> PlayQueue {
    let mut q = PlayQueue::new();
    q.set_queue((0..n).map(|i| track(&format!("/t{}", i))).collect(), start);
    q
}

#[test]
fn next_walks_forward_and_stops_at_end() {
    let mut q = queue_of(3, 0);
    assert_eq!(q.next(), Step::Play(1));
    assert_eq!(q.next(), Step::Play(2));
    assert_eq!(q.next(), Step::Stop);
    assert_eq!(q.queue_index, 2);
}

#[test]
fn next_wraps_with_loop_all() {
    let mut q = queue_of(3, 2);
    q.toggle_loop();
    assert_eq!(q.loop_mode, LoopMode::All);
    assert_eq!(q.next(), Step::Play(0));
}

#[test]
fn loop_one_replays() {
    let mut q = queue_of(3, 1);
    q.toggle_loop();
    q.toggle_loop();
    assert_eq!(q.loop_mode, LoopMode::One);
    assert_eq!(q.next(), Step::Play(1));
    assert_eq!(q.prev(), Step::Play(1));
    q.toggle_loop();
    assert_eq!(q.loop_mode, LoopMode::Off);
}

#[test]
fn prev_at_start_replays_or_wraps() {
    let mut q = queue_of(3, 0);
    assert_eq!(q.prev(), Step::Play(0));
    q.toggle_loop();
    assert_eq!(q.prev(), Step::Play(2));
}

#[test]
fn prev_undoes_next() {
    let mut q = queue_of(4, 1);
    assert_eq!(q.next(), Step::Play(2));
    assert_eq!(q.prev(), Step::Play(1));
}

#[test]
fn empty_queue_steps() {
    let mut q = PlayQueue::new();
    assert_eq!(q.next(), Step::Stop);
    assert_eq!(q.prev(), Step::Stay);
}

#[test]
fn shuffle_order_covers_queue_and_starts_at_current() {
    let mut q = queue_of(20, 7);
    q.toggle_shuffle();
    assert!(q.shuffle);
    assert_eq!(q.queue_index, 7);
    let mut order = q.shuffle_order.clone();
    assert_eq!(order[0], 7);
    order.sort();
    assert_eq!(order, (0..20).collect::<Vec<usize>>());
}

#[test]
fn shuffle_steps_follow_the_order() {
    let mut q = queue_of(10, 3);
    q.toggle_shuffle();
    let order = q.shuffle_order.clone();
    // The current track stays current and leads the order.
    assert_eq!(q.queue_index, 3);
    assert_eq!(order[0], 3);
    assert_eq!(q.next(), Step::Play(order[1]));
    assert_eq!(q.prev(), Step::Play(3));
}

#[test]
fn shuffle_keeps_current_track() {
    let mut q = queue_of(2, 1);
    q.toggle_shuffle();
    assert_eq!(q.queue_index, 1);
    assert_eq!(q.shuffle_order[0], 1);
}

#[test]
fn remove_clamps_position() {
    let mut q = queue_of(3, 2);
    q.remove_from_queue(2);
    assert_eq!(q.queue.len(), 2);
    assert_eq!(q.queue_index, 1);
    q.remove_from_queue(9);
    assert_eq!(q.queue.len(), 2);
}

#[test]
fn clear_resets() {
    let mut q = queue_of(3, 2);
    q.clear_queue();
    assert!(q.queue.is_empty());
    assert_eq!(q.queue_index, 0);
    assert!(q.shuffle_order.is_empty());
}

#[test]
fn selecting_into_empty_queue_takes_the_list() {
    let mut q = PlayQueue::new();
    let list = vec![track("/a"), track("/b"), track("/c")];
    assert_eq!(q.select_from(list, 9), Step::Play(2));
    assert_eq!(q.queue.len(), 3);
}

#[test]
fn selecting_adds_missing_track_once() {
    let mut q = queue_of(2, 0);
    assert_eq!(q.select_from(vec![track("/x"), track("/t1")], 0), Step::Play(2));
    assert_eq!(q.queue.len(), 3);
    assert_eq!(q.select_from(vec![track("/x"), track("/t1")], 1), Step::Play(1));
    assert_eq!(q.queue.len(), 3);
    assert_eq!(q.select_from(Vec::new(), 0), Step::Stay);
}
