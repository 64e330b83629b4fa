use std::collections::HashSet;

use lyre::keys::KeyCode;
use lyre::navigable_list::{extend_range_selection, navigate_index, NavigableList};
use lyre::text_input::TextInput;

#[test]
fn typing_and_cursor_moves() {
    let mut t = TextInput::new();
    assert!(t.handle_key(KeyCode::Char('a')));
    assert!(t.handle_key(KeyCode::Char('é')));
    assert!(t.handle_key(KeyCode::Char('c')));
    assert_eq!(t.as_str(), "aéc");
    assert_eq!(t.cursor, 4);
    assert!(t.handle_key(KeyCode::Left));
    assert_eq!(t.cursor, 3);
    assert!(t.handle_key(KeyCode::Backspace));
    assert_eq!(t.as_str(), "ac");
    assert_eq!(t.cursor, 1);
    assert!(t.handle_key(KeyCode::Delete));
    assert_eq!(t.as_str(), "a");
    assert!(!t.handle_key(KeyCode::Tab));
}

#[test]
fn type_then_backspace_restores() {
    let mut t = TextInput::new();
    for c in "hello".chars() {
        t.handle_key(KeyCode::Char(c));
    }
    t.handle_key(KeyCode::Home);
    t.handle_key(KeyCode::Right);
    let before = (t.text.clone(), t.cursor);
    t.handle_key(KeyCode::Char('X'));
    assert_eq!(t.as_str(), "hXello");
    t.handle_key(KeyCode::Backspace);
    assert_eq!((t.text.clone(), t.cursor), before);
}

#[test]
fn split_around_cursor() {
    let mut t = TextInput::new();
    for c in "abc".chars() {
        t.handle_key(KeyCode::Char(c));
    }
    t.handle_key(KeyCode::Left);
    assert_eq!(t.split_at_cursor(), ("ab".to_string(), "c".to_string(), String::new()));
    t.handle_key(KeyCode::End);
    assert_eq!(t.split_at_cursor(), ("abc".to_string(), String::new(), String::new()));
    t.clear();
    assert!(t.is_empty());
    let d = TextInput::default();
    assert!(d.is_empty());
}

#[test]
fn index_navigation_wraps() {
    let mut i = 0usize;
    assert!(navigate_index(KeyCode::Up, &mut i, 5));
    assert_eq!(i, 4);
    assert!(navigate_index(KeyCode::Char('j'), &mut i, 5));
    assert_eq!(i, 0);
    assert!(navigate_index(KeyCode::PageDown, &mut i, 5));
    assert_eq!(i, 4);
    assert!(navigate_index(KeyCode::PageUp, &mut i, 5));
    assert_eq!(i, 0);
    assert!(navigate_index(KeyCode::Char('G'), &mut i, 5));
    assert_eq!(i, 4);
    assert!(!navigate_index(KeyCode::Char('x'), &mut i, 5));
    let mut e = 3usize;
    navigate_index(KeyCode::End, &mut e, 0);
    assert_eq!(e, 0);
}

#[test]
fn list_navigation_and_visibility() {
    let mut l = NavigableList::new((0..30).collect::<Vec<i32>>());
    assert!(l.navigate(KeyCode::Char('d')));
    assert_eq!(l.index, 10);
    assert!(!l.navigate_arrows_only(KeyCode::Char('d')));
    assert_eq!(l.index, 10);
    l.ensure_visible(5);
    assert_eq!(l.offset, 6);
    l.navigate(KeyCode::Home);
    l.ensure_visible(5);
    assert_eq!(l.offset, 0);
    assert_eq!(l.current(), Some(&0));
    l.index = 29;
    l.replace_items(vec![1, 2, 3]);
    assert_eq!(l.index, 2);
    l.set_items(vec![7]);
    assert_eq!(l.index, 0);
    let d: NavigableList<i32> = NavigableList::default();
    assert!(d.is_empty());
}

#[test]
fn range_selection() {
    let mut l = NavigableList::new((0..10).collect::<Vec<i32>>());
    l.index = 4;
    l.extend_down_by(2);
    assert_eq!(l.index, 6);
    assert_eq!(l.selected_ascending(), vec![4, 5, 6]);
    l.extend_up_by(4);
    assert_eq!(l.selected_ascending(), vec![2, 3, 4]);
    assert_eq!(l.selected_descending(), vec![4, 3, 2]);
    l.clear_selection();
    assert!(l.selected_ascending().is_empty());

    let mut i = 8usize;
    let mut sel = HashSet::new();
    let mut anchor = None;
    extend_range_selection(&mut i, 10, false, 5, &mut sel, &mut anchor);
    assert_eq!(i, 9);
    assert_eq!(anchor, Some(8));
    assert_eq!(sel.len(), 2);
}
