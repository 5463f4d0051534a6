use retained_ui::input::MouseState;
use retained_ui::keys::EditKey;
use retained_ui::text::{byte_len, same_text};
use retained_ui::widgets::manager::WidgetManager;
use retained_ui::widgets::text_input::TextInputWidget;
use winit::keyboard::KeyCode;

fn press_at(x: i32, y: i32) -> MouseState {
    MouseState { x, y, left_pressed: true, left_just_pressed: true, ..MouseState::default() }
}

fn input_with(text: &str) -> TextInputWidget {
    let mut input = TextInputWidget::new(0);
    input.value(text);
    input
}

#[test]
fn round_trip_through_the_store() {
    let mut store = WidgetManager::new();
    let input = store.text_input();
    store.get_mut(input).position(10_000, 10_000);
    assert!(!store.get(input).focused);

    store.update_all(&press_at(20_000, 20_000));
    assert!(store.get(input).focused);
    assert!(store.get(input).just_focused);

    store.type_char('H');
    store.type_char('i');
    assert_eq!(store.get(input).value, "Hi");
    assert_eq!(store.get(input).cursor, 2);

    store.key_press(KeyCode::Backspace);
    assert_eq!(store.get(input).value, "H");
    assert_eq!(store.get(input).cursor, 1);

    store.key_press(KeyCode::Home);
    store.type_char('X');
    assert_eq!(store.get(input).value, "XH");
    assert_eq!(store.get(input).cursor, 1);
}

#[test]
fn round_trip_on_the_widget() {
    let mut input = TextInputWidget::new(0);
    input.insert_char('H');
    input.insert_char('i');
    input.backspace();
    assert_eq!(input.value, "H");
    assert_eq!(input.cursor, 1);
    input.move_cursor_home();
    input.insert_char('X');
    assert_eq!(input.value, "XH");
    assert_eq!(input.cursor, 1);
    assert!(input.just_changed);
    assert!(input.dirty);
}

#[test]
fn new_input_is_empty_and_unfocused() {
    let input = TextInputWidget::new(7);
    assert_eq!(input.id, 7);
    assert_eq!(input.value, "");
    assert_eq!(input.placeholder, "");
    assert_eq!(input.cursor, 0);
    assert!(!input.focused);
    assert!(input.cursor_visible);
    assert!(input.dirty);
    assert_eq!(input.font, None);
    assert_eq!(input.bounds.w, 200_000);
    assert_eq!(input.bounds.h, 32_000);
}

#[test]
fn value_puts_the_cursor_at_the_end() {
    let input = input_with("a\u{e9}\u{20ac}\u{1f600}");
    assert_eq!(input.value, "a\u{e9}\u{20ac}\u{1f600}");
    assert_eq!(input.cursor, 10);
    assert!(input.dirty);
}

#[test]
fn insert_advances_by_the_encoded_length() {
    let mut input = TextInputWidget::new(0);
    input.insert_char('a');
    assert_eq!(input.cursor, 1);
    input.insert_char('\u{e9}');
    assert_eq!(input.cursor, 3);
    input.insert_char('\u{20ac}');
    assert_eq!(input.cursor, 6);
    input.insert_char('\u{1f600}');
    assert_eq!(input.cursor, 10);
    assert_eq!(input.value, "a\u{e9}\u{20ac}\u{1f600}");
}

#[test]
fn insert_splices_at_the_cursor() {
    let mut input = input_with("ac");
    input.move_cursor_left();
    assert_eq!(input.cursor, 1);
    input.insert_char('\u{e9}');
    assert_eq!(input.value, "a\u{e9}c");
    assert_eq!(input.cursor, 3);
}

#[test]
fn backspace_removes_a_whole_code_point() {
    let mut input = input_with("a\u{e9}\u{20ac}\u{1f600}");
    input.backspace();
    assert_eq!(input.value, "a\u{e9}\u{20ac}");
    assert_eq!(input.cursor, 6);
    input.backspace();
    assert_eq!(input.value, "a\u{e9}");
    assert_eq!(input.cursor, 3);
    input.backspace();
    assert_eq!(input.value, "a");
    assert_eq!(input.cursor, 1);
    input.backspace();
    assert_eq!(input.value, "");
    assert_eq!(input.cursor, 0);
}

#[test]
fn backspace_at_the_start_does_nothing() {
    let mut input = input_with("ab");
    input.move_cursor_home();
    input.dirty = false;
    input.backspace();
    assert_eq!(input.value, "ab");
    assert_eq!(input.cursor, 0);
    assert!(!input.dirty);
    assert!(!input.just_changed);
}

#[test]
fn delete_forward_removes_the_code_point_at_the_cursor() {
    let mut input = input_with("a\u{20ac}b");
    input.move_cursor_home();
    input.move_cursor_right();
    input.delete_forward();
    assert_eq!(input.value, "ab");
    assert_eq!(input.cursor, 1);
    assert!(input.just_changed);
}

#[test]
fn delete_forward_at_the_end_does_nothing() {
    let mut input = input_with("ab");
    input.dirty = false;
    input.delete_forward();
    assert_eq!(input.value, "ab");
    assert_eq!(input.cursor, 2);
    assert!(!input.dirty);
}

#[test]
fn cursor_moves_by_whole_code_points() {
    let mut input = input_with("a\u{e9}\u{20ac}\u{1f600}");
    input.move_cursor_left();
    assert_eq!(input.cursor, 6);
    input.move_cursor_left();
    assert_eq!(input.cursor, 3);
    input.move_cursor_left();
    assert_eq!(input.cursor, 1);
    input.move_cursor_left();
    assert_eq!(input.cursor, 0);
    input.move_cursor_left();
    assert_eq!(input.cursor, 0);
    input.move_cursor_right();
    assert_eq!(input.cursor, 1);
    input.move_cursor_right();
    assert_eq!(input.cursor, 3);
    input.move_cursor_right();
    assert_eq!(input.cursor, 6);
    input.move_cursor_right();
    assert_eq!(input.cursor, 10);
    input.move_cursor_right();
    assert_eq!(input.cursor, 10);
    assert_eq!(input.value, "a\u{e9}\u{20ac}\u{1f600}");
}

#[test]
fn home_and_end_go_to_the_ends() {
    let mut input = input_with("\u{e9}\u{e9}");
    input.move_cursor_home();
    assert_eq!(input.cursor, 0);
    input.move_cursor_end();
    assert_eq!(input.cursor, 4);
}

#[test]
fn cursor_stays_on_a_boundary_under_every_edit() {
    let keys = [
        EditKey::Left,
        EditKey::Backspace,
        EditKey::Left,
        EditKey::Left,
        EditKey::Delete,
        EditKey::Right,
        EditKey::Right,
        EditKey::Backspace,
        EditKey::Home,
        EditKey::Delete,
        EditKey::End,
        EditKey::Backspace,
        EditKey::Right,
        EditKey::Left,
        EditKey::Delete,
        EditKey::Backspace,
        EditKey::Backspace,
        EditKey::Delete,
    ];
    let mut input = input_with("\u{1f600}a\u{e9}\u{20ac}\u{1f600}z\u{e9}");
    for key in keys {
        input.apply_key(key);
        assert!(input.cursor <= input.value.len());
        assert!(input.value.is_char_boundary(input.cursor));
    }
}

#[test]
fn apply_key_carries_out_each_key() {
    let mut input = input_with("abc");
    input.apply_key(EditKey::Left);
    assert_eq!(input.cursor, 2);
    input.apply_key(EditKey::Backspace);
    assert_eq!(input.value, "ac");
    assert_eq!(input.cursor, 1);
    input.apply_key(EditKey::Delete);
    assert_eq!(input.value, "a");
    input.apply_key(EditKey::Home);
    assert_eq!(input.cursor, 0);
    input.apply_key(EditKey::Right);
    assert_eq!(input.cursor, 1);
    input.apply_key(EditKey::Home);
    input.apply_key(EditKey::End);
    assert_eq!(input.cursor, 1);
}

#[test]
fn text_before_cursor_is_the_part_before_it() {
    let mut input = input_with("a\u{20ac}b");
    assert_eq!(input.text_before_cursor(), "a\u{20ac}b");
    input.move_cursor_left();
    assert_eq!(input.text_before_cursor(), "a\u{20ac}");
    input.move_cursor_home();
    assert_eq!(input.text_before_cursor(), "");
}

#[test]
fn keys_reach_only_the_focused_input() {
    let mut store = WidgetManager::new();
    let a = store.text_input();
    let b = store.text_input();
    store.get_mut(a).position(0, 0);
    store.get_mut(b).position(0, 100_000);
    store.get_mut(a).value("one");
    store.get_mut(b).value("two");
    store.update_all(&press_at(10_000, 110_000));
    store.take_dirty();

    store.type_char('!');
    store.key_press(KeyCode::ArrowLeft);
    store.key_press(KeyCode::Delete);
    assert_eq!(store.get(a).value, "one");
    assert_eq!(store.get(a).cursor, 3);
    assert_eq!(store.get(b).value, "two");
    assert_eq!(store.get(b).cursor, 3);
    assert!(store.take_dirty());
}

#[test]
fn keys_without_focus_change_nothing() {
    let mut store = WidgetManager::new();
    let a = store.text_input();
    store.get_mut(a).value("one");
    store.update_all(&MouseState::default());
    store.take_dirty();

    store.type_char('x');
    store.key_press(KeyCode::Backspace);
    assert_eq!(store.get(a).value, "one");
    assert!(!store.take_dirty());
}

#[test]
fn other_keys_are_ignored() {
    let mut store = WidgetManager::new();
    let a = store.text_input();
    store.get_mut(a).value("one");
    store.update_all(&press_at(10_000, 10_000));
    store.take_dirty();

    store.key_press(KeyCode::KeyA);
    store.key_press(KeyCode::Enter);
    assert_eq!(store.get(a).value, "one");
    assert_eq!(store.get(a).cursor, 3);
    assert!(!store.take_dirty());
}

#[test]
fn byte_len_counts_bytes() {
    assert_eq!(byte_len(&String::from("")), 0);
    assert_eq!(byte_len(&String::from("a\u{e9}\u{20ac}\u{1f600}")), 10);
}

#[test]
fn same_text_compares_character_by_character() {
    assert!(same_text("", ""));
    assert!(same_text("caf\u{e9}", "caf\u{e9}"));
    assert!(!same_text("cafe", "caf\u{e9}"));
    assert!(!same_text("ab", "abc"));
    assert!(!same_text("abc", "abd"));
}
