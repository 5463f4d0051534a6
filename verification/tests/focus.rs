use retained_ui::input::MouseState;
use retained_ui::widgets::manager::WidgetManager;
use retained_ui::widgets::text_input::TextInputWidget;
use retained_ui::widgets::Widget;

fn press_at(x: i32, y: i32) -> MouseState {
    MouseState { x, y, left_pressed: true, left_just_pressed: true, ..MouseState::default() }
}

fn hover_at(x: i32, y: i32) -> MouseState {
    MouseState { x, y, ..MouseState::default() }
}

fn focused_count(store: &WidgetManager, handles: &[retained_ui::widgets::WidgetHandle<TextInputWidget>]) -> usize {
    let mut n = 0;
    for h in handles {
        if store.get(*h).focused {
            n += 1;
        }
    }
    n
}

#[test]
fn press_inside_gives_focus() {
    let mut input = TextInputWidget::new(0);
    input.cursor_visible = false;
    input.blink_timer = 300;
    input.dirty = false;
    input.update(&press_at(100_000, 16_000));
    assert!(input.focused);
    assert!(input.just_focused);
    assert!(!input.just_unfocused);
    assert!(input.cursor_visible);
    assert_eq!(input.blink_timer, 0);
    assert!(input.dirty);
}

#[test]
fn press_outside_takes_focus() {
    let mut input = TextInputWidget::new(0);
    input.update(&press_at(100_000, 16_000));
    input.dirty = false;
    input.blink_timer = 300;
    input.update(&press_at(100_000, 40_000));
    assert!(!input.focused);
    assert!(input.just_unfocused);
    assert!(!input.just_focused);
    assert_eq!(input.blink_timer, 0);
    assert!(input.dirty);
}

#[test]
fn press_on_the_edge_counts_as_inside() {
    let mut input = TextInputWidget::new(0);
    input.update(&press_at(200_000, 32_000));
    assert!(input.focused);
    input.update(&press_at(200_001, 32_000));
    assert!(!input.focused);
}

#[test]
fn update_without_a_press_keeps_focus() {
    let mut input = TextInputWidget::new(0);
    input.update(&press_at(1000, 1000));
    input.dirty = false;
    input.just_changed = true;
    input.update(&hover_at(500_000, 500_000));
    assert!(input.focused);
    assert!(!input.just_focused);
    assert!(!input.just_changed);
    assert!(!input.dirty);
    let held = MouseState { x: 500_000, y: 500_000, left_pressed: true, ..MouseState::default() };
    input.update(&held);
    assert!(input.focused);
}

#[test]
fn press_inside_a_focused_input_changes_nothing() {
    let mut input = TextInputWidget::new(0);
    input.update(&press_at(1000, 1000));
    input.dirty = false;
    input.blink_timer = 200;
    input.update(&press_at(2000, 2000));
    assert!(input.focused);
    assert!(!input.just_focused);
    assert_eq!(input.blink_timer, 200);
    assert!(!input.dirty);
}

#[test]
fn focus_moves_with_the_click() {
    let mut store = WidgetManager::new();
    let a = store.text_input();
    let b = store.text_input();
    store.get_mut(a).position(0, 0);
    store.get_mut(b).position(0, 100_000);

    store.update_all(&press_at(10_000, 110_000));
    assert!(!store.get(a).focused);
    assert!(store.get(b).focused);

    store.update_all(&press_at(10_000, 10_000));
    assert!(store.get(a).focused);
    assert!(store.get(a).just_focused);
    assert!(!store.get(b).focused);
    assert!(store.get(b).just_unfocused);
}

#[test]
fn click_on_empty_space_unfocuses() {
    let mut store = WidgetManager::new();
    let a = store.text_input();
    let b = store.text_input();
    store.get_mut(a).position(0, 0);
    store.get_mut(b).position(0, 100_000);
    store.update_all(&press_at(10_000, 110_000));
    assert!(store.get(b).focused);

    store.update_all(&press_at(500_000, 500_000));
    assert!(!store.get(a).focused);
    assert!(!store.get(b).focused);
}

#[test]
fn at_most_one_input_has_the_focus() {
    let mut store = WidgetManager::new();
    let mut handles = Vec::new();
    for i in 0..4 {
        let h = store.text_input();
        store.get_mut(h).position(0, i * 50_000);
        handles.push(h);
    }
    store.button("between");
    let clicks = [
        (10_000, 10_000),
        (10_000, 60_000),
        (10_000, 40_000),
        (10_000, 160_000),
        (900_000, 10_000),
        (10_000, 110_000),
        (10_000, 10_000),
        (10_000, 10_000),
    ];
    assert_eq!(focused_count(&store, &handles), 0);
    for (x, y) in clicks {
        store.update_all(&press_at(x, y));
        assert!(focused_count(&store, &handles) <= 1);
        store.update_all(&hover_at(x, y));
        assert!(focused_count(&store, &handles) <= 1);
    }
    assert!(store.get(handles[0]).focused);
}

#[test]
fn caret_blinks_after_the_period() {
    let mut input = TextInputWidget::new(0);
    input.update(&press_at(1000, 1000));
    input.dirty = false;
    assert!(!input.tick_blink(529));
    assert_eq!(input.blink_timer, 529);
    assert!(input.cursor_visible);
    assert!(!input.dirty);
    assert!(input.tick_blink(1));
    assert_eq!(input.blink_timer, 0);
    assert!(!input.cursor_visible);
    assert!(input.dirty);
    assert!(input.tick_blink(530));
    assert!(input.cursor_visible);
}

#[test]
fn caret_blink_survives_a_huge_step() {
    let mut input = TextInputWidget::new(0);
    input.update(&press_at(1000, 1000));
    input.blink_timer = 100;
    assert!(input.tick_blink(u32::MAX));
    assert_eq!(input.blink_timer, 0);
    assert!(!input.cursor_visible);
}

#[test]
fn caret_rests_without_focus() {
    let mut input = TextInputWidget::new(0);
    input.dirty = false;
    assert!(!input.tick_blink(10_000));
    assert_eq!(input.blink_timer, 0);
    assert!(input.cursor_visible);
    assert!(!input.dirty);
}

#[test]
fn press_inside_two_inputs_focuses_the_one_on_top() {
    let mut store = WidgetManager::new();
    let a = store.text_input();
    let b = store.text_input();
    store.get_mut(a).position(0, 0).size(200_000, 32_000);
    store.get_mut(b).position(0, 0).size(200_000, 32_000);
    store.update_all(&press_at(10_000, 10_000));
    assert!(!(store.get(a).focused && store.get(b).focused));
    assert!(!store.get(a).focused);
    assert!(store.get(b).focused);
    assert!(store.get(b).just_focused);
    assert!(!store.get(a).just_focused);

    store.update_all(&press_at(10_000, 10_000));
    assert!(!store.get(a).focused);
    assert!(store.get(b).focused);
    assert!(!store.get(b).just_focused);
}

#[test]
fn press_in_an_overlap_moves_the_focus_upwards() {
    let mut store = WidgetManager::new();
    let a = store.text_input();
    let b = store.text_input();
    store.get_mut(a).position(0, 0).size(100_000, 30_000);
    store.get_mut(b).position(50_000, 0).size(100_000, 30_000);

    store.update_all(&press_at(10_000, 10_000));
    assert!(store.get(a).focused);
    assert!(!store.get(b).focused);

    store.update_all(&press_at(75_000, 10_000));
    assert!(!store.get(a).focused);
    assert!(store.get(a).just_unfocused);
    assert!(store.get(b).focused);
    assert!(store.get(b).just_focused);

    store.update_all(&press_at(10_000, 10_000));
    assert!(store.get(a).focused);
    assert!(!store.get(b).focused);

    store.update_all(&press_at(140_000, 10_000));
    assert!(!store.get(a).focused);
    assert!(store.get(b).focused);
}

#[test]
fn overlapping_inputs_never_share_the_focus() {
    let mut store = WidgetManager::new();
    let mut handles = Vec::new();
    for i in 0..5 {
        let h = store.text_input();
        store.get_mut(h).position(i * 40_000, i * 10_000).size(100_000, 30_000);
        handles.push(h);
    }
    let mut x = 0;
    while x <= 300_000 {
        let mut y = 0;
        while y <= 80_000 {
            store.update_all(&press_at(x, y));
            assert!(focused_count(&store, &handles) <= 1);
            let top = store.input_at(x, y);
            for (i, h) in handles.iter().enumerate() {
                assert_eq!(store.get(*h).focused, top == Some(i));
            }
            store.update_all(&hover_at(x, y));
            assert!(focused_count(&store, &handles) <= 1);
            y += 5000;
        }
        x += 10_000;
    }
}

#[test]
fn input_at_finds_the_last_input_under_the_point() {
    let mut store = WidgetManager::new();
    assert_eq!(store.input_at(0, 0), None);
    let a = store.text_input();
    let button = store.button("over");
    let b = store.text_input();
    store.slider();
    store.get_mut(a).position(0, 0).size(100_000, 30_000);
    store.get_mut(button).position(0, 0).size(500_000, 500_000);
    store.get_mut(b).position(50_000, 0).size(100_000, 30_000);
    assert_eq!(store.input_at(10_000, 10_000), Some(0));
    assert_eq!(store.input_at(75_000, 10_000), Some(2));
    assert_eq!(store.input_at(150_000, 30_000), Some(2));
    assert_eq!(store.input_at(150_001, 30_000), None);
    assert_eq!(store.input_at(10_000, 100_000), None);
}

#[test]
fn route_follows_what_the_store_admits() {
    let mut input = TextInputWidget::new(0);
    input.route(&press_at(1000, 1000), false);
    assert!(!input.focused);
    input.route(&press_at(900_000, 900_000), true);
    assert!(input.focused && input.just_focused);
    input.dirty = false;
    input.route(&hover_at(1000, 1000), false);
    assert!(input.focused && !input.just_focused && !input.dirty);
    input.route(&press_at(1000, 1000), false);
    assert!(!input.focused && input.just_unfocused && input.dirty);
}
