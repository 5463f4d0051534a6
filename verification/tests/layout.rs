use retained_ui::geometry::Rect;
use retained_ui::input::MouseState;
use retained_ui::layout::{Direction, LayoutManager};
use retained_ui::widgets::manager::WidgetManager;
use retained_ui::widgets::slider::SliderWidget;
use retained_ui::widgets::{Widget, WidgetHandle};

fn three_sliders(store: &mut WidgetManager) -> [WidgetHandle<SliderWidget>; 3] {
    let a = store.slider();
    let b = store.slider();
    let c = store.slider();
    store.get_mut(a).size(50, 20);
    store.get_mut(b).size(30, 20);
    store.get_mut(c).size(70, 20);
    [a, b, c]
}

#[test]
fn horizontal_stack_places_three_members() {
    let mut store = WidgetManager::new();
    let [a, b, c] = three_sliders(&mut store);

    let mut layout = LayoutManager::new();
    layout.hstack().position(1000, 2000).padding(10).gap(5).add(a).add(b).add(c);
    layout.compute_all(&mut store);

    assert_eq!(store.get(a).bounds().x, 1010);
    assert_eq!(store.get(b).bounds().x, 1065);
    assert_eq!(store.get(c).bounds().x, 1100);
    assert_eq!(store.get(a).bounds().y, 2010);
    assert_eq!(store.get(b).bounds().y, 2010);
    assert_eq!(store.get(c).bounds().y, 2010);
}

#[test]
fn horizontal_stack_at_the_origin() {
    let mut store = WidgetManager::new();
    let [a, b, c] = three_sliders(&mut store);
    let mut layout = LayoutManager::new();
    layout.hstack().padding(10).gap(5).add(a).add(b).add(c);
    layout.compute_all(&mut store);
    assert_eq!(store.get(a).bounds(), Rect { x: 10, y: 10, w: 50, h: 20 });
    assert_eq!(store.get(b).bounds(), Rect { x: 65, y: 10, w: 30, h: 20 });
    assert_eq!(store.get(c).bounds(), Rect { x: 100, y: 10, w: 70, h: 20 });
}

#[test]
fn vertical_stack_flows_downwards() {
    let mut store = WidgetManager::new();
    let [a, b, c] = three_sliders(&mut store);
    store.get_mut(b).size(30, 45);
    let mut layout = LayoutManager::new();
    layout.vstack().position(100, 200).padding(10).gap(5).add(a).add(b).add(c);
    layout.compute_all(&mut store);
    assert_eq!(store.get(a).bounds(), Rect { x: 110, y: 210, w: 50, h: 20 });
    assert_eq!(store.get(b).bounds(), Rect { x: 110, y: 235, w: 30, h: 45 });
    assert_eq!(store.get(c).bounds(), Rect { x: 110, y: 285, w: 70, h: 20 });
}

#[test]
fn layout_is_repeatable() {
    let mut store = WidgetManager::new();
    let [a, b, c] = three_sliders(&mut store);
    let mut layout = LayoutManager::new();
    layout.hstack().padding(10).gap(5).add(a).add(b).add(c);
    layout.compute_all(&mut store);
    let first = (store.get(a).bounds(), store.get(b).bounds(), store.get(c).bounds());
    store.update_all(&MouseState::default());
    layout.compute_all(&mut store);
    let second = (store.get(a).bounds(), store.get(b).bounds(), store.get(c).bounds());
    assert_eq!(first, second);
    assert!(!store.get(a).dirty && !store.get(b).dirty && !store.get(c).dirty);
}

#[test]
fn layout_marks_moved_widgets_dirty() {
    let mut store = WidgetManager::new();
    let [a, b, _c] = three_sliders(&mut store);
    store.update_all(&MouseState::default());
    store.take_dirty();
    let mut layout = LayoutManager::new();
    layout.hstack().add(a).add(b);
    layout.compute_all(&mut store);
    assert!(!store.get(a).dirty);
    assert!(store.get(b).dirty);
    assert!(!store.take_dirty());
    assert!(store.update_all(&MouseState::default()));
    assert!(store.take_dirty());
}

#[test]
fn widgets_outside_the_container_stay() {
    let mut store = WidgetManager::new();
    let [a, b, c] = three_sliders(&mut store);
    store.get_mut(b).position(777, 888);
    let mut layout = LayoutManager::new();
    layout.hstack().padding(10).add(a).add(c);
    layout.compute_all(&mut store);
    assert_eq!(store.get(b).bounds(), Rect { x: 777, y: 888, w: 30, h: 20 });
    assert_eq!(store.get(a).bounds().x, 10);
    assert_eq!(store.get(c).bounds().x, 60);
}

#[test]
fn missing_members_are_passed_over() {
    let mut store = WidgetManager::new();
    let [a, b, _c] = three_sliders(&mut store);
    let ghost = WidgetHandle::<SliderWidget>::new(99);
    let mut layout = LayoutManager::new();
    layout.hstack().padding(10).gap(5).add(a).add(ghost).add(b);
    layout.compute_all(&mut store);
    assert_eq!(store.get(a).bounds().x, 10);
    assert_eq!(store.get(b).bounds().x, 65);
    assert_eq!(store.len(), 3);
}

#[test]
fn last_container_wins() {
    let mut store = WidgetManager::new();
    let [a, b, _c] = three_sliders(&mut store);
    let mut layout = LayoutManager::new();
    layout.hstack().padding(10).gap(5).add(a).add(b);
    layout.vstack().position(500, 500).padding(1).gap(2).add(b);
    layout.compute_all(&mut store);
    assert_eq!(store.get(a).bounds(), Rect { x: 10, y: 10, w: 50, h: 20 });
    assert_eq!(store.get(b).bounds(), Rect { x: 501, y: 501, w: 30, h: 20 });
}

#[test]
fn member_listed_twice_stands_at_its_last_place() {
    let mut store = WidgetManager::new();
    let [a, b, _c] = three_sliders(&mut store);
    let mut layout = LayoutManager::new();
    layout.hstack().gap(5).add(a).add(b).add(a);
    layout.compute_all(&mut store);
    assert_eq!(store.get(b).bounds().x, 55);
    assert_eq!(store.get(a).bounds().x, 90);
}

#[test]
fn flow_saturates() {
    let mut store = WidgetManager::new();
    let [a, b, c] = three_sliders(&mut store);
    store.get_mut(a).size(i32::MAX, 20);
    let mut layout = LayoutManager::new();
    layout.hstack().position(10, i32::MAX).padding(10).gap(5).add(a).add(b).add(c);
    layout.compute_all(&mut store);
    assert_eq!(store.get(a).bounds().x, 20);
    assert_eq!(store.get(b).bounds().x, i32::MAX);
    assert_eq!(store.get(c).bounds().x, i32::MAX);
    assert_eq!(store.get(a).bounds().y, i32::MAX);
    assert_eq!(store.get(a).bounds().w, i32::MAX);
}

#[test]
fn builders_configure_their_own_container() {
    let mut store = WidgetManager::new();
    let [a, b, c] = three_sliders(&mut store);
    let mut layout = LayoutManager::new();
    layout.hstack().position(1, 2).padding(3).gap(4).add(a);
    layout.vstack().position(5, 6).padding(7).gap(8).add(b).add(c);
    assert_eq!(layout.containers.len(), 2);
    let h = &layout.containers[0];
    assert_eq!(h.direction, Direction::H);
    assert_eq!((h.x, h.y, h.padding, h.gap), (1, 2, 3, 4));
    assert_eq!(h.widget_ids, vec![0]);
    let v = &layout.containers[1];
    assert_eq!(v.direction, Direction::V);
    assert_eq!((v.x, v.y, v.padding, v.gap), (5, 6, 7, 8));
    assert_eq!(v.widget_ids, vec![1, 2]);
}

#[test]
fn new_stacks_are_empty_at_the_origin() {
    let mut layout = LayoutManager::new();
    assert_eq!(layout.containers.len(), 0);
    layout.hstack();
    layout.vstack();
    for c in &layout.containers {
        assert_eq!((c.x, c.y, c.padding, c.gap), (0, 0, 0, 0));
        assert!(c.widget_ids.is_empty());
    }
    assert_eq!(layout.containers[0].direction, Direction::H);
    assert_eq!(layout.containers[1].direction, Direction::V);
}

#[test]
fn container_computes_alone() {
    let mut store = WidgetManager::new();
    let [a, b, _c] = three_sliders(&mut store);
    let mut layout = LayoutManager::new();
    layout.vstack().padding(2).gap(3).add(a).add(b);
    layout.containers[0].compute(&mut store);
    assert_eq!(store.get(a).bounds(), Rect { x: 2, y: 2, w: 50, h: 20 });
    assert_eq!(store.get(b).bounds(), Rect { x: 2, y: 25, w: 30, h: 20 });
}
