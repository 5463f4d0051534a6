use retained_ui::geometry::Rect;
use retained_ui::widgets::button::ButtonWidget;
use retained_ui::widgets::manager::{LookupError, WidgetManager};
use retained_ui::widgets::slider::SliderWidget;
use retained_ui::widgets::text_input::TextInputWidget;
use retained_ui::widgets::{Widget, WidgetHandle, WidgetKind, WidgetNode};

#[test]
fn identities_count_up_from_zero() {
    let mut store = WidgetManager::new();
    assert_eq!(store.len(), 0);
    let b = store.button("one");
    let s = store.slider();
    let t = store.text_input();
    let b2 = store.button("two");
    assert_eq!((b.id(), s.id(), t.id(), b2.id()), (0, 1, 2, 3));
    assert_eq!(store.len(), 4);
    assert_eq!(store.next_id, 4);
    assert_eq!(store.get(b).id(), 0);
    assert_eq!(store.get(s).id(), 1);
    assert_eq!(store.get(t).id(), 2);
    assert_eq!(store.get(b2).id(), 3);
    assert_eq!(store.get(b).text, "one");
    assert_eq!(store.get(b2).text, "two");
    assert_eq!(store.get(s).value, 500);
}

#[test]
fn handles_are_copies_of_an_identity() {
    let mut store = WidgetManager::new();
    let a = store.slider();
    let b = store.slider();
    let a2 = a;
    let a3 = a.clone();
    assert!(a.same(&a2));
    assert!(a.same(&a3));
    assert!(!a.same(&b));
    assert!(WidgetHandle::<SliderWidget>::new(1).same(&b));
}

#[test]
fn wrong_type_is_never_handed_out() {
    let mut store = WidgetManager::new();
    let b = store.button("ok");
    let as_slider = WidgetHandle::<SliderWidget>::new(b.id());
    let as_input = WidgetHandle::<TextInputWidget>::new(b.id());
    assert!(matches!(store.try_get(as_slider), Err(LookupError::TypeMismatch)));
    assert!(matches!(store.try_get_mut(as_slider), Err(LookupError::TypeMismatch)));
    assert!(matches!(store.try_get(as_input), Err(LookupError::TypeMismatch)));
    assert!(matches!(store.try_get_mut(as_input), Err(LookupError::TypeMismatch)));
    assert!(store.try_get(b).is_ok());
    assert!(store.try_get_mut(b).is_ok());
}

#[test]
fn stale_handle_is_not_found() {
    let mut store = WidgetManager::new();
    store.button("ok");
    let stale = WidgetHandle::<ButtonWidget>::new(1);
    assert!(matches!(store.try_get(stale), Err(LookupError::NotFound)));
    assert!(matches!(store.try_get_mut(stale), Err(LookupError::NotFound)));
    let far = WidgetHandle::<ButtonWidget>::new(usize::MAX);
    assert!(matches!(store.try_get(far), Err(LookupError::NotFound)));
}

#[test]
fn try_get_mut_changes_the_stored_widget() {
    let mut store = WidgetManager::new();
    let a = store.slider();
    let b = store.slider();
    match store.try_get_mut(b) {
        Ok(w) => {
            w.value(750);
        }
        Err(_) => panic!("the slider is in the store"),
    }
    assert_eq!(store.get(a).value, 500);
    assert_eq!(store.get(b).value, 750);
    assert_eq!(store.try_get(b).map(|w| w.value), Ok(750));
}

#[test]
fn bounds_by_identity() {
    let mut store = WidgetManager::new();
    let s = store.slider();
    assert_eq!(store.bounds_of(0), Some(Rect { x: 0, y: 0, w: 200_000, h: 16_000 }));
    assert_eq!(store.bounds_of(1), None);
    store.update_all(&retained_ui::input::MouseState::default());

    let same = Rect { x: 0, y: 0, w: 200_000, h: 16_000 };
    store.set_bounds_of(0, same);
    assert!(!store.get(s).dirty);
    let moved = Rect { x: 5, y: 6, w: 7, h: 8 };
    store.set_bounds_of(0, moved);
    assert_eq!(store.get(s).bounds(), moved);
    assert!(store.get(s).dirty);
    store.set_bounds_of(9, moved);
    assert_eq!(store.len(), 1);
}

#[test]
fn set_bounds_marks_dirty_only_on_a_change() {
    let mut widgets: (ButtonWidget, SliderWidget, TextInputWidget) =
        (ButtonWidget::new(0, "a"), SliderWidget::new(1), TextInputWidget::new(2));
    widgets.0.clear_dirty();
    widgets.1.clear_dirty();
    widgets.2.clear_dirty();
    let b0 = widgets.0.bounds();
    let b1 = widgets.1.bounds();
    let b2 = widgets.2.bounds();
    widgets.0.set_bounds(b0);
    widgets.1.set_bounds(b1);
    widgets.2.set_bounds(b2);
    assert!(!widgets.0.is_dirty() && !widgets.1.is_dirty() && !widgets.2.is_dirty());
    let r = Rect { x: 1, y: b0.y, w: b0.w, h: b0.h };
    widgets.0.set_bounds(r);
    widgets.1.set_bounds(r);
    widgets.2.set_bounds(r);
    assert!(widgets.0.is_dirty() && widgets.1.is_dirty() && widgets.2.is_dirty());
    assert_eq!(widgets.0.bounds(), r);
    assert_eq!(widgets.1.bounds(), r);
    assert_eq!(widgets.2.bounds(), r);
}

#[test]
fn downcast_recovers_only_the_own_type() {
    let mut node = WidgetNode::Slider(SliderWidget::new(4));
    assert!(SliderWidget::downcast(&node).is_some());
    assert!(ButtonWidget::downcast(&node).is_none());
    assert!(TextInputWidget::downcast(&node).is_none());
    assert!(ButtonWidget::downcast_mut(&mut node).is_none());
    match SliderWidget::downcast_mut(&mut node) {
        Some(s) => {
            s.value(10);
        }
        None => panic!("the node holds a slider"),
    }
    assert_eq!(SliderWidget::downcast(&node).map(|s| (s.id, s.value)), Some((4, 10)));
    assert_ne!(WidgetKind::Button, WidgetKind::Slider);
}

#[test]
fn rect_contains_its_edges() {
    let r = Rect { x: 10, y: 20, w: 30, h: 40 };
    assert!(r.contains(10, 20));
    assert!(r.contains(40, 60));
    assert!(r.contains(25, 35));
    assert!(!r.contains(9, 20));
    assert!(!r.contains(41, 20));
    assert!(!r.contains(10, 19));
    assert!(!r.contains(10, 61));
}

#[test]
fn rect_contains_does_not_overflow() {
    let r = Rect { x: i32::MAX - 1, y: i32::MAX - 1, w: i32::MAX, h: i32::MAX };
    assert!(r.contains(i32::MAX, i32::MAX));
    assert!(!r.contains(0, 0));
    let negative = Rect { x: 0, y: 0, w: -5, h: 10 };
    assert!(!negative.contains(0, 0));
}

#[test]
fn default_rect_is_a_hundred_pixels_square() {
    assert_eq!(Rect::default(), Rect { x: 0, y: 0, w: 100_000, h: 100_000 });
}

#[test]
fn store_checks_its_own_consistency() {
    let mut store = WidgetManager::new();
    assert!(store.is_wf());
    let s = store.slider();
    let t = store.text_input();
    store.get_mut(t).value("\u{20ac}");
    assert!(store.is_wf());

    store.get_mut(t).cursor = 1;
    assert!(!store.get(t).is_wf());
    assert!(!store.is_wf());
    store.get_mut(t).cursor = 4;
    assert!(!store.is_wf());
    store.get_mut(t).cursor = 3;
    assert!(store.is_wf());

    store.get_mut(s).value = 1001;
    assert!(!store.get(s).is_wf());
    assert!(!store.is_wf());
    store.get_mut(s).value = 1000;
    assert!(store.is_wf());

    store.get_mut(s).id = 5;
    assert!(!store.is_wf());
    store.get_mut(s).id = 0;
    store.next_id = 7;
    assert!(!store.is_wf());
}

#[test]
fn store_knows_whether_it_can_be_drawn() {
    let mut store = WidgetManager::new();
    assert!(store.is_drawable());
    store.button("a");
    store.slider();
    assert!(store.is_drawable());
    let t = store.text_input();
    assert!(!store.is_drawable());
    store.get_mut(t).font(retained_ui::scene::FontId(0));
    assert!(store.is_drawable());
}
