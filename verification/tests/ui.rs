use retained_ui::geometry::Color;
use retained_ui::scene::{FontId, TextExtent};
use retained_ui::ui::{Change, Ui};

fn sample() -> Ui {
    let mut ui = Ui::new();
    ui.rect("header", 0, 0, 800_000, 50_000, Color::rgb(120, 140, 180), Color::transparent(), 0);
    ui.text("title", "Demo", FontId(0), 20_000, 15_000, Color::white(), 16_000, "Sans");
    ui.button("go", "Go", 20_000, 190_000, FontId(0), 5000, TextExtent { w: 30_000, h: 14_000 });
    ui
}

#[test]
fn new_ui_is_empty_and_clean() {
    let mut ui = Ui::new();
    assert!(ui.rects.is_empty() && ui.texts.is_empty() && ui.buttons.is_empty());
    assert!(!ui.take_dirty());
    ui.mark_dirty();
    assert!(ui.take_dirty());
    assert!(!ui.take_dirty());
}

#[test]
fn elements_are_created_visible_and_mark_dirty() {
    let mut ui = Ui::new();
    ui.rect("r", 1, 2, 3, 4, Color::rgb(5, 6, 7), Color::rgb(8, 9, 10), 11);
    assert!(ui.take_dirty());
    let r = &ui.rects[0];
    assert_eq!(r.id, "r");
    assert_eq!((r.x, r.y, r.w, r.h), (1, 2, 3, 4));
    assert_eq!(r.color, Color::rgb(5, 6, 7));
    assert_eq!(r.outline_color, Color::rgb(8, 9, 10));
    assert_eq!(r.outline_thickness, 11);
    assert!(r.visible);

    ui.text("t", "hello", FontId(3), 1, 2, Color::white(), 16_000, "Serif");
    assert!(ui.take_dirty());
    let t = &ui.texts[0];
    assert_eq!(t.id, "t");
    assert_eq!(t.text, "hello");
    assert_eq!(t.font_id, FontId(3));
    assert_eq!((t.x, t.y), (1, 2));
    assert_eq!(t.color, Color::white());
    assert_eq!(t.font_size, 16_000);
    assert_eq!(t.font_family, "Serif");
    assert!(t.visible);
    assert_eq!(ui.rects.len(), 1);
}

#[test]
fn button_is_as_large_as_its_label_and_padding() {
    let mut ui = Ui::new();
    ui.button("b", "Go", 7, 8, FontId(2), 5000, TextExtent { w: 30_000, h: 14_000 });
    assert!(ui.take_dirty());
    let b = &ui.buttons[0];
    assert_eq!(b.id, "b");
    assert_eq!(b.text, "Go");
    assert_eq!((b.x, b.y), (7, 8));
    assert_eq!((b.w, b.h), (40_000, 24_000));
    assert_eq!(b.font_id, FontId(2));
    assert_eq!(b.padding, 5000);
    assert_eq!(b.bg_color, Color { r: 270, g: 510, b: 710, a: 1000 });
    assert_eq!(b.bg_color_hover, Color { r: 216, g: 408, b: 568, a: 800 });
    assert_eq!(b.text_color, Color::white());
    assert_eq!(b.text_color_hover, Color { r: 800, g: 800, b: 800, a: 800 });
    assert_eq!(b.outline_color, Color::transparent());
    assert_eq!(b.outline_color_hover, Color::transparent());
    assert_eq!(b.outline_thickness, 0);
    assert!(b.visible);
}

#[test]
fn button_size_saturates() {
    let mut ui = Ui::new();
    ui.button("b", "Go", 0, 0, FontId(0), i32::MAX, TextExtent { w: 1, h: -1 });
    assert_eq!(ui.buttons[0].w, i32::MAX);
    assert_eq!(ui.buttons[0].h, i32::MAX - 1);
}

#[test]
fn names_are_found_in_every_list() {
    let ui = sample();
    assert!(ui.id_exists("header"));
    assert!(ui.id_exists("title"));
    assert!(ui.id_exists("go"));
    assert!(!ui.id_exists("Header"));
    assert!(!ui.id_exists(""));
    assert!(!ui.id_exists("heade"));
    assert!(!Ui::new().id_exists("header"));
}

#[test]
fn conceal_and_show() {
    let mut ui = sample();
    ui.take_dirty();
    for name in ["header", "title", "go"] {
        assert!(ui.is_visible(name));
        ui.conceal(name);
        assert!(!ui.is_visible(name));
        assert!(ui.take_dirty());
        ui.conceal(name);
        assert!(!ui.is_visible(name));
        assert!(ui.take_dirty());
        ui.show(name);
        assert!(ui.is_visible(name));
        assert!(ui.take_dirty());
    }
}

#[test]
fn toggle_flips_visibility() {
    let mut ui = sample();
    ui.take_dirty();
    ui.toggle("title");
    assert!(!ui.is_visible("title"));
    assert!(ui.is_visible("header"));
    assert!(ui.is_visible("go"));
    assert!(ui.take_dirty());
    ui.toggle("title");
    assert!(ui.is_visible("title"));
    ui.set_visibility("go", Change::Toggle);
    assert!(!ui.is_visible("go"));
    ui.set_visibility("go", Change::Show);
    assert!(ui.is_visible("go"));
    ui.set_visibility("go", Change::Hide);
    assert!(!ui.is_visible("go"));
}

#[test]
fn unknown_names_change_nothing() {
    let mut ui = sample();
    ui.take_dirty();
    ui.show("nothing");
    ui.conceal("nothing");
    ui.toggle("nothing");
    assert!(!ui.is_visible("nothing"));
    assert!(!ui.take_dirty());
    assert!(ui.is_visible("header") && ui.is_visible("title") && ui.is_visible("go"));
}

#[test]
fn only_the_named_element_changes() {
    let mut ui = sample();
    ui.rect("footer", 0, 0, 1, 1, Color::white(), Color::white(), 0);
    ui.conceal("footer");
    assert!(ui.rects[0].visible);
    assert!(!ui.rects[1].visible);
    assert_eq!(ui.rects[1].id, "footer");
    assert_eq!(ui.rects.len(), 2);
}
