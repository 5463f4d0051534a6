use retained_ui::canvas::Canvas;
use retained_ui::ctx::Ctx;
use retained_ui::geometry::Color;
use retained_ui::input::MouseState;
use retained_ui::scene::{DrawCommand, FontId, Scene};
use retained_ui::shapes::{Button, Card, Checkbox, Circle, ProgressBar, Rect, RoundedRect, Slider, Text};

fn clear() -> Color {
    Color { r: 0, g: 0, b: 0, a: 0 }
}

fn drawn_by(draw: impl FnOnce(&mut Canvas)) -> Vec<DrawCommand> {
    let mut scene = Scene::new();
    scene.mark_clean();
    {
        let mut canvas = Canvas {
            scene: &mut scene,
            width: 800_000,
            height: 600_000,
            scale_factor: 1000,
            mouse: MouseState::default(),
        };
        draw(&mut canvas);
    }
    scene.commands().to_vec()
}

#[test]
fn new_scene_is_empty_and_dirty() {
    let mut scene = Scene::new();
    assert!(scene.commands().is_empty());
    assert!(scene.is_dirty());
    scene.mark_clean();
    assert!(!scene.is_dirty());
    scene.mark_dirty();
    assert!(scene.is_dirty());
    let d = Scene::default();
    assert!(d.commands().is_empty() && d.is_dirty());
}

#[test]
fn scene_keeps_commands_in_order() {
    let mut scene = Scene::new();
    scene.mark_clean();
    scene.rect(1, 2, 3, 4, Color::white(), clear(), 5);
    assert!(scene.is_dirty());
    scene.mark_clean();
    scene.circle(6, 7, 8, Color::rgb(1, 2, 3), Color::white(), 9);
    assert!(scene.is_dirty());
    scene.mark_clean();
    scene.rounded_rect(10, 11, 12, 13, 14, Color::white(), clear(), 15);
    assert!(scene.is_dirty());
    scene.mark_clean();
    scene.text("hi", Some(FontId(2)), 16, 17);
    assert!(scene.is_dirty());
    assert_eq!(
        scene.commands(),
        &[
            DrawCommand::Rect {
                x: 1,
                y: 2,
                w: 3,
                h: 4,
                color: Color::white(),
                outline_color: clear(),
                outline_thickness: 5
            },
            DrawCommand::Circle {
                cx: 6,
                cy: 7,
                radius: 8,
                color: Color::rgb(1, 2, 3),
                outline_color: Color::white(),
                outline_thickness: 9
            },
            DrawCommand::RoundedRect {
                x: 10,
                y: 11,
                w: 12,
                h: 13,
                radius: 14,
                color: Color::white(),
                outline_color: clear(),
                outline_thickness: 15
            },
            DrawCommand::Text { text: String::from("hi"), font: Some(FontId(2)), x: 16, y: 17 },
        ]
    );
    scene.mark_clean();
    scene.clear();
    assert!(scene.commands().is_empty());
    assert!(scene.is_dirty());
}

#[test]
fn canvas_draws_into_its_scene() {
    let drawn = drawn_by(|c| {
        c.rect(1, 2, 3, 4, Color::white(), clear(), 5);
        c.circle(6, 7, 8, Color::white(), clear(), 9);
        c.rounded_rect(10, 11, 12, 13, 14, Color::white(), clear(), 15);
        c.text("hi", 16, 17);
    });
    assert_eq!(drawn.len(), 4);
    assert_eq!(
        drawn[0],
        DrawCommand::Rect {
            x: 1,
            y: 2,
            w: 3,
            h: 4,
            color: Color::white(),
            outline_color: clear(),
            outline_thickness: 5
        }
    );
    assert_eq!(
        drawn[1],
        DrawCommand::Circle {
            cx: 6,
            cy: 7,
            radius: 8,
            color: Color::white(),
            outline_color: clear(),
            outline_thickness: 9
        }
    );
    assert_eq!(
        drawn[2],
        DrawCommand::RoundedRect {
            x: 10,
            y: 11,
            w: 12,
            h: 13,
            radius: 14,
            color: Color::white(),
            outline_color: clear(),
            outline_thickness: 15
        }
    );
    assert_eq!(drawn[3], DrawCommand::Text { text: String::from("hi"), font: None, x: 16, y: 17 });
}

#[test]
fn canvas_marks_its_scene_dirty() {
    let mut scene = Scene::new();
    scene.mark_clean();
    {
        let mut canvas = Canvas {
            scene: &mut scene,
            width: 1,
            height: 1,
            scale_factor: 1000,
            mouse: MouseState::default(),
        };
        canvas.text("x", 0, 0);
        assert_eq!((canvas.width, canvas.height, canvas.scale_factor), (1, 1, 1000));
    }
    assert!(scene.is_dirty());
}

#[test]
fn context_records_draw_calls() {
    let mut ctx = Ctx::new();
    assert!(!ctx.exit);
    assert_eq!(ctx.mouse, MouseState::default());
    ctx.scene.mark_clean();
    ctx.rect(1, 2, 3, 4, Color::white(), clear(), 5);
    ctx.circle(6, 7, 8, Color::white(), clear(), 9);
    ctx.rounded_rect(10, 11, 12, 13, 14, Color::white(), clear(), 15);
    ctx.text("hi", FontId(3), 16, 17);
    assert!(ctx.scene.is_dirty());
    assert_eq!(ctx.scene.commands().len(), 4);
    assert!(matches!(ctx.scene.commands()[0], DrawCommand::Rect { x: 1, outline_thickness: 5, .. }));
    assert!(matches!(ctx.scene.commands()[1], DrawCommand::Circle { cx: 6, radius: 8, .. }));
    assert!(matches!(ctx.scene.commands()[2], DrawCommand::RoundedRect { radius: 14, .. }));
    assert_eq!(
        ctx.scene.commands()[3],
        DrawCommand::Text { text: String::from("hi"), font: Some(FontId(3)), x: 16, y: 17 }
    );
    ctx.exit();
    assert!(ctx.exit);
    assert_eq!(ctx.scene.commands().len(), 4);
}

#[test]
fn rect_shape() {
    let r = Rect::new(50, 60, 100, 80);
    assert_eq!(r.color, Color::white());
    assert_eq!(r.outline_color, clear());
    assert_eq!(r.outline_thickness, 0);
    let r = r.color(Color::rgb(1000, 0, 0)).outline(Color::rgb(0, 0, 0), 2000);
    assert_eq!(
        drawn_by(|c| r.draw(c)),
        vec![DrawCommand::Rect {
            x: 50,
            y: 60,
            w: 100,
            h: 80,
            color: Color::rgb(1000, 0, 0),
            outline_color: Color::rgb(0, 0, 0),
            outline_thickness: 2000
        }]
    );
}

#[test]
fn circle_shape() {
    let s = Circle::new(250, 90, 40);
    assert_eq!(s.color, Color::white());
    assert_eq!(s.outline_thickness, 0);
    let s = s.color(Color::rgb(0, 1000, 0)).outline(Color::rgb(0, 500, 0), 2000);
    assert_eq!(
        drawn_by(|c| s.draw(c)),
        vec![DrawCommand::Circle {
            cx: 250,
            cy: 90,
            radius: 40,
            color: Color::rgb(0, 1000, 0),
            outline_color: Color::rgb(0, 500, 0),
            outline_thickness: 2000
        }]
    );
}

#[test]
fn rounded_rect_shape() {
    let s = RoundedRect::new(350, 50, 120, 80, 10);
    assert_eq!(s.color, Color::white());
    let s = s.color(Color::rgb(0, 0, 1000)).outline(Color::rgb(0, 0, 500), 2000);
    assert_eq!(
        drawn_by(|c| s.draw(c)),
        vec![DrawCommand::RoundedRect {
            x: 350,
            y: 50,
            w: 120,
            h: 80,
            radius: 10,
            color: Color::rgb(0, 0, 1000),
            outline_color: Color::rgb(0, 0, 500),
            outline_thickness: 2000
        }]
    );
}

#[test]
fn text_shape() {
    let t = Text::new("Hello", 50, 20);
    assert_eq!(
        drawn_by(|c| t.draw(c)),
        vec![DrawCommand::Text { text: String::from("Hello"), font: None, x: 50, y: 20 }]
    );
}

#[test]
fn button_shape() {
    let mut b = Button::new(50_000, 150_000, 150_000, 50_000, "Click");
    assert!(b.contains(50_000, 150_000));
    assert!(b.contains(200_000, 200_000));
    assert!(!b.contains(200_001, 200_000));
    assert!(!b.contains(49_999, 160_000));
    let face = |color: Color| DrawCommand::RoundedRect {
        x: 50_000,
        y: 150_000,
        w: 150_000,
        h: 50_000,
        radius: 8000,
        color,
        outline_color: Color { r: 100, g: 200, b: 400, a: 1000 },
        outline_thickness: 2000,
    };
    let label =
        DrawCommand::Text { text: String::from("Click"), font: None, x: 60_000, y: 165_000 };
    assert_eq!(
        drawn_by(|c| b.draw(c)),
        vec![face(Color { r: 200, g: 400, b: 800, a: 1000 }), label.clone()]
    );
    b.is_hovered = true;
    assert_eq!(
        drawn_by(|c| b.draw(c)),
        vec![face(Color { r: 300, g: 500, b: 900, a: 1000 }), label.clone()]
    );
    b.is_pressed = true;
    assert_eq!(drawn_by(|c| b.draw(c)), vec![face(Color { r: 160, g: 320, b: 640, a: 1000 }), label]);
}

#[test]
fn checkbox_shape() {
    let mut cb = Checkbox::new(50_000, 220_000, "Enable");
    assert_eq!(cb.size, 20_000);
    assert!(!cb.checked);
    assert!(cb.contains(70_000, 240_000));
    assert!(!cb.contains(70_001, 240_000));
    let frame = DrawCommand::Rect {
        x: 50_000,
        y: 220_000,
        w: 20_000,
        h: 20_000,
        color: Color::white(),
        outline_color: Color { r: 500, g: 500, b: 500, a: 1000 },
        outline_thickness: 2000,
    };
    let label =
        DrawCommand::Text { text: String::from("Enable"), font: None, x: 80_000, y: 220_000 };
    assert_eq!(drawn_by(|c| cb.draw(c)), vec![frame.clone(), label.clone()]);
    cb.toggle();
    assert!(cb.checked);
    let mark = DrawCommand::Rect {
        x: 54_000,
        y: 224_000,
        w: 12_000,
        h: 12_000,
        color: Color { r: 200, g: 600, b: 200, a: 1000 },
        outline_color: clear(),
        outline_thickness: 0,
    };
    assert_eq!(drawn_by(|c| cb.draw(c)), vec![frame, mark, label]);
    cb.toggle();
    assert!(!cb.checked);
}

#[test]
fn slider_shape() {
    let mut s = Slider::new(50_000, 270_000, 300_000);
    assert_eq!(s.value, 500);
    assert_eq!(s.handle_x(), 200_000);
    assert!(s.contains_handle(200_000, 275_000));
    assert!(s.contains_handle(208_000, 275_000));
    assert!(!s.contains_handle(208_001, 275_000));
    assert!(s.contains_handle(200_000, 267_000));
    assert!(!s.contains_handle(200_000, 266_999));
    assert!(s.contains_handle(205_656, 280_656));
    assert!(!s.contains_handle(205_657, 280_657));
    assert!(!s.contains_handle(i32::MIN, i32::MAX));

    s.set_value_from_x(125_000);
    assert_eq!(s.value, 250);
    s.set_value_from_x(0);
    assert_eq!(s.value, 0);
    s.set_value_from_x(900_000);
    assert_eq!(s.value, 1000);
    s.set_value_from_x(125_000);

    let track = |w: i32, color: Color| DrawCommand::RoundedRect {
        x: 50_000,
        y: 270_000,
        w,
        h: 4000,
        radius: 2000,
        color,
        outline_color: clear(),
        outline_thickness: 0,
    };
    assert_eq!(
        drawn_by(|c| s.draw(c)),
        vec![
            track(300_000, Color { r: 300, g: 300, b: 300, a: 1000 }),
            track(75_000, Color { r: 200, g: 600, b: 900, a: 1000 }),
            DrawCommand::Circle {
                cx: 125_000,
                cy: 272_000,
                radius: 8000,
                color: Color::white(),
                outline_color: Color { r: 200, g: 200, b: 200, a: 1000 },
                outline_thickness: 2000
            },
        ]
    );
}

#[test]
fn card_shape() {
    let card = Card::new(400, 150, 350, 300);
    assert_eq!(
        drawn_by(|c| card.draw(c)),
        vec![DrawCommand::RoundedRect {
            x: 400,
            y: 150,
            w: 350,
            h: 300,
            radius: 12_000,
            color: Color::white(),
            outline_color: Color { r: 850, g: 850, b: 850, a: 1000 },
            outline_thickness: 1000
        }]
    );
}

#[test]
fn progress_bar_shape() {
    let mut p = ProgressBar::new(10_000, 20_000, 200_000, 15_000);
    assert_eq!(p.progress, 0);
    let bar = |w: i32, color: Color, outline: Color, thickness: i32| DrawCommand::RoundedRect {
        x: 10_000,
        y: 20_000,
        w,
        h: 15_000,
        radius: 7500,
        color,
        outline_color: outline,
        outline_thickness: thickness,
    };
    let back = bar(
        200_000,
        Color { r: 900, g: 900, b: 900, a: 1000 },
        Color { r: 700, g: 700, b: 700, a: 1000 },
        1000,
    );
    let green = Color { r: 200, g: 800, b: 400, a: 1000 };
    assert_eq!(drawn_by(|c| p.draw(c)), vec![back.clone()]);
    p.progress = -5;
    assert_eq!(drawn_by(|c| p.draw(c)), vec![back.clone()]);
    p.progress = 250;
    assert_eq!(drawn_by(|c| p.draw(c)), vec![back.clone(), bar(50_000, green, clear(), 0)]);
    p.progress = 1000;
    assert_eq!(drawn_by(|c| p.draw(c)), vec![back.clone(), bar(200_000, green, clear(), 0)]);
    p.progress = 4000;
    assert_eq!(drawn_by(|c| p.draw(c)), vec![back, bar(200_000, green, clear(), 0)]);
}

#[test]
fn shapes_draw_after_what_is_there() {
    let drawn = drawn_by(|c| {
        Card::new(0, 0, 1, 1).draw(c);
        Text::new("a", 0, 0).draw(c);
        Circle::new(0, 0, 1).draw(c);
    });
    assert!(matches!(drawn[0], DrawCommand::RoundedRect { .. }));
    assert!(matches!(drawn[1], DrawCommand::Text { .. }));
    assert!(matches!(drawn[2], DrawCommand::Circle { .. }));
    assert_eq!(drawn.len(), 3);
}
