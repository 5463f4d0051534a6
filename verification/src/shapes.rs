//! Shapes and simple controls that draw themselves on a canvas, frame by
//! frame, and keep no state in a store.
use vstd::prelude::*;
use crate::canvas::Canvas;
use crate::geometry::{
    fraction, fraction_of, half, half_of, sat, sat_add, sat_sub, scale, scaled, Color, FULL,
};
use crate::scene::DrawOp;

verus! {

/// The colour of a shape that has not been given one.
pub open spec fn plain() -> Color {
    Color { r: FULL, g: FULL, b: FULL, a: FULL }
}

/// No colour at all.
pub open spec fn clear() -> Color {
    Color { r: 0, g: 0, b: 0, a: 0 }
}

/// Whether `next` is `canvas` after it drew `ops`, in order.
pub open spec fn drew_all(canvas: &Canvas<'_>, next: &Canvas<'_>, ops: Seq<DrawOp>) -> bool {
    &&& next.drawn() == canvas.drawn() + ops
    &&& next.width == canvas.width
    &&& next.height == canvas.height
    &&& next.scale_factor == canvas.scale_factor
    &&& next.mouse == canvas.mouse
    &&& (ops.len() > 0 ==> next.scene.dirty)
    &&& (ops.len() == 0 ==> next.scene.dirty == canvas.scene.dirty)
}

/// A rectangle.
#[derive(Clone, Copy, Debug, PartialEq, Eq, Structural)]
pub struct Rect {
    pub x: i32,
    pub y: i32,
    pub width: i32,
    pub height: i32,
    pub color: Color,
    pub outline_color: Color,
    pub outline_thickness: i32,
}

impl Rect {
    /// A white rectangle without outline.
    pub fn new(x: i32, y: i32, width: i32, height: i32) -> (r: Rect)
        ensures
            r == (Rect {
                x,
                y,
                width,
                height,
                color: plain(),
                outline_color: clear(),
                outline_thickness: 0,
            }),
    {
        Rect {
            x,
            y,
            width,
            height,
            color: Color { r: FULL, g: FULL, b: FULL, a: FULL },
            outline_color: Color { r: 0, g: 0, b: 0, a: 0 },
            outline_thickness: 0,
        }
    }

    /// The shape in the colour `color`.
    pub fn color(self, color: Color) -> (r: Rect)
        ensures
            r == (Rect { color, ..self }),
    {
        Rect { color, ..self }
    }

    /// The shape with an outline of the colour `color`, `thickness` wide.
    pub fn outline(self, color: Color, thickness: i32) -> (r: Rect)
        ensures
            r == (Rect { outline_color: color, outline_thickness: thickness, ..self }),
    {
        Rect { outline_color: color, outline_thickness: thickness, ..self }
    }

    /// What the rectangle draws.
    pub open spec fn drawn(&self) -> Seq<DrawOp> {
        seq![
            DrawOp::Rect {
                x: self.x,
                y: self.y,
                w: self.width,
                h: self.height,
                color: self.color,
                outline_color: self.outline_color,
                outline_thickness: self.outline_thickness,
            },
        ]
    }

    /// Draws the shape on `canvas`, over what is there.
    pub fn draw(&self, canvas: &mut Canvas)
        ensures
            drew_all(old(canvas), final(canvas), self.drawn()),
    {
        canvas.rect(
            self.x,
            self.y,
            self.width,
            self.height,
            self.color,
            self.outline_color,
            self.outline_thickness,
        );
        assert(canvas.drawn() =~= old(canvas).drawn() + self.drawn());
    }
}

/// A circle.
#[derive(Clone, Copy, Debug, PartialEq, Eq, Structural)]
pub struct Circle {
    pub cx: i32,
    pub cy: i32,
    pub radius: i32,
    pub color: Color,
    pub outline_color: Color,
    pub outline_thickness: i32,
}

impl Circle {
    /// A white circle without outline.
    pub fn new(cx: i32, cy: i32, radius: i32) -> (r: Circle)
        ensures
            r == (Circle {
                cx,
                cy,
                radius,
                color: plain(),
                outline_color: clear(),
                outline_thickness: 0,
            }),
    {
        Circle {
            cx,
            cy,
            radius,
            color: Color { r: FULL, g: FULL, b: FULL, a: FULL },
            outline_color: Color { r: 0, g: 0, b: 0, a: 0 },
            outline_thickness: 0,
        }
    }

    /// The shape in the colour `color`.
    pub fn color(self, color: Color) -> (r: Circle)
        ensures
            r == (Circle { color, ..self }),
    {
        Circle { color, ..self }
    }

    /// The shape with an outline of the colour `color`, `thickness` wide.
    pub fn outline(self, color: Color, thickness: i32) -> (r: Circle)
        ensures
            r == (Circle { outline_color: color, outline_thickness: thickness, ..self }),
    {
        Circle { outline_color: color, outline_thickness: thickness, ..self }
    }

    /// What the circle draws.
    pub open spec fn drawn(&self) -> Seq<DrawOp> {
        seq![
            DrawOp::Circle {
                cx: self.cx,
                cy: self.cy,
                radius: self.radius,
                color: self.color,
                outline_color: self.outline_color,
                outline_thickness: self.outline_thickness,
            },
        ]
    }

    /// Draws the shape on `canvas`, over what is there.
    pub fn draw(&self, canvas: &mut Canvas)
        ensures
            drew_all(old(canvas), final(canvas), self.drawn()),
    {
        canvas.circle(
            self.cx,
            self.cy,
            self.radius,
            self.color,
            self.outline_color,
            self.outline_thickness,
        );
        assert(canvas.drawn() =~= old(canvas).drawn() + self.drawn());
    }
}

/// A rectangle with rounded corners.
#[derive(Clone, Copy, Debug, PartialEq, Eq, Structural)]
pub struct RoundedRect {
    pub x: i32,
    pub y: i32,
    pub width: i32,
    pub height: i32,
    pub radius: i32,
    pub color: Color,
    pub outline_color: Color,
    pub outline_thickness: i32,
}

impl RoundedRect {
    /// A white rounded rectangle without outline.
    pub fn new(x: i32, y: i32, width: i32, height: i32, radius: i32) -> (r: RoundedRect)
        ensures
            r == (RoundedRect {
                x,
                y,
                width,
                height,
                radius,
                color: plain(),
                outline_color: clear(),
                outline_thickness: 0,
            }),
    {
        RoundedRect {
            x,
            y,
            width,
            height,
            radius,
            color: Color { r: FULL, g: FULL, b: FULL, a: FULL },
            outline_color: Color { r: 0, g: 0, b: 0, a: 0 },
            outline_thickness: 0,
        }
    }

    /// The shape in the colour `color`.
    pub fn color(self, color: Color) -> (r: RoundedRect)
        ensures
            r == (RoundedRect { color, ..self }),
    {
        RoundedRect { color, ..self }
    }

    /// The shape with an outline of the colour `color`, `thickness` wide.
    pub fn outline(self, color: Color, thickness: i32) -> (r: RoundedRect)
        ensures
            r == (RoundedRect { outline_color: color, outline_thickness: thickness, ..self }),
    {
        RoundedRect { outline_color: color, outline_thickness: thickness, ..self }
    }

    /// What the rounded rectangle draws.
    pub open spec fn drawn(&self) -> Seq<DrawOp> {
        seq![
            DrawOp::RoundedRect {
                x: self.x,
                y: self.y,
                w: self.width,
                h: self.height,
                radius: self.radius,
                color: self.color,
                outline_color: self.outline_color,
                outline_thickness: self.outline_thickness,
            },
        ]
    }

    /// Draws the shape on `canvas`, over what is there.
    pub fn draw(&self, canvas: &mut Canvas)
        ensures
            drew_all(old(canvas), final(canvas), self.drawn()),
    {
        canvas.rounded_rect(
            self.x,
            self.y,
            self.width,
            self.height,
            self.radius,
            self.color,
            self.outline_color,
            self.outline_thickness,
        );
        assert(canvas.drawn() =~= old(canvas).drawn() + self.drawn());
    }
}

/// A line of text.
pub struct Text {
    pub text: String,
    pub x: i32,
    pub y: i32,
}

impl Text {
    /// A line of text with its top left corner at `(x, y)`.
    pub fn new(text: &str, x: i32, y: i32) -> (r: Text)
        ensures
            r.text@ == text@,
            r.x == x,
            r.y == y,
    {
        Text { text: text.to_owned(), x, y }
    }

    /// What the text draws.
    pub open spec fn drawn(&self) -> Seq<DrawOp> {
        seq![DrawOp::Text { text: self.text@, font: None, x: self.x, y: self.y }]
    }

    /// Draws the shape on `canvas`, over what is there.
    pub fn draw(&self, canvas: &mut Canvas)
        ensures
            drew_all(old(canvas), final(canvas), self.drawn()),
    {
        canvas.text(self.text.as_str(), self.x, self.y);
        assert(canvas.drawn() =~= old(canvas).drawn() + self.drawn());
    }
}

/// How far the label of a button stands in from its left edge, and how far
/// above the button's middle.
pub const LABEL_INSET: i32 = 10_000;

/// A button.
pub struct Button {
    pub x: i32,
    pub y: i32,
    pub width: i32,
    pub height: i32,
    pub text: String,
    pub bg_color: Color,
    pub hover_color: Color,
    pub text_color: Color,
    pub border_color: Color,
    pub border_thickness: i32,
    pub corner_radius: i32,
    pub is_hovered: bool,
    pub is_pressed: bool,
}

impl Button {
    /// A blue button, neither hovered nor pressed.
    pub fn new(x: i32, y: i32, width: i32, height: i32, text: &str) -> (b: Button)
        ensures
            b.text@ == text@,
            b.x == x && b.y == y && b.width == width && b.height == height,
            b.bg_color == (Color { r: 200, g: 400, b: 800, a: FULL }),
            b.hover_color == (Color { r: 300, g: 500, b: 900, a: FULL }),
            b.text_color == plain(),
            b.border_color == (Color { r: 100, g: 200, b: 400, a: FULL }),
            b.border_thickness == 2000,
            b.corner_radius == 8000,
            !b.is_hovered && !b.is_pressed,
    {
        Button {
            x,
            y,
            width,
            height,
            text: text.to_owned(),
            bg_color: Color { r: 200, g: 400, b: 800, a: FULL },
            hover_color: Color { r: 300, g: 500, b: 900, a: FULL },
            text_color: Color { r: FULL, g: FULL, b: FULL, a: FULL },
            border_color: Color { r: 100, g: 200, b: 400, a: FULL },
            border_thickness: 2000,
            corner_radius: 8000,
            is_hovered: false,
            is_pressed: false,
        }
    }

    /// Whether the point `(x, y)` lies on the button, edges included.
    pub open spec fn holds(&self, x: int, y: int) -> bool {
        &&& self.x <= x <= self.x + self.width
        &&& self.y <= y <= self.y + self.height
    }

    /// Whether the point `(x, y)` lies on the control, edges included.
    pub fn contains(&self, x: i32, y: i32) -> (r: bool)
        ensures
            r == self.holds(x as int, y as int),
    {
        let right: i64 = self.x as i64 + self.width as i64;
        let bottom: i64 = self.y as i64 + self.height as i64;
        x >= self.x && x as i64 <= right && y >= self.y && y as i64 <= bottom
    }

    /// The colour of the button's face: darkened while pressed, else the
    /// hover colour while hovered.
    pub open spec fn face(&self) -> Color {
        if self.is_pressed {
            self.bg_color.shaded()
        } else if self.is_hovered {
            self.hover_color
        } else {
            self.bg_color
        }
    }

    /// What the button draws: its face, and its label.
    pub open spec fn drawn(&self) -> Seq<DrawOp> {
        seq![
            DrawOp::RoundedRect {
                x: self.x,
                y: self.y,
                w: self.width,
                h: self.height,
                radius: self.corner_radius,
                color: self.face(),
                outline_color: self.border_color,
                outline_thickness: self.border_thickness,
            },
            DrawOp::Text {
                text: self.text@,
                font: None,
                x: sat(self.x + LABEL_INSET) as i32,
                y: sat(sat(self.y + half(self.height as int)) - LABEL_INSET) as i32,
            },
        ]
    }

    /// Draws the shape on `canvas`, over what is there.
    pub fn draw(&self, canvas: &mut Canvas)
        ensures
            drew_all(old(canvas), final(canvas), self.drawn()),
    {
        let color = if self.is_pressed {
            self.bg_color.shade()
        } else if self.is_hovered {
            self.hover_color
        } else {
            self.bg_color
        };
        canvas.rounded_rect(
            self.x,
            self.y,
            self.width,
            self.height,
            self.corner_radius,
            color,
            self.border_color,
            self.border_thickness,
        );
        let text_x = sat_add(self.x, LABEL_INSET);
        let text_y = sat_sub(sat_add(self.y, half_of(self.height)), LABEL_INSET);
        canvas.text(self.text.as_str(), text_x, text_y);
        assert(canvas.drawn() =~= old(canvas).drawn() + self.drawn());
    }
}

/// A checkbox with a label to its right.
pub struct Checkbox {
    pub x: i32,
    pub y: i32,
    pub size: i32,
    pub label: String,
    pub checked: bool,
    pub bg_color: Color,
    pub check_color: Color,
    pub border_color: Color,
}

impl Checkbox {
    /// An unchecked box of 20 pixels.
    pub fn new(x: i32, y: i32, label: &str) -> (c: Checkbox)
        ensures
            c.label@ == label@,
            c.x == x && c.y == y,
            c.size == 20_000,
            !c.checked,
            c.bg_color == plain(),
            c.check_color == (Color { r: 200, g: 600, b: 200, a: FULL }),
            c.border_color == (Color { r: 500, g: 500, b: 500, a: FULL }),
    {
        Checkbox {
            x,
            y,
            size: 20_000,
            label: label.to_owned(),
            checked: false,
            bg_color: Color { r: FULL, g: FULL, b: FULL, a: FULL },
            check_color: Color { r: 200, g: 600, b: 200, a: FULL },
            border_color: Color { r: 500, g: 500, b: 500, a: FULL },
        }
    }

    /// Whether the point `(x, y)` lies on the box, edges included.
    pub open spec fn holds(&self, x: int, y: int) -> bool {
        &&& self.x <= x <= self.x + self.size
        &&& self.y <= y <= self.y + self.size
    }

    /// Whether the point `(x, y)` lies on the control, edges included.
    pub fn contains(&self, x: i32, y: i32) -> (r: bool)
        ensures
            r == self.holds(x as int, y as int),
    {
        let right: i64 = self.x as i64 + self.size as i64;
        let bottom: i64 = self.y as i64 + self.size as i64;
        x >= self.x && x as i64 <= right && y >= self.y && y as i64 <= bottom
    }

    /// Checks an unchecked box and unchecks a checked one.
    pub fn toggle(&mut self)
        ensures
            *final(self) == (Checkbox { checked: !old(self).checked, ..*old(self) }),
    {
        self.checked = !self.checked;
    }

    /// The space between the box and its tick: a fifth of the size.
    pub open spec fn margin(&self) -> i32 {
        sat(scaled(self.size as int, 200)) as i32
    }

    /// The box.
    pub open spec fn box_op(&self) -> DrawOp {
        DrawOp::Rect {
            x: self.x,
            y: self.y,
            w: self.size,
            h: self.size,
            color: self.bg_color,
            outline_color: self.border_color,
            outline_thickness: 2000,
        }
    }

    /// The tick: a square a margin inside the box.
    pub open spec fn mark_op(&self) -> DrawOp {
        let m = self.margin();
        let inner = sat(self.size - sat(m + m)) as i32;
        DrawOp::Rect {
            x: sat(self.x + m) as i32,
            y: sat(self.y + m) as i32,
            w: inner,
            h: inner,
            color: self.check_color,
            outline_color: clear(),
            outline_thickness: 0,
        }
    }

    /// The label, ten pixels right of the box.
    pub open spec fn label_op(&self) -> DrawOp {
        DrawOp::Text {
            text: self.label@,
            font: None,
            x: sat(sat(self.x + self.size) + LABEL_INSET) as i32,
            y: self.y,
        }
    }

    /// What the checkbox draws: the box, the tick if it is checked,
    /// and the label.
    pub open spec fn drawn(&self) -> Seq<DrawOp> {
        if self.checked {
            seq![self.box_op(), self.mark_op(), self.label_op()]
        } else {
            seq![self.box_op(), self.label_op()]
        }
    }

    /// Draws the shape on `canvas`, over what is there.
    pub fn draw(&self, canvas: &mut Canvas)
        ensures
            drew_all(old(canvas), final(canvas), self.drawn()),
    {
        canvas.rect(self.x, self.y, self.size, self.size, self.bg_color, self.border_color, 2000);
        if self.checked {
            let margin = scale(self.size, 200);
            let inner = sat_sub(self.size, sat_add(margin, margin));
            canvas.rect(
                sat_add(self.x, margin),
                sat_add(self.y, margin),
                inner,
                inner,
                self.check_color,
                Color { r: 0, g: 0, b: 0, a: 0 },
                0,
            );
        }
        canvas.text(self.label.as_str(), sat_add(sat_add(self.x, self.size), LABEL_INSET), self.y);
        assert(canvas.drawn() =~= old(canvas).drawn() + self.drawn());
    }
}

/// The height of a slider's track.
pub const TRACK_HEIGHT: i32 = 4000;

/// The radius of the track's rounded ends: half its height.
pub const TRACK_RADIUS: i32 = 2000;

/// The radius of a slider's handle.
pub const HANDLE_RADIUS: i32 = 8000;

/// How far below the slider's top the middle of the handle is taken to be
/// when the pointer is tested against it.
pub const HANDLE_DROP: i32 = 5000;

/// A slider.
#[derive(Clone, Copy, Debug, PartialEq, Eq, Structural)]
pub struct Slider {
    pub x: i32,
    pub y: i32,
    pub width: i32,
    /// The value, in thousandths.
    pub value: i32,
    pub track_color: Color,
    pub fill_color: Color,
    pub handle_color: Color,
    pub is_dragging: bool,
}

impl Slider {
    /// A slider at one half.
    pub fn new(x: i32, y: i32, width: i32) -> (s: Slider)
        ensures
            s == (Slider {
                x,
                y,
                width,
                value: 500,
                track_color: Color { r: 300, g: 300, b: 300, a: FULL },
                fill_color: Color { r: 200, g: 600, b: 900, a: FULL },
                handle_color: plain(),
                is_dragging: false,
            }),
    {
        Slider {
            x,
            y,
            width,
            value: 500,
            track_color: Color { r: 300, g: 300, b: 300, a: FULL },
            fill_color: Color { r: 200, g: 600, b: 900, a: FULL },
            handle_color: Color { r: FULL, g: FULL, b: FULL, a: FULL },
            is_dragging: false,
        }
    }

    /// The length of the track up to the value.
    pub open spec fn filled(&self) -> i32 {
        sat(scaled(self.width as int, self.value as int)) as i32
    }

    /// Where the handle stands.
    pub open spec fn handle_at(&self) -> i32 {
        sat(self.x + self.filled()) as i32
    }

    /// Where the handle stands.
    pub fn handle_x(&self) -> (r: i32)
        ensures
            r == self.handle_at(),
    {
        sat_add(self.x, scale(self.width, self.value))
    }

    /// Whether the point `(x, y)` lies on the handle: within its radius of
    /// its middle.
    pub open spec fn on_handle(&self, x: int, y: int) -> bool {
        let dx = x - self.handle_at();
        let dy = y - sat(self.y + HANDLE_DROP);
        dx * dx + dy * dy <= HANDLE_RADIUS * HANDLE_RADIUS
    }

    /// Whether the point `(x, y)` lies on the handle.
    pub fn contains_handle(&self, x: i32, y: i32) -> (r: bool)
        ensures
            r == self.on_handle(x as int, y as int),
    {
        let dx: i64 = x as i64 - self.handle_x() as i64;
        let dy: i64 = y as i64 - sat_add(self.y, HANDLE_DROP) as i64;
        let reach: i64 = HANDLE_RADIUS as i64;
        if dx > reach || dx < -reach || dy > reach || dy < -reach {
            assert(dx * dx + dy * dy > 8000 * 8000) by (nonlinear_arith)
                requires
                    dx > 8000 || dx < -8000 || dy > 8000 || dy < -8000,
            ;
            false
        } else {
            assert(0 <= dx * dx <= 8000 * 8000 && 0 <= dy * dy <= 8000 * 8000)
                by (nonlinear_arith)
                requires
                    -8000 <= dx <= 8000,
                    -8000 <= dy <= 8000,
            ;
            dx * dx + dy * dy <= reach * reach
        }
    }

    /// Puts the value where the point `x` lies along the track.
    pub fn set_value_from_x(&mut self, x: i32)
        ensures
            *final(self) == (Slider {
                value: fraction(x as int, old(self).x as int, old(self).width as int) as i32,
                ..*old(self)
            }),
    {
        self.value = fraction_of(x, self.x, self.width) as i32;
    }

    /// What the slider draws: the track, the part of it up to the value,
    /// and the handle.
    pub open spec fn drawn(&self) -> Seq<DrawOp> {
        seq![
            DrawOp::RoundedRect {
                x: self.x,
                y: self.y,
                w: self.width,
                h: TRACK_HEIGHT,
                radius: TRACK_RADIUS,
                color: self.track_color,
                outline_color: clear(),
                outline_thickness: 0,
            },
            DrawOp::RoundedRect {
                x: self.x,
                y: self.y,
                w: self.filled(),
                h: TRACK_HEIGHT,
                radius: TRACK_RADIUS,
                color: self.fill_color,
                outline_color: clear(),
                outline_thickness: 0,
            },
            DrawOp::Circle {
                cx: self.handle_at(),
                cy: sat(self.y + TRACK_RADIUS) as i32,
                radius: HANDLE_RADIUS,
                color: self.handle_color,
                outline_color: Color { r: 200, g: 200, b: 200, a: FULL },
                outline_thickness: 2000,
            },
        ]
    }

    /// Draws the shape on `canvas`, over what is there.
    pub fn draw(&self, canvas: &mut Canvas)
        ensures
            drew_all(old(canvas), final(canvas), self.drawn()),
    {
        let none = Color { r: 0, g: 0, b: 0, a: 0 };
        canvas.rounded_rect(
            self.x,
            self.y,
            self.width,
            TRACK_HEIGHT,
            TRACK_RADIUS,
            self.track_color,
            none,
            0,
        );
        canvas.rounded_rect(
            self.x,
            self.y,
            scale(self.width, self.value),
            TRACK_HEIGHT,
            TRACK_RADIUS,
            self.fill_color,
            none,
            0,
        );
        canvas.circle(
            self.handle_x(),
            sat_add(self.y, TRACK_RADIUS),
            HANDLE_RADIUS,
            self.handle_color,
            Color { r: 200, g: 200, b: 200, a: FULL },
            2000,
        );
        assert(canvas.drawn() =~= old(canvas).drawn() + self.drawn());
    }
}

/// A panel.
#[derive(Clone, Copy, Debug, PartialEq, Eq, Structural)]
pub struct Card {
    pub x: i32,
    pub y: i32,
    pub width: i32,
    pub height: i32,
    pub bg_color: Color,
    pub border_color: Color,
    pub corner_radius: i32,
}

impl Card {
    /// A white panel with a light border.
    pub fn new(x: i32, y: i32, width: i32, height: i32) -> (c: Card)
        ensures
            c == (Card {
                x,
                y,
                width,
                height,
                bg_color: plain(),
                border_color: Color { r: 850, g: 850, b: 850, a: FULL },
                corner_radius: 12_000,
            }),
    {
        Card {
            x,
            y,
            width,
            height,
            bg_color: Color { r: FULL, g: FULL, b: FULL, a: FULL },
            border_color: Color { r: 850, g: 850, b: 850, a: FULL },
            corner_radius: 12_000,
        }
    }

    /// What the panel draws.
    pub open spec fn drawn(&self) -> Seq<DrawOp> {
        seq![
            DrawOp::RoundedRect {
                x: self.x,
                y: self.y,
                w: self.width,
                h: self.height,
                radius: self.corner_radius,
                color: self.bg_color,
                outline_color: self.border_color,
                outline_thickness: 1000,
            },
        ]
    }

    /// Draws the shape on `canvas`, over what is there.
    pub fn draw(&self, canvas: &mut Canvas)
        ensures
            drew_all(old(canvas), final(canvas), self.drawn()),
    {
        canvas.rounded_rect(
            self.x,
            self.y,
            self.width,
            self.height,
            self.corner_radius,
            self.bg_color,
            self.border_color,
            1000,
        );
        assert(canvas.drawn() =~= old(canvas).drawn() + self.drawn());
    }
}

/// A bar that fills from the left as work progresses.
#[derive(Clone, Copy, Debug, PartialEq, Eq, Structural)]
pub struct ProgressBar {
    pub x: i32,
    pub y: i32,
    pub width: i32,
    pub height: i32,
    /// The progress, in thousandths.
    pub progress: i32,
    pub bg_color: Color,
    pub fill_color: Color,
    pub border_color: Color,
}

impl ProgressBar {
    /// An empty bar.
    pub fn new(x: i32, y: i32, width: i32, height: i32) -> (p: ProgressBar)
        ensures
            p == (ProgressBar {
                x,
                y,
                width,
                height,
                progress: 0,
                bg_color: Color { r: 900, g: 900, b: 900, a: FULL },
                fill_color: Color { r: 200, g: 800, b: 400, a: FULL },
                border_color: Color { r: 700, g: 700, b: 700, a: FULL },
            }),
    {
        ProgressBar {
            x,
            y,
            width,
            height,
            progress: 0,
            bg_color: Color { r: 900, g: 900, b: 900, a: FULL },
            fill_color: Color { r: 200, g: 800, b: 400, a: FULL },
            border_color: Color { r: 700, g: 700, b: 700, a: FULL },
        }
    }

    /// The radius of the bar's ends: half its height.
    pub open spec fn radius(&self) -> i32 {
        half(self.height as int) as i32
    }

    /// The bar itself.
    pub open spec fn track_op(&self) -> DrawOp {
        DrawOp::RoundedRect {
            x: self.x,
            y: self.y,
            w: self.width,
            h: self.height,
            radius: self.radius(),
            color: self.bg_color,
            outline_color: self.border_color,
            outline_thickness: 1000,
        }
    }

    /// The filled part: as much of the width as there is progress, and no
    /// more than all of it.
    pub open spec fn fill_op(&self) -> DrawOp {
        let shown = if self.progress > 1000 {
            1000
        } else {
            self.progress as int
        };
        DrawOp::RoundedRect {
            x: self.x,
            y: self.y,
            w: sat(scaled(self.width as int, shown)) as i32,
            h: self.height,
            radius: self.radius(),
            color: self.fill_color,
            outline_color: clear(),
            outline_thickness: 0,
        }
    }

    /// What the bar draws: itself, and its filled part if there is any
    /// progress.
    pub open spec fn drawn(&self) -> Seq<DrawOp> {
        if self.progress > 0 {
            seq![self.track_op(), self.fill_op()]
        } else {
            seq![self.track_op()]
        }
    }

    /// Draws the shape on `canvas`, over what is there.
    pub fn draw(&self, canvas: &mut Canvas)
        ensures
            drew_all(old(canvas), final(canvas), self.drawn()),
    {
        let corner_radius = half_of(self.height);
        canvas.rounded_rect(
            self.x,
            self.y,
            self.width,
            self.height,
            corner_radius,
            self.bg_color,
            self.border_color,
            1000,
        );
        if self.progress > 0 {
            let shown: i32 = if self.progress > 1000 {
                1000
            } else {
                self.progress
            };
            canvas.rounded_rect(
                self.x,
                self.y,
                scale(self.width, shown),
                self.height,
                corner_radius,
                self.fill_color,
                Color { r: 0, g: 0, b: 0, a: 0 },
                0,
            );
        }
        assert(canvas.drawn() =~= old(canvas).drawn() + self.drawn());
    }
}

} // verus!
