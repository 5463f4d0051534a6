//! A push button that follows the pointer: hovered while the pointer is
//! over it, pressed while the left button is held down over it.
use vstd::prelude::*;
use crate::geometry::{half, half_of, sat, sat_add, sat_sub, Color, Rect, FULL};
use crate::input::MouseState;
use crate::scene::{ops, DrawCommand, DrawOp, FontId};
use crate::widgets::{MeasureRequest, Widget, WidgetKind, WidgetMetrics, WidgetNode};

verus! {

/// A push button in the store.
pub struct ButtonWidget {
    pub id: usize,
    pub bounds: Rect,
    pub text: String,
    pub font: Option<FontId>,
    pub bg_color: Color,
    pub hover_color: Color,
    pub text_color: Color,
    pub border_color: Color,
    pub border_thickness: i32,
    pub corner_radius: i32,
    /// The space between the button's edge and its label.
    pub padding: i32,
    /// Whether layout fits the button to its label.
    pub auto_size: bool,
    pub is_hovered: bool,
    pub is_pressed: bool,
    pub dirty: bool,
}

impl ButtonWidget {
    /// Whether this is a new button with the identity `id` and the label
    /// `text`: at the origin, to be fitted to its label, and dirty.
    pub open spec fn fresh(&self, id: usize, text: Seq<char>) -> bool {
        &&& self.id == id
        &&& self.text@ == text
        &&& self.bounds == (Rect { x: 0, y: 0, w: 100_000, h: 100_000 })
        &&& self.font is None
        &&& self.bg_color == (Color { r: 200, g: 400, b: 800, a: FULL })
        &&& self.hover_color == (Color { r: 300, g: 500, b: 900, a: FULL })
        &&& self.text_color == (Color { r: FULL, g: FULL, b: FULL, a: FULL })
        &&& self.border_color == (Color { r: 100, g: 200, b: 400, a: FULL })
        &&& self.border_thickness == 2000
        &&& self.corner_radius == 8000
        &&& self.padding == 10_000
        &&& self.auto_size
        &&& !self.is_hovered && !self.is_pressed
        &&& self.dirty
    }

    /// A new button with the identity `id` and the label `text`.
    pub fn new(id: usize, text: &str) -> (w: ButtonWidget)
        ensures
            w.fresh(id, text@),
    {
        ButtonWidget {
            id,
            bounds: Rect { x: 0, y: 0, w: 100_000, h: 100_000 },
            text: text.to_owned(),
            font: None,
            bg_color: Color { r: 200, g: 400, b: 800, a: FULL },
            hover_color: Color { r: 300, g: 500, b: 900, a: FULL },
            text_color: Color { r: FULL, g: FULL, b: FULL, a: FULL },
            border_color: Color { r: 100, g: 200, b: 400, a: FULL },
            border_thickness: 2000,
            corner_radius: 8000,
            padding: 10_000,
            auto_size: true,
            is_hovered: false,
            is_pressed: false,
            dirty: true,
        }
    }

    /// Moves the button.
    pub fn position(&mut self, x: i32, y: i32) -> (r: &mut Self)
        ensures
            *r == (ButtonWidget {
                bounds: Rect { x, y, ..old(self).bounds },
                dirty: true,
                ..*old(self)
            }),
            *final(self) == *final(r),
    {
        self.bounds.x = x;
        self.bounds.y = y;
        self.dirty = true;
        self
    }

    /// Gives the button a size of its own, which layout then leaves alone.
    pub fn size(&mut self, w: i32, h: i32) -> (r: &mut Self)
        ensures
            *r == (ButtonWidget {
                bounds: Rect { w, h, ..old(self).bounds },
                auto_size: false,
                dirty: true,
                ..*old(self)
            }),
            *final(self) == *final(r),
    {
        self.bounds.w = w;
        self.bounds.h = h;
        self.auto_size = false;
        self.dirty = true;
        self
    }

    /// Sets the font of the label.
    pub fn font(&mut self, font_id: FontId) -> (r: &mut Self)
        ensures
            *r == (ButtonWidget { font: Some(font_id), dirty: true, ..*old(self) }),
            *final(self) == *final(r),
    {
        self.font = Some(font_id);
        self.dirty = true;
        self
    }

    /// Replaces the label.
    pub fn text(&mut self, text: &str) -> (r: &mut Self)
        ensures
            r.text@ == text@,
            *r == (ButtonWidget { text: r.text, dirty: true, ..*old(self) }),
            *final(self) == *final(r),
    {
        self.text = text.to_owned();
        self.dirty = true;
        self
    }

    /// Sets the colour of the face.
    pub fn bg_color(&mut self, color: Color) -> (r: &mut Self)
        ensures
            *r == (ButtonWidget { bg_color: color, dirty: true, ..*old(self) }),
            *final(self) == *final(r),
    {
        self.bg_color = color;
        self.dirty = true;
        self
    }

    /// Sets the colour of the face while the pointer is over the button.
    pub fn hover_color(&mut self, color: Color) -> (r: &mut Self)
        ensures
            *r == (ButtonWidget { hover_color: color, dirty: true, ..*old(self) }),
            *final(self) == *final(r),
    {
        self.hover_color = color;
        self.dirty = true;
        self
    }

    /// Sets the space between the edge and the label.
    pub fn padding(&mut self, padding: i32) -> (r: &mut Self)
        ensures
            *r == (ButtonWidget { padding, dirty: true, ..*old(self) }),
            *final(self) == *final(r),
    {
        self.padding = padding;
        self.dirty = true;
        self
    }

    /// This button after a frame with the pointer in state `mouse`: hovered
    /// exactly if the pointer is in its bounds, pressed exactly if moreover
    /// the left button is down, and dirty if either has changed.
    pub open spec fn updated(&self, mouse: MouseState) -> ButtonWidget {
        let hovered = self.bounds.holds(mouse.x as int, mouse.y as int);
        let pressed = hovered && mouse.left_pressed;
        ButtonWidget {
            is_hovered: hovered,
            is_pressed: pressed,
            dirty: self.dirty || hovered != self.is_hovered || pressed != self.is_pressed,
            ..*self
        }
    }

    /// The extent that fits a label of extent `label`: the label with the
    /// padding on every side.
    pub open spec fn fitted(&self, label: i32) -> i32 {
        sat(sat(label + self.padding) + self.padding) as i32
    }

    /// This button after layout: fitted to its measured label where it has
    /// no size of its own, and dirty if that changed its bounds.
    pub open spec fn laid_out(&self, metrics: WidgetMetrics) -> ButtonWidget {
        let w = self.fitted(metrics.probe.w);
        let h = self.fitted(metrics.probe.h);
        if self.auto_size && (w != self.bounds.w || h != self.bounds.h) {
            ButtonWidget { bounds: Rect { w, h, ..self.bounds }, dirty: true, ..*self }
        } else {
            *self
        }
    }

    /// The colour of the button's face: darkened while pressed, else the
    /// hover colour while hovered.
    pub open spec fn face(&self) -> Color {
        if self.is_pressed {
            self.bg_color.shaded()
        } else if self.is_hovered {
            self.hover_color
        } else {
            self.bg_color
        }
    }

    /// What the button draws: its face, and its label a padding in from the
    /// left, centred on its measured height.
    pub open spec fn drawn(&self, metrics: WidgetMetrics) -> Seq<DrawOp> {
        seq![
            DrawOp::RoundedRect {
                x: self.bounds.x,
                y: self.bounds.y,
                w: self.bounds.w,
                h: self.bounds.h,
                radius: self.corner_radius,
                color: self.face(),
                outline_color: self.border_color,
                outline_thickness: self.border_thickness,
            },
            DrawOp::Text {
                text: self.text@,
                font: self.font,
                x: sat(self.bounds.x + self.padding) as i32,
                y: sat(self.bounds.y + half(sat(self.bounds.h - metrics.probe.h))) as i32,
            },
        ]
    }

    /// Fits the button to its label. `metrics.probe` is the extent of the
    /// label.
    pub fn fit(&mut self, metrics: &WidgetMetrics)
        ensures
            *final(self) == old(self).laid_out(*metrics),
    {
        if self.auto_size {
            let w = sat_add(sat_add(metrics.probe.w, self.padding), self.padding);
            let h = sat_add(sat_add(metrics.probe.h, self.padding), self.padding);
            if w != self.bounds.w || h != self.bounds.h {
                self.bounds.w = w;
                self.bounds.h = h;
                self.dirty = true;
            }
        }
    }

    /// Draws the button. `metrics.probe` is the extent of the label.
    pub fn draw(&self, metrics: &WidgetMetrics) -> (r: Vec<DrawCommand>)
        ensures
            ops(r@) == self.drawn(*metrics),
    {
        let color = if self.is_pressed {
            self.bg_color.shade()
        } else if self.is_hovered {
            self.hover_color
        } else {
            self.bg_color
        };
        let mut out: Vec<DrawCommand> = Vec::new();
        out.push(
            DrawCommand::RoundedRect {
                x: self.bounds.x,
                y: self.bounds.y,
                w: self.bounds.w,
                h: self.bounds.h,
                radius: self.corner_radius,
                color,
                outline_color: self.border_color,
                outline_thickness: self.border_thickness,
            },
        );
        out.push(
            DrawCommand::Text {
                text: self.text.clone(),
                font: self.font,
                x: sat_add(self.bounds.x, self.padding),
                y: sat_add(self.bounds.y, half_of(sat_sub(self.bounds.h, metrics.probe.h))),
            },
        );
        assert(ops(out@) =~= self.drawn(*metrics));
        out
    }
}

impl Widget for ButtonWidget {
    open spec fn kind() -> WidgetKind {
        WidgetKind::Button
    }

    open spec fn erased(self) -> WidgetNode {
        WidgetNode::Button(self)
    }

    fn id(&self) -> (r: usize) {
        self.id
    }

    fn bounds(&self) -> (r: Rect) {
        self.bounds
    }

    fn set_bounds(&mut self, bounds: Rect) {
        if bounds != self.bounds {
            self.bounds = bounds;
            self.dirty = true;
        }
    }

    fn update(&mut self, mouse: &MouseState) {
        let hovered = self.bounds.contains(mouse.x, mouse.y);
        let pressed = hovered && mouse.left_pressed;
        if hovered != self.is_hovered || pressed != self.is_pressed {
            self.dirty = true;
        }
        self.is_hovered = hovered;
        self.is_pressed = pressed;
    }

    fn layout(&mut self, metrics: &WidgetMetrics) {
        self.fit(metrics);
    }

    fn render(&self, metrics: &WidgetMetrics) -> (r: Vec<DrawCommand>) {
        self.draw(metrics)
    }

    fn probe(&self) -> (r: MeasureRequest) {
        MeasureRequest { font: self.font, text: self.text.clone() }
    }

    fn is_dirty(&self) -> (r: bool) {
        self.dirty
    }

    fn clear_dirty(&mut self) {
        self.dirty = false;
    }

    fn downcast(node: &WidgetNode) -> (r: Option<&Self>) {
        match node {
            WidgetNode::Button(w) => Some(w),
            _ => None,
        }
    }

    fn downcast_mut(node: &mut WidgetNode) -> (r: Option<&mut Self>) {
        match node {
            WidgetNode::Button(w) => Some(w),
            _ => None,
        }
    }
}

} // verus!
