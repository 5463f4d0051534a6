//! A horizontal slider whose value follows the pointer while it is dragged.
use vstd::prelude::*;
use crate::geometry::{fraction, fraction_of, sat, sat_add, scale, scaled, Color, Rect, FULL};
use crate::input::MouseState;
use crate::scene::{ops, DrawCommand, DrawOp};
use crate::widgets::{MeasureRequest, Widget, WidgetKind, WidgetMetrics, WidgetNode};

verus! {

/// The height of a slider's track.
pub const TRACK_HEIGHT: i32 = 4000;

/// The radius of the track's rounded ends: half its height.
pub const TRACK_RADIUS: i32 = 2000;

/// The radius of a slider's handle.
pub const HANDLE_RADIUS: i32 = 8000;

/// A slider in the store.
pub struct SliderWidget {
    pub id: usize,
    /// The track: the value runs from its left edge to its right edge.
    pub bounds: Rect,
    /// The value, in thousandths.
    pub value: u16,
    pub track_color: Color,
    pub fill_color: Color,
    pub handle_color: Color,
    pub is_dragging: bool,
    pub dirty: bool,
}

impl SliderWidget {
    /// The value is at most one.
    pub open spec fn wf(&self) -> bool {
        self.value <= 1000
    }

    /// Whether the slider is well formed.
    pub fn is_wf(&self) -> (r: bool)
        ensures
            r == self.wf(),
    {
        self.value <= 1000
    }

    /// A new slider with the identity `id`: at the origin, 200 pixels wide,
    /// at one half, and dirty.
    pub open spec fn fresh(id: usize) -> SliderWidget {
        SliderWidget {
            id,
            bounds: Rect { x: 0, y: 0, w: 200_000, h: 16_000 },
            value: 500,
            track_color: Color { r: 300, g: 300, b: 300, a: FULL },
            fill_color: Color { r: 200, g: 600, b: 900, a: FULL },
            handle_color: Color { r: FULL, g: FULL, b: FULL, a: FULL },
            is_dragging: false,
            dirty: true,
        }
    }

    /// A new slider with the identity `id`.
    pub fn new(id: usize) -> (w: SliderWidget)
        ensures
            w == Self::fresh(id),
    {
        SliderWidget {
            id,
            bounds: Rect { x: 0, y: 0, w: 200_000, h: 16_000 },
            value: 500,
            track_color: Color { r: 300, g: 300, b: 300, a: FULL },
            fill_color: Color { r: 200, g: 600, b: 900, a: FULL },
            handle_color: Color { r: FULL, g: FULL, b: FULL, a: FULL },
            is_dragging: false,
            dirty: true,
        }
    }

    /// Moves the slider.
    pub fn position(&mut self, x: i32, y: i32) -> (r: &mut Self)
        ensures
            *r == (SliderWidget {
                bounds: Rect { x, y, ..old(self).bounds },
                dirty: true,
                ..*old(self)
            }),
            *final(self) == *final(r),
    {
        self.bounds.x = x;
        self.bounds.y = y;
        self.dirty = true;
        self
    }

    /// Resizes the slider.
    pub fn size(&mut self, w: i32, h: i32) -> (r: &mut Self)
        ensures
            *r == (SliderWidget {
                bounds: Rect { w, h, ..old(self).bounds },
                dirty: true,
                ..*old(self)
            }),
            *final(self) == *final(r),
    {
        self.bounds.w = w;
        self.bounds.h = h;
        self.dirty = true;
        self
    }

    /// Sets the value, in thousandths; more than one counts as one.
    pub fn value(&mut self, value: u16) -> (r: &mut Self)
        ensures
            r.wf(),
            *r == (SliderWidget {
                value: if value > 1000 {
                    1000
                } else {
                    value
                },
                dirty: true,
                ..*old(self)
            }),
            *final(self) == *final(r),
    {
        self.value = if value > 1000 {
            1000
        } else {
            value
        };
        self.dirty = true;
        self
    }

    /// This slider after a frame with the pointer in state `mouse`. A press
    /// inside the bounds starts a drag and a release ends it; while the
    /// drag lasts the value is the place of the pointer along the track.
    /// The slider is dirty if its value or the drag has changed.
    pub open spec fn updated(&self, mouse: MouseState) -> SliderWidget {
        let grabbed = mouse.left_just_pressed && self.bounds.holds(mouse.x as int, mouse.y as int);
        let dragging = !mouse.left_just_released && (grabbed || self.is_dragging);
        let value = if dragging {
            fraction(mouse.x as int, self.bounds.x as int, self.bounds.w as int) as u16
        } else {
            self.value
        };
        SliderWidget {
            is_dragging: dragging,
            value,
            dirty: self.dirty || dragging != self.is_dragging || value != self.value,
            ..*self
        }
    }

    /// The length of the track up to the value.
    pub open spec fn filled(&self) -> i32 {
        sat(scaled(self.bounds.w as int, self.value as int)) as i32
    }

    /// Where the handle stands.
    pub open spec fn handle_x(&self) -> i32 {
        sat(self.bounds.x + self.filled()) as i32
    }

    /// What the slider draws: the track, the part of it up to the value,
    /// and the handle.
    pub open spec fn drawn(&self) -> Seq<DrawOp> {
        seq![
            DrawOp::RoundedRect {
                x: self.bounds.x,
                y: self.bounds.y,
                w: self.bounds.w,
                h: TRACK_HEIGHT,
                radius: TRACK_RADIUS,
                color: self.track_color,
                outline_color: Color { r: 0, g: 0, b: 0, a: 0 },
                outline_thickness: 0,
            },
            DrawOp::RoundedRect {
                x: self.bounds.x,
                y: self.bounds.y,
                w: self.filled(),
                h: TRACK_HEIGHT,
                radius: TRACK_RADIUS,
                color: self.fill_color,
                outline_color: Color { r: 0, g: 0, b: 0, a: 0 },
                outline_thickness: 0,
            },
            DrawOp::Circle {
                cx: self.handle_x(),
                cy: sat(self.bounds.y + TRACK_RADIUS) as i32,
                radius: HANDLE_RADIUS,
                color: self.handle_color,
                outline_color: Color { r: 200, g: 200, b: 200, a: FULL },
                outline_thickness: 2000,
            },
        ]
    }

    /// Draws the slider.
    pub fn draw(&self) -> (r: Vec<DrawCommand>)
        ensures
            ops(r@) == self.drawn(),
    {
        let clear = Color { r: 0, g: 0, b: 0, a: 0 };
        let filled = scale(self.bounds.w, self.value as i32);
        let mut out: Vec<DrawCommand> = Vec::new();
        out.push(
            DrawCommand::RoundedRect {
                x: self.bounds.x,
                y: self.bounds.y,
                w: self.bounds.w,
                h: TRACK_HEIGHT,
                radius: TRACK_RADIUS,
                color: self.track_color,
                outline_color: clear,
                outline_thickness: 0,
            },
        );
        out.push(
            DrawCommand::RoundedRect {
                x: self.bounds.x,
                y: self.bounds.y,
                w: filled,
                h: TRACK_HEIGHT,
                radius: TRACK_RADIUS,
                color: self.fill_color,
                outline_color: clear,
                outline_thickness: 0,
            },
        );
        out.push(
            DrawCommand::Circle {
                cx: sat_add(self.bounds.x, filled),
                cy: sat_add(self.bounds.y, TRACK_RADIUS),
                radius: HANDLE_RADIUS,
                color: self.handle_color,
                outline_color: Color { r: 200, g: 200, b: 200, a: FULL },
                outline_thickness: 2000,
            },
        );
        assert(ops(out@) =~= self.drawn());
        out
    }
}

impl Widget for SliderWidget {
    open spec fn kind() -> WidgetKind {
        WidgetKind::Slider
    }

    open spec fn erased(self) -> WidgetNode {
        WidgetNode::Slider(self)
    }

    fn id(&self) -> (r: usize) {
        self.id
    }

    fn bounds(&self) -> (r: Rect) {
        self.bounds
    }

    fn set_bounds(&mut self, bounds: Rect) {
        if bounds != self.bounds {
            self.bounds = bounds;
            self.dirty = true;
        }
    }

    fn update(&mut self, mouse: &MouseState) {
        let grabbed = mouse.left_just_pressed && self.bounds.contains(mouse.x, mouse.y);
        let dragging = !mouse.left_just_released && (grabbed || self.is_dragging);
        let value = if dragging {
            fraction_of(mouse.x, self.bounds.x, self.bounds.w)
        } else {
            self.value
        };
        if dragging != self.is_dragging || value != self.value {
            self.dirty = true;
        }
        self.is_dragging = dragging;
        self.value = value;
    }

    fn layout(&mut self, metrics: &WidgetMetrics) {
    }

    fn render(&self, metrics: &WidgetMetrics) -> (r: Vec<DrawCommand>) {
        self.draw()
    }

    fn probe(&self) -> (r: MeasureRequest) {
        MeasureRequest { font: None, text: String::new() }
    }

    fn is_dirty(&self) -> (r: bool) {
        self.dirty
    }

    fn clear_dirty(&mut self) {
        self.dirty = false;
    }

    fn downcast(node: &WidgetNode) -> (r: Option<&Self>) {
        match node {
            WidgetNode::Slider(w) => Some(w),
            _ => None,
        }
    }

    fn downcast_mut(node: &mut WidgetNode) -> (r: Option<&mut Self>) {
        match node {
            WidgetNode::Slider(w) => Some(w),
            _ => None,
        }
    }
}

} // verus!
