//! The drawing surface of one frame: a scene to draw into, with the size of
//! the window and the state of the pointer.
use vstd::prelude::*;
use crate::geometry::Color;
use crate::input::MouseState;
use crate::scene::{ops, DrawOp, Scene};

verus! {

/// The drawing surface that application code gets for one frame.
pub struct Canvas<'a> {
    pub scene: &'a mut Scene,
    pub width: i32,
    pub height: i32,
    /// Physical pixels per logical pixel, in thousandths.
    pub scale_factor: i32,
    pub mouse: MouseState,
}

impl<'a> Canvas<'a> {
    /// What the canvas has drawn so far.
    pub open spec fn drawn(&self) -> Seq<DrawOp> {
        ops(self.scene.commands@)
    }

    /// Whether `next` is this canvas after it drew `op`: the scene has `op`
    /// as its last command and is dirty, and nothing else has changed.
    pub open spec fn drew(&self, next: &Canvas<'a>, op: DrawOp) -> bool {
        &&& next.drawn() == self.drawn().push(op)
        &&& next.scene.dirty
        &&& next.width == self.width
        &&& next.height == self.height
        &&& next.scale_factor == self.scale_factor
        &&& next.mouse == self.mouse
    }

    /// Draws a rectangle.
    pub fn rect(
        &mut self,
        x: i32,
        y: i32,
        w: i32,
        h: i32,
        color: Color,
        outline_color: Color,
        outline_thickness: i32,
    )
        ensures
            old(self).drew(
                final(self),
                DrawOp::Rect { x, y, w, h, color, outline_color, outline_thickness },
            ),
    {
        self.scene.rect(x, y, w, h, color, outline_color, outline_thickness);
    }

    /// Draws a circle.
    pub fn circle(
        &mut self,
        cx: i32,
        cy: i32,
        radius: i32,
        color: Color,
        outline_color: Color,
        outline_thickness: i32,
    )
        ensures
            old(self).drew(
                final(self),
                DrawOp::Circle { cx, cy, radius, color, outline_color, outline_thickness },
            ),
    {
        self.scene.circle(cx, cy, radius, color, outline_color, outline_thickness);
    }

    /// Draws a rectangle with rounded corners.
    pub fn rounded_rect(
        &mut self,
        x: i32,
        y: i32,
        w: i32,
        h: i32,
        radius: i32,
        color: Color,
        outline_color: Color,
        outline_thickness: i32,
    )
        ensures
            old(self).drew(
                final(self),
                DrawOp::RoundedRect { x, y, w, h, radius, color, outline_color, outline_thickness },
            ),
    {
        self.scene.rounded_rect(x, y, w, h, radius, color, outline_color, outline_thickness);
    }

    /// Draws a line of text in the default font.
    pub fn text(&mut self, text: &str, x: i32, y: i32)
        ensures
            old(self).drew(final(self), DrawOp::Text { text: text@, font: None, x, y }),
    {
        self.scene.text(text, None, x, y);
    }
}

} // verus!
