//! What application code holds while it sets up and updates an interface:
//! the pointer, a scene to draw into, and the wish to leave.
use vstd::prelude::*;
use crate::geometry::Color;
use crate::input::MouseState;
use crate::scene::{ops, DrawOp, FontId, Scene};

verus! {

/// The context of an application that draws for itself, call by call.
pub struct Ctx {
    /// The draw calls of this frame, for the renderer to carry out.
    pub scene: Scene,
    pub mouse: MouseState,
    /// Whether the application has asked to end.
    pub exit: bool,
}

impl Ctx {
    /// A context with an empty scene and the pointer at rest.
    pub fn new() -> (c: Ctx)
        ensures
            c.scene.commands@.len() == 0,
            c.scene.dirty,
            c.mouse == MouseState::at_rest(),
            !c.exit,
    {
        Ctx { scene: Scene::new(), mouse: MouseState::default(), exit: false }
    }

    /// Asks for the application to end.
    pub fn exit(&mut self)
        ensures
            *final(self) == (Ctx { exit: true, ..*old(self) }),
    {
        self.exit = true;
    }

    /// Whether `next` is this context after it drew `op`.
    pub open spec fn drew(&self, next: Ctx, op: DrawOp) -> bool {
        &&& ops(next.scene.commands@) == ops(self.scene.commands@).push(op)
        &&& next.scene.dirty
        &&& next.mouse == self.mouse
        &&& next.exit == self.exit
    }

    /// Draws a rectangle.
    pub fn rect(
        &mut self,
        x: i32,
        y: i32,
        w: i32,
        h: i32,
        color: Color,
        outline_color: Color,
        outline_thickness: i32,
    )
        ensures
            old(self).drew(
                *final(self),
                DrawOp::Rect { x, y, w, h, color, outline_color, outline_thickness },
            ),
    {
        self.scene.rect(x, y, w, h, color, outline_color, outline_thickness);
    }

    /// Draws a circle.
    pub fn circle(
        &mut self,
        cx: i32,
        cy: i32,
        radius: i32,
        color: Color,
        outline_color: Color,
        outline_thickness: i32,
    )
        ensures
            old(self).drew(
                *final(self),
                DrawOp::Circle { cx, cy, radius, color, outline_color, outline_thickness },
            ),
    {
        self.scene.circle(cx, cy, radius, color, outline_color, outline_thickness);
    }

    /// Draws a rectangle with rounded corners.
    pub fn rounded_rect(
        &mut self,
        x: i32,
        y: i32,
        w: i32,
        h: i32,
        radius: i32,
        color: Color,
        outline_color: Color,
        outline_thickness: i32,
    )
        ensures
            old(self).drew(
                *final(self),
                DrawOp::RoundedRect { x, y, w, h, radius, color, outline_color, outline_thickness },
            ),
    {
        self.scene.rounded_rect(x, y, w, h, radius, color, outline_color, outline_thickness);
    }

    /// Draws a line of text in the font `font_id`.
    pub fn text(&mut self, text: &str, font_id: FontId, x: i32, y: i32)
        ensures
            old(self).drew(*final(self), DrawOp::Text { text: text@, font: Some(font_id), x, y }),
    {
        self.scene.text(text, Some(font_id), x, y);
    }
}

} // verus!
