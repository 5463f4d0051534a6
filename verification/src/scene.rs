//! Draw commands, and the scene that keeps them between frames.
use vstd::prelude::*;
use crate::geometry::Color;

verus! {

/// The identifier under which the host keeps a font.
#[derive(Clone, Copy, Debug, PartialEq, Eq, Structural)]
pub struct FontId(pub usize);

/// The measured size of a piece of text.
#[derive(Clone, Copy, Debug, PartialEq, Eq, Structural)]
pub struct TextExtent {
    pub w: i32,
    pub h: i32,
}

/// One primitive for the renderer to draw. Text without a font is drawn in
/// the renderer's default font.
#[derive(Clone, Debug, PartialEq, Eq)]
pub enum DrawCommand {
    Rect { x: i32, y: i32, w: i32, h: i32, color: Color, outline_color: Color, outline_thickness: i32 },
    Circle { cx: i32, cy: i32, radius: i32, color: Color, outline_color: Color, outline_thickness: i32 },
    RoundedRect {
        x: i32,
        y: i32,
        w: i32,
        h: i32,
        radius: i32,
        color: Color,
        outline_color: Color,
        outline_thickness: i32,
    },
    Text { text: String, font: Option<FontId>, x: i32, y: i32 },
}

/// What a draw command says, with its text as a sequence of characters.
pub enum DrawOp {
    Rect { x: i32, y: i32, w: i32, h: i32, color: Color, outline_color: Color, outline_thickness: i32 },
    Circle { cx: i32, cy: i32, radius: i32, color: Color, outline_color: Color, outline_thickness: i32 },
    RoundedRect {
        x: i32,
        y: i32,
        w: i32,
        h: i32,
        radius: i32,
        color: Color,
        outline_color: Color,
        outline_thickness: i32,
    },
    Text { text: Seq<char>, font: Option<FontId>, x: i32, y: i32 },
}

impl View for DrawCommand {
    type V = DrawOp;

    open spec fn view(&self) -> DrawOp {
        match *self {
            DrawCommand::Rect { x, y, w, h, color, outline_color, outline_thickness } => DrawOp::Rect {
                x,
                y,
                w,
                h,
                color,
                outline_color,
                outline_thickness,
            },
            DrawCommand::Circle {
                cx,
                cy,
                radius,
                color,
                outline_color,
                outline_thickness,
            } => DrawOp::Circle { cx, cy, radius, color, outline_color, outline_thickness },
            DrawCommand::RoundedRect {
                x,
                y,
                w,
                h,
                radius,
                color,
                outline_color,
                outline_thickness,
            } => DrawOp::RoundedRect { x, y, w, h, radius, color, outline_color, outline_thickness },
            DrawCommand::Text { text, font, x, y } => DrawOp::Text { text: text@, font, x, y },
        }
    }
}

/// What a list of draw commands says, in order.
pub open spec fn ops(commands: Seq<DrawCommand>) -> Seq<DrawOp> {
    commands.map_values(|c: DrawCommand| c@)
}

/// Adding a command to a list adds what it says.
pub proof fn lemma_ops_push(commands: Seq<DrawCommand>, c: DrawCommand)
    ensures
        ops(commands.push(c)) == ops(commands).push(c@),
{
    assert(ops(commands.push(c)) =~= ops(commands).push(c@));
}

/// Joining two lists joins what they say.
pub proof fn lemma_ops_add(a: Seq<DrawCommand>, b: Seq<DrawCommand>)
    ensures
        ops(a + b) == ops(a) + ops(b),
{
    assert(ops(a + b) =~= ops(a) + ops(b));
}

/// The draw commands of one frame, kept until something changes. The dirty
/// flag says that the scene has changed since it was last drawn.
pub struct Scene {
    pub commands: Vec<DrawCommand>,
    pub dirty: bool,
}

impl Scene {
    /// An empty scene, dirty so that the first frame is drawn.
    pub fn new() -> (s: Scene)
        ensures
            s.commands@.len() == 0,
            s.dirty,
    {
        Scene { commands: Vec::new(), dirty: true }
    }

    /// Adds a rectangle.
    pub fn rect(
        &mut self,
        x: i32,
        y: i32,
        w: i32,
        h: i32,
        color: Color,
        outline_color: Color,
        outline_thickness: i32,
    )
        ensures
            ops(final(self).commands@) == ops(old(self).commands@).push(
                DrawOp::Rect { x, y, w, h, color, outline_color, outline_thickness },
            ),
            final(self).dirty,
    {
        let c = DrawCommand::Rect { x, y, w, h, color, outline_color, outline_thickness };
        proof {
            lemma_ops_push(self.commands@, c);
        }
        self.commands.push(c);
        self.dirty = true;
    }

    /// Adds a circle.
    pub fn circle(
        &mut self,
        cx: i32,
        cy: i32,
        radius: i32,
        color: Color,
        outline_color: Color,
        outline_thickness: i32,
    )
        ensures
            ops(final(self).commands@) == ops(old(self).commands@).push(
                DrawOp::Circle { cx, cy, radius, color, outline_color, outline_thickness },
            ),
            final(self).dirty,
    {
        let c = DrawCommand::Circle { cx, cy, radius, color, outline_color, outline_thickness };
        proof {
            lemma_ops_push(self.commands@, c);
        }
        self.commands.push(c);
        self.dirty = true;
    }

    /// Adds a rectangle with rounded corners.
    pub fn rounded_rect(
        &mut self,
        x: i32,
        y: i32,
        w: i32,
        h: i32,
        radius: i32,
        color: Color,
        outline_color: Color,
        outline_thickness: i32,
    )
        ensures
            ops(final(self).commands@) == ops(old(self).commands@).push(
                DrawOp::RoundedRect { x, y, w, h, radius, color, outline_color, outline_thickness },
            ),
            final(self).dirty,
    {
        let c = DrawCommand::RoundedRect {
            x,
            y,
            w,
            h,
            radius,
            color,
            outline_color,
            outline_thickness,
        };
        proof {
            lemma_ops_push(self.commands@, c);
        }
        self.commands.push(c);
        self.dirty = true;
    }

    /// Adds a line of text with its top left corner at `(x, y)`.
    pub fn text(&mut self, text: &str, font: Option<FontId>, x: i32, y: i32)
        ensures
            ops(final(self).commands@) == ops(old(self).commands@).push(
                DrawOp::Text { text: text@, font, x, y },
            ),
            final(self).dirty,
    {
        let c = DrawCommand::Text { text: text.to_owned(), font, x, y };
        proof {
            lemma_ops_push(self.commands@, c);
        }
        self.commands.push(c);
        self.dirty = true;
    }

    /// Removes every command.
    pub fn clear(&mut self)
        ensures
            final(self).commands@.len() == 0,
            final(self).dirty,
    {
        self.commands.clear();
        self.dirty = true;
    }

    /// The commands in the order in which they were added.
    pub fn commands(&self) -> (r: &[DrawCommand])
        ensures
            r@ == self.commands@,
    {
        self.commands.as_slice()
    }

    /// Whether the scene has changed since it was last marked clean.
    pub fn is_dirty(&self) -> (r: bool)
        ensures
            r == self.dirty,
    {
        self.dirty
    }

    /// Records that the scene has been drawn.
    pub fn mark_clean(&mut self)
        ensures
            !final(self).dirty,
            final(self).commands == old(self).commands,
    {
        self.dirty = false;
    }

    /// Asks for the scene to be drawn again.
    pub fn mark_dirty(&mut self)
        ensures
            final(self).dirty,
            final(self).commands == old(self).commands,
    {
        self.dirty = true;
    }
}

impl Default for Scene {
    fn default() -> (s: Scene)
        ensures
            s.commands@.len() == 0,
            s.dirty,
    {
        Scene::new()
    }
}

} // verus!
