//! Widgets, the interface they share, and the store that owns them.
use vstd::prelude::*;
use std::marker::PhantomData;
use crate::geometry::Rect;
use crate::input::MouseState;
use crate::keys::EditKey;
use crate::scene::{DrawCommand, DrawOp, FontId, TextExtent, ops};
use crate::widgets::button::ButtonWidget;
use crate::widgets::slider::SliderWidget;
use crate::widgets::text_input::TextInputWidget;

pub mod button;
pub mod manager;
pub mod slider;
pub mod text_input;

verus! {

/// What the host has measured for one widget before layout and rendering:
/// the extent of the text that the widget asked to have measured, and the
/// extent of the reference glyph in the widget's font.
#[derive(Clone, Copy, Debug, PartialEq, Eq, Structural)]
pub struct WidgetMetrics {
    pub probe: TextExtent,
    pub glyph: TextExtent,
}

/// A piece of text for the host to measure in a font; without a font, in
/// the default font.
#[derive(Clone, Debug, PartialEq, Eq)]
pub struct MeasureRequest {
    pub font: Option<FontId>,
    pub text: String,
}

/// The kinds of widget that the store keeps.
#[derive(Clone, Copy, Debug, PartialEq, Eq, Structural)]
pub enum WidgetKind {
    Button,
    Slider,
    TextInput,
}

/// A widget as the store keeps it: one of the kinds, tagged.
pub enum WidgetNode {
    Button(ButtonWidget),
    Slider(SliderWidget),
    TextInput(TextInputWidget),
}

impl WidgetNode {
    /// The kind of the widget.
    pub open spec fn kind(self) -> WidgetKind {
        match self {
            WidgetNode::Button(_) => WidgetKind::Button,
            WidgetNode::Slider(_) => WidgetKind::Slider,
            WidgetNode::TextInput(_) => WidgetKind::TextInput,
        }
    }

    /// The invariant of the widget's own kind.
    pub open spec fn wf(self) -> bool {
        match self {
            WidgetNode::Button(_) => true,
            WidgetNode::Slider(w) => w.wf(),
            WidgetNode::TextInput(w) => w.wf(),
        }
    }

    /// The identity of the widget.
    pub open spec fn id(self) -> usize {
        match self {
            WidgetNode::Button(w) => w.id,
            WidgetNode::Slider(w) => w.id,
            WidgetNode::TextInput(w) => w.id,
        }
    }

    /// The bounds of the widget.
    pub open spec fn bounds(self) -> Rect {
        match self {
            WidgetNode::Button(w) => w.bounds,
            WidgetNode::Slider(w) => w.bounds,
            WidgetNode::TextInput(w) => w.bounds,
        }
    }

    /// Whether the widget has changed visibly since its flag was last cleared.
    pub open spec fn dirty(self) -> bool {
        match self {
            WidgetNode::Button(w) => w.dirty,
            WidgetNode::Slider(w) => w.dirty,
            WidgetNode::TextInput(w) => w.dirty,
        }
    }

    /// Whether the widget is a text input that has the focus.
    pub open spec fn focused(self) -> bool {
        match self {
            WidgetNode::TextInput(w) => w.focused,
            _ => false,
        }
    }

    /// The widget with its dirty flag set to `dirty`.
    pub open spec fn with_dirty(self, dirty: bool) -> WidgetNode {
        match self {
            WidgetNode::Button(w) => WidgetNode::Button(ButtonWidget { dirty, ..w }),
            WidgetNode::Slider(w) => WidgetNode::Slider(SliderWidget { dirty, ..w }),
            WidgetNode::TextInput(w) => WidgetNode::TextInput(TextInputWidget { dirty, ..w }),
        }
    }

    /// The widget with its dirty flag cleared.
    pub open spec fn cleaned(self) -> WidgetNode {
        self.with_dirty(false)
    }

    /// The widget with the bounds `bounds` and the dirty flag `dirty`, and
    /// nothing else changed.
    pub open spec fn placed_at(self, bounds: Rect, dirty: bool) -> WidgetNode {
        match self {
            WidgetNode::Button(w) => WidgetNode::Button(ButtonWidget { bounds, dirty, ..w }),
            WidgetNode::Slider(w) => WidgetNode::Slider(SliderWidget { bounds, dirty, ..w }),
            WidgetNode::TextInput(w) => WidgetNode::TextInput(
                TextInputWidget { bounds, dirty, ..w },
            ),
        }
    }

    /// The widget with the bounds `bounds`, dirty if they are new.
    pub open spec fn with_bounds(self, bounds: Rect) -> WidgetNode {
        if bounds == self.bounds() {
            self
        } else {
            self.placed_at(bounds, true)
        }
    }

    /// The widget after a frame with the pointer in state `mouse`, where
    /// `admitted` says whether a press of the left button is meant for this
    /// widget. Only a text input asks.
    pub open spec fn routed(self, mouse: MouseState, admitted: bool) -> WidgetNode {
        match self {
            WidgetNode::Button(w) => WidgetNode::Button(w.updated(mouse)),
            WidgetNode::Slider(w) => WidgetNode::Slider(w.updated(mouse)),
            WidgetNode::TextInput(w) => WidgetNode::TextInput(w.routed(mouse, admitted)),
        }
    }

    /// The widget, on its own, after a frame with the pointer in state
    /// `mouse`: a press is meant for it exactly if it lands in its bounds.
    pub open spec fn updated(self, mouse: MouseState) -> WidgetNode {
        match self {
            WidgetNode::Button(w) => WidgetNode::Button(w.updated(mouse)),
            WidgetNode::Slider(w) => WidgetNode::Slider(w.updated(mouse)),
            WidgetNode::TextInput(w) => WidgetNode::TextInput(w.updated(mouse)),
        }
    }

    /// Whether `dt` more milliseconds make the caret of the widget show or
    /// hide.
    pub open spec fn blinks(self, dt: u32) -> bool {
        match self {
            WidgetNode::TextInput(w) => w.blinks(dt),
            _ => false,
        }
    }

    /// The widget `dt` milliseconds later.
    pub open spec fn ticked(self, dt: u32) -> WidgetNode {
        match self {
            WidgetNode::TextInput(w) => WidgetNode::TextInput(w.ticked(dt)),
            _ => self,
        }
    }

    /// The widget after layout with the measurements `metrics`.
    pub open spec fn laid_out(self, metrics: WidgetMetrics) -> WidgetNode {
        match self {
            WidgetNode::Button(w) => WidgetNode::Button(w.laid_out(metrics)),
            _ => self,
        }
    }

    /// Whether the widget can be rendered: a text input needs a font.
    pub open spec fn drawable(self) -> bool {
        match self {
            WidgetNode::TextInput(w) => w.font is Some,
            _ => true,
        }
    }

    /// What the widget draws, given the measurements `metrics`.
    pub open spec fn drawn(self, metrics: WidgetMetrics) -> Seq<DrawOp> {
        match self {
            WidgetNode::Button(w) => w.drawn(metrics),
            WidgetNode::Slider(w) => w.drawn(),
            WidgetNode::TextInput(w) => w.drawn(metrics),
        }
    }

    /// `next` is the widget after `c` was typed: a text input with the
    /// focus takes the character, every other widget stays as it is.
    pub open spec fn typed(self, next: WidgetNode, c: char) -> bool {
        match self {
            WidgetNode::TextInput(w) if w.focused => next matches WidgetNode::TextInput(n)
                && w.inserted(n, c),
            _ => next == self,
        }
    }

    /// `next` is the widget after the editing key `key`: a text input with
    /// the focus carries it out, every other widget stays as it is.
    pub open spec fn keyed(self, next: WidgetNode, key: EditKey) -> bool {
        match self {
            WidgetNode::TextInput(w) if w.focused => next matches WidgetNode::TextInput(n)
                && w.keyed(n, key),
            _ => next == self,
        }
    }

    /// An update keeps a widget's identity, kind, bounds and invariant.
    pub proof fn lemma_routed_keeps(self, mouse: MouseState, admitted: bool)
        requires
            self.wf(),
        ensures
            self.routed(mouse, admitted).wf(),
            self.routed(mouse, admitted).id() == self.id(),
            self.routed(mouse, admitted).kind() == self.kind(),
            self.routed(mouse, admitted).bounds() == self.bounds(),
    {
        match self {
            WidgetNode::Slider(w) => {
                crate::geometry::lemma_fraction_range(
                    mouse.x as int,
                    w.bounds.x as int,
                    w.bounds.w as int,
                );
            },
            _ => {},
        }
    }

    /// A widget that is clean once updated draws what it drew before: an
    /// update changes nothing visible without marking the widget dirty.
    pub proof fn lemma_clean_update_draws_same(
        self,
        mouse: MouseState,
        admitted: bool,
        metrics: WidgetMetrics,
    )
        requires
            !self.routed(mouse, admitted).dirty(),
        ensures
            self.routed(mouse, admitted).cleaned().drawn(metrics) == self.drawn(metrics),
    {
    }

    /// Clearing the dirty flag changes nothing that is drawn.
    pub proof fn lemma_cleaned_draws_same(self, metrics: WidgetMetrics)
        ensures
            self.cleaned().drawn(metrics) == self.drawn(metrics),
    {
    }

    /// An update leaves a dirty widget dirty.
    pub proof fn lemma_update_keeps_dirty(self, mouse: MouseState, admitted: bool)
        requires
            self.dirty(),
        ensures
            self.routed(mouse, admitted).dirty(),
    {
    }

    /// After a frame in which the left button went down, exactly the text
    /// input for which the press was meant has the focus; after any other
    /// frame, those that had it before.
    pub proof fn lemma_update_focus(self, mouse: MouseState, admitted: bool)
        ensures
            self.routed(mouse, admitted).cleaned().focused() == if mouse.left_just_pressed {
                self is TextInput && admitted
            } else {
                self.focused()
            },
    {
    }

    /// Typing and editing keys move no focus and keep a text input's
    /// invariant.
    pub proof fn lemma_edit_keeps(self, next: WidgetNode, c: char, key: EditKey)
        requires
            self.wf(),
            self.typed(next, c) || self.keyed(next, key),
        ensures
            next.wf(),
            next.focused() == self.focused(),
            next.id() == self.id(),
            next.kind() == self.kind(),
            next.bounds() == self.bounds(),
    {
        match self {
            WidgetNode::TextInput(w) => {
                if w.focused {
                    let n = next->TextInput_0;
                    if self.typed(next, c) {
                        w.lemma_inserted_keeps_boundary(n, c);
                    }
                    if self.keyed(next, key) {
                        w.lemma_keyed_keeps_boundary(n, key);
                    }
                }
            },
            _ => {},
        }
    }

    /// The font in which the widget's text is measured.
    pub open spec fn probe_font(self) -> Option<FontId> {
        match self {
            WidgetNode::Button(w) => w.font,
            WidgetNode::Slider(_) => None,
            WidgetNode::TextInput(w) => w.font,
        }
    }

    /// The text whose extent the widget needs for layout and rendering: the
    /// label of a button, the part of a text input's buffer before the
    /// cursor, nothing for a slider.
    pub open spec fn probe_text(self) -> Seq<char> {
        match self {
            WidgetNode::Button(w) => w.text@,
            WidgetNode::Slider(_) => Seq::empty(),
            WidgetNode::TextInput(w) => w.before_cursor(),
        }
    }
}

/// Whether `after` holds the widgets of `before`, each of its kind and as
/// fit to be drawn as before. No pass over the store changes that, so
/// handles stay good and a store that could be drawn still can.
pub open spec fn same_kinds(before: Seq<WidgetNode>, after: Seq<WidgetNode>) -> bool {
    &&& after.len() == before.len()
    &&& forall|i: int|
        0 <= i < before.len() ==> (#[trigger] after[i]).kind() == before[i].kind()
            && after[i].drawable() == before[i].drawable()
}

/// The interface of every kind of widget: a fixed identity, bounds, an
/// update from the pointer once per frame, layout and rendering from
/// measured text, a dirty flag, and the way back from a stored widget to its
/// own type. Every contract says what the method does to the widget as the
/// store keeps it.
pub trait Widget: Sized {
    /// The kind of this type of widget.
    spec fn kind() -> WidgetKind;

    /// This widget as the store keeps it.
    spec fn erased(self) -> WidgetNode;

    fn id(&self) -> (r: usize)
        ensures
            r == self.erased().id(),
    ;

    fn bounds(&self) -> (r: Rect)
        ensures
            r == self.erased().bounds(),
    ;

    /// Gives the widget new bounds, and marks it dirty if they differ from
    /// the old.
    fn set_bounds(&mut self, bounds: Rect)
        ensures
            final(self).erased() == old(self).erased().with_bounds(bounds),
    ;

    /// Brings the widget up to date with the pointer, on its own: a press
    /// in the bounds of a text input is taken to be meant for it. Among the
    /// widgets of a store, the store decides for which text input a press is
    /// meant.
    fn update(&mut self, mouse: &MouseState)
        ensures
            final(self).erased() == old(self).erased().updated(*mouse),
    ;

    /// Sizes the widget from measured text. Called once per frame before
    /// rendering.
    fn layout(&mut self, metrics: &WidgetMetrics)
        ensures
            final(self).erased() == old(self).erased().laid_out(*metrics),
    ;

    /// The draw commands of the widget, back to front.
    fn render(&self, metrics: &WidgetMetrics) -> (r: Vec<DrawCommand>)
        requires
            self.erased().drawable(),
        ensures
            ops(r@) == self.erased().drawn(*metrics),
    ;

    /// What the host has to measure for `layout` and `render`.
    fn probe(&self) -> (r: MeasureRequest)
        requires
            self.erased().wf(),
        ensures
            r.font == self.erased().probe_font(),
            r.text@ == self.erased().probe_text(),
    ;

    /// Whether the widget has changed visibly since its flag was last
    /// cleared.
    fn is_dirty(&self) -> (r: bool)
        ensures
            r == self.erased().dirty(),
    ;

    fn clear_dirty(&mut self)
        ensures
            final(self).erased() == old(self).erased().cleaned(),
    ;

    /// The widget in `node`, if it is of this type.
    fn downcast(node: &WidgetNode) -> (r: Option<&Self>)
        ensures
            r is Some <==> node.kind() == Self::kind(),
            r matches Some(w) ==> w.erased() == *node,
    ;

    /// The widget in `node`, if it is of this type, to be changed in place.
    /// Whatever is done to it, the node keeps its kind.
    fn downcast_mut(node: &mut WidgetNode) -> (r: Option<&mut Self>)
        ensures
            r is Some <==> old(node).kind() == Self::kind(),
            r matches Some(w) ==> w.erased() == *old(node) && *final(node) == final(w).erased(),
            r is None ==> *final(node) == *old(node),
            final(node).kind() == old(node).kind(),
    ;
}

/// A reference to a widget in the store, by its identity, that remembers
/// the widget's type. The store checks the type again on every access.
#[derive(Debug)]
pub struct WidgetHandle<T: Widget> {
    pub id: usize,
    pub marker: PhantomData<T>,
}

impl<T: Widget> Copy for WidgetHandle<T> {

}

impl<T: Widget> Clone for WidgetHandle<T> {
    fn clone(&self) -> (r: Self)
        ensures
            r == *self,
    {
        *self
    }
}

impl<T: Widget> WidgetHandle<T> {
    /// The handle of the widget with identity `id`.
    pub fn new(id: usize) -> (h: Self)
        ensures
            h.id == id,
    {
        WidgetHandle { id, marker: PhantomData }
    }

    /// The identity of the widget.
    pub fn id(&self) -> (r: usize)
        ensures
            r == self.id,
    {
        self.id
    }

    /// Whether two handles refer to the same widget.
    pub fn same(&self, other: &Self) -> (r: bool)
        ensures
            r == (self.id == other.id),
    {
        self.id == other.id
    }
}

} // verus!
