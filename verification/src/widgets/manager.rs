//! The store that owns every widget. Widgets are created through it and
//! never removed, so the identity of a widget is its place in the store;
//! later widgets are drawn over earlier ones.
use vstd::prelude::*;
use winit::keyboard::KeyCode;
use crate::geometry::Rect;
use crate::input::MouseState;
use crate::keys::{classify, edit_key_of, EditKey};
use crate::scene::{lemma_ops_add, ops, DrawCommand, DrawOp};
use crate::widgets::button::ButtonWidget;
use crate::widgets::slider::SliderWidget;
use crate::widgets::text_input::TextInputWidget;
use crate::widgets::{
    same_kinds, MeasureRequest, Widget, WidgetHandle, WidgetMetrics, WidgetNode,
};

verus! {

/// Why a handle led to no widget.
#[derive(Clone, Copy, Debug, PartialEq, Eq, Structural)]
pub enum LookupError {
    /// The store holds no widget with the handle's identity.
    NotFound,
    /// The widget with the handle's identity is of another type.
    TypeMismatch,
}

/// Whether the widget at `i` is a text input with the point `(x, y)` in its
/// bounds.
pub open spec fn input_under(nodes: Seq<WidgetNode>, i: int, x: int, y: int) -> bool {
    0 <= i < nodes.len() && nodes[i] is TextInput && nodes[i].bounds().holds(x, y)
}

/// Whether a press at `(x, y)` is meant for the widget at `i`: whether it is
/// the last text input in the store with the point in its bounds, the one
/// that is drawn on top there. A press is meant for one widget at most.
pub open spec fn takes_press(nodes: Seq<WidgetNode>, i: int, x: int, y: int) -> bool {
    &&& input_under(nodes, i, x, y)
    &&& forall|j: int| i < j < nodes.len() ==> !input_under(nodes, j, x, y)
}

/// The widget at `i` after a frame with the pointer in state `mouse`,
/// before its dirty flag is cleared.
pub open spec fn refreshed(nodes: Seq<WidgetNode>, i: int, mouse: MouseState) -> WidgetNode {
    nodes[i].routed(mouse, takes_press(nodes, i, mouse.x as int, mouse.y as int))
}

/// The widgets after a frame with the pointer in state `mouse`: each one
/// updated, with its dirty flag read and cleared. Where the left button went
/// down, the text input on top under the pointer has the focus and no other.
pub open spec fn all_updated(nodes: Seq<WidgetNode>, mouse: MouseState) -> Seq<WidgetNode> {
    Seq::new(nodes.len(), |i: int| refreshed(nodes, i, mouse).cleaned())
}

/// Whether at most one widget is a text input with the focus.
pub open spec fn focus_exclusive(nodes: Seq<WidgetNode>) -> bool {
    forall|i: int, j: int|
        0 <= i < nodes.len() && 0 <= j < nodes.len() && (#[trigger] nodes[i]).focused()
            && (#[trigger] nodes[j]).focused() ==> i == j
}

/// The widgets after layout, each sized from its own measurements.
pub open spec fn all_fitted(nodes: Seq<WidgetNode>, metrics: Seq<WidgetMetrics>) -> Seq<
    WidgetNode,
> {
    Seq::new(nodes.len(), |i: int| nodes[i].laid_out(metrics[i]))
}

/// The widgets with the dirty flag of each cleared.
pub open spec fn all_cleaned(nodes: Seq<WidgetNode>) -> Seq<WidgetNode> {
    nodes.map_values(|n: WidgetNode| n.cleaned())
}

/// The widgets `dt` milliseconds later: the caret of every text input has
/// blinked on.
pub open spec fn all_ticked(nodes: Seq<WidgetNode>, dt: u32) -> Seq<WidgetNode> {
    nodes.map_values(|n: WidgetNode| n.ticked(dt))
}

/// Whether `dt` more milliseconds make some caret show or hide.
pub open spec fn any_blinks(nodes: Seq<WidgetNode>, dt: u32) -> bool {
    exists|i: int| 0 <= i < nodes.len() && (#[trigger] nodes[i]).blinks(dt)
}

/// Whether some widget is dirty once it is updated: it was dirty before, or
/// the pointer made it change.
pub open spec fn any_reports(nodes: Seq<WidgetNode>, mouse: MouseState) -> bool {
    exists|i: int| 0 <= i < nodes.len() && (#[trigger] refreshed(nodes, i, mouse)).dirty()
}

/// Whether some widget is a text input with the focus.
pub open spec fn any_focused(nodes: Seq<WidgetNode>) -> bool {
    exists|i: int| 0 <= i < nodes.len() && (#[trigger] nodes[i]).focused()
}

/// What the widgets draw, in the order of the store, each with its own
/// measurements.
pub open spec fn draw_list(nodes: Seq<WidgetNode>, metrics: Seq<WidgetMetrics>) -> Seq<DrawOp>
    decreases nodes.len(),
{
    if nodes.len() == 0 || metrics.len() != nodes.len() {
        Seq::empty()
    } else {
        draw_list(nodes.drop_last(), metrics.drop_last()) + nodes.last().drawn(metrics.last())
    }
}

fn update_node(node: &mut WidgetNode, mouse: &MouseState, admitted: bool)
    ensures
        *final(node) == old(node).routed(*mouse, admitted),
{
    match node {
        WidgetNode::Button(w) => w.update(mouse),
        WidgetNode::Slider(w) => w.update(mouse),
        WidgetNode::TextInput(w) => w.route(mouse, admitted),
    }
}

fn node_is_input_under(node: &WidgetNode, x: i32, y: i32) -> (r: bool)
    ensures
        r == (node is TextInput && node.bounds().holds(x as int, y as int)),
{
    match node {
        WidgetNode::TextInput(w) => w.bounds.contains(x, y),
        _ => false,
    }
}

fn node_bounds(node: &WidgetNode) -> (r: Rect)
    ensures
        r == node.bounds(),
{
    match node {
        WidgetNode::Button(w) => w.bounds(),
        WidgetNode::Slider(w) => w.bounds(),
        WidgetNode::TextInput(w) => w.bounds(),
    }
}

fn set_node_bounds(node: &mut WidgetNode, bounds: Rect)
    ensures
        *final(node) == old(node).with_bounds(bounds),
{
    match node {
        WidgetNode::Button(w) => w.set_bounds(bounds),
        WidgetNode::Slider(w) => w.set_bounds(bounds),
        WidgetNode::TextInput(w) => w.set_bounds(bounds),
    }
}

fn node_id(node: &WidgetNode) -> (r: usize)
    ensures
        r == node.id(),
{
    match node {
        WidgetNode::Button(w) => w.id(),
        WidgetNode::Slider(w) => w.id(),
        WidgetNode::TextInput(w) => w.id(),
    }
}

fn node_is_wf(node: &WidgetNode) -> (r: bool)
    ensures
        r == node.wf(),
{
    match node {
        WidgetNode::Button(_) => true,
        WidgetNode::Slider(w) => w.is_wf(),
        WidgetNode::TextInput(w) => w.is_wf(),
    }
}

fn node_is_drawable(node: &WidgetNode) -> (r: bool)
    ensures
        r == node.drawable(),
{
    match node {
        WidgetNode::TextInput(w) => w.font.is_some(),
        _ => true,
    }
}

fn node_is_dirty(node: &WidgetNode) -> (r: bool)
    ensures
        r == node.dirty(),
{
    match node {
        WidgetNode::Button(w) => w.is_dirty(),
        WidgetNode::Slider(w) => w.is_dirty(),
        WidgetNode::TextInput(w) => w.is_dirty(),
    }
}

fn clear_node(node: &mut WidgetNode)
    ensures
        *final(node) == old(node).cleaned(),
{
    match node {
        WidgetNode::Button(w) => w.clear_dirty(),
        WidgetNode::Slider(w) => w.clear_dirty(),
        WidgetNode::TextInput(w) => w.clear_dirty(),
    }
}

fn layout_node(node: &mut WidgetNode, metrics: &WidgetMetrics)
    ensures
        *final(node) == old(node).laid_out(*metrics),
{
    match node {
        WidgetNode::Button(w) => w.layout(metrics),
        WidgetNode::Slider(w) => w.layout(metrics),
        WidgetNode::TextInput(w) => w.layout(metrics),
    }
}

fn render_node(node: &WidgetNode, metrics: &WidgetMetrics) -> (r: Vec<DrawCommand>)
    requires
        node.drawable(),
    ensures
        ops(r@) == node.drawn(*metrics),
{
    match node {
        WidgetNode::Button(w) => w.render(metrics),
        WidgetNode::Slider(w) => w.render(metrics),
        WidgetNode::TextInput(w) => w.render(metrics),
    }
}

fn probe_node(node: &WidgetNode) -> (r: MeasureRequest)
    requires
        node.wf(),
    ensures
        r.font == node.probe_font(),
        r.text@ == node.probe_text(),
{
    match node {
        WidgetNode::Button(w) => w.probe(),
        WidgetNode::Slider(w) => w.probe(),
        WidgetNode::TextInput(w) => w.probe(),
    }
}

/// The store of widgets.
pub struct WidgetManager {
    /// The widgets, in the order of their creation.
    pub widgets: Vec<WidgetNode>,
    /// The identity that the next widget gets.
    pub next_id: usize,
    /// Whether anything has changed since the flag was last taken.
    pub dirty: bool,
}

impl WidgetManager {
    /// Every widget stands at the place of its identity and is well formed.
    pub open spec fn wf(&self) -> bool {
        &&& self.next_id == self.widgets@.len()
        &&& forall|i: int|
            0 <= i < self.widgets@.len() ==> (#[trigger] self.widgets@[i]).id() == i
                && self.widgets@[i].wf()
    }

    /// Whether the store holds the widget of `handle`, with the handle's
    /// type.
    pub open spec fn holds<T: Widget>(&self, handle: WidgetHandle<T>) -> bool {
        &&& handle.id < self.widgets@.len()
        &&& self.widgets@[handle.id as int].kind() == T::kind()
    }

    /// Whether an update with the pointer in state `mouse` reports a
    /// change: a button of the pointer went down or came up, or some widget
    /// is dirty once updated.
    pub open spec fn changes(&self, mouse: MouseState) -> bool {
        mouse.button_edge() || any_reports(self.widgets@, mouse)
    }

    /// Dirty widgets reach the store: once a setter has marked a widget
    /// dirty, the next update reports a change and leaves the store dirty,
    /// so that `take_dirty` then returns true.
    pub proof fn lemma_setter_marks_store(&self, mouse: MouseState, i: int)
        requires
            0 <= i < self.widgets@.len(),
            self.widgets@[i].dirty(),
        ensures
            self.changes(mouse),
    {
        lemma_dirty_widget_reports(self.widgets@, mouse, i);
    }

    /// A quiet frame draws nothing new: while the store is clean, no button
    /// of the pointer goes down or comes up and no widget is dirty once
    /// updated, the update reports no change, the store stays clean, and a
    /// render pass after the update would draw what one before it drew.
    pub proof fn lemma_quiet_frame(&self, mouse: MouseState, metrics: Seq<WidgetMetrics>)
        requires
            !self.dirty,
            !mouse.button_edge(),
            !any_reports(self.widgets@, mouse),
        ensures
            !(self.dirty || self.changes(mouse)),
            draw_list(all_updated(self.widgets@, mouse), metrics) == draw_list(
                self.widgets@,
                metrics,
            ),
    {
        lemma_quiet_update_draws_same(self.widgets@, mouse, metrics);
    }

    /// Whether every widget can be rendered.
    pub open spec fn drawable(&self) -> bool {
        forall|i: int| 0 <= i < self.widgets@.len() ==> (#[trigger] self.widgets@[i]).drawable()
    }

    /// Whether the store is well formed. Code that Verus has not seen can
    /// ask this before it calls a function that needs a well formed store.
    pub fn is_wf(&self) -> (r: bool)
        ensures
            r == self.wf(),
    {
        if self.next_id != self.widgets.len() {
            return false;
        }
        let mut i: usize = 0;
        while i < self.widgets.len()
            invariant
                i <= self.widgets@.len(),
                forall|j: int|
                    0 <= j < i ==> (#[trigger] self.widgets@[j]).id() == j && self.widgets@[j].wf(),
            decreases self.widgets@.len() - i,
        {
            if node_id(&self.widgets[i]) != i || !node_is_wf(&self.widgets[i]) {
                return false;
            }
            i += 1;
        }
        true
    }

    /// Whether every widget can be rendered: whether every text input has
    /// a font.
    pub fn is_drawable(&self) -> (r: bool)
        ensures
            r == self.drawable(),
    {
        let mut i: usize = 0;
        while i < self.widgets.len()
            invariant
                i <= self.widgets@.len(),
                forall|j: int| 0 <= j < i ==> (#[trigger] self.widgets@[j]).drawable(),
            decreases self.widgets@.len() - i,
        {
            if !node_is_drawable(&self.widgets[i]) {
                return false;
            }
            i += 1;
        }
        true
    }

    /// An empty store, dirty so that the first frame is drawn.
    pub fn new() -> (s: WidgetManager)
        ensures
            s.wf(),
            s.widgets@.len() == 0,
            s.dirty,
    {
        WidgetManager { widgets: Vec::new(), next_id: 0, dirty: true }
    }

    /// The number of widgets.
    pub fn len(&self) -> (n: usize)
        ensures
            n == self.widgets@.len(),
    {
        self.widgets.len()
    }

    /// Creates a button with the label `text`.
    pub fn button(&mut self, text: &str) -> (h: WidgetHandle<ButtonWidget>)
        requires
            old(self).wf(),
        ensures
            final(self).wf(),
            final(self).holds(h),
            h.id == old(self).widgets@.len(),
            final(self).widgets@.len() == old(self).widgets@.len() + 1,
            final(self).widgets@.drop_last() == old(self).widgets@,
            final(self).widgets@.last() matches WidgetNode::Button(w) && w.fresh(h.id, text@),
            final(self).dirty,
    {
        let id = self.next_id;
        self.widgets.push(WidgetNode::Button(ButtonWidget::new(id, text)));
        self.next_id = self.widgets.len();
        self.dirty = true;
        assert(self.widgets@.drop_last() =~= old(self).widgets@);
        WidgetHandle::new(id)
    }

    /// Creates a slider.
    pub fn slider(&mut self) -> (h: WidgetHandle<SliderWidget>)
        requires
            old(self).wf(),
        ensures
            final(self).wf(),
            final(self).holds(h),
            h.id == old(self).widgets@.len(),
            final(self).widgets@ == old(self).widgets@.push(
                WidgetNode::Slider(SliderWidget::fresh(h.id)),
            ),
            final(self).dirty,
    {
        let id = self.next_id;
        self.widgets.push(WidgetNode::Slider(SliderWidget::new(id)));
        self.next_id = self.widgets.len();
        self.dirty = true;
        WidgetHandle::new(id)
    }

    /// Creates a text input.
    pub fn text_input(&mut self) -> (h: WidgetHandle<TextInputWidget>)
        requires
            old(self).wf(),
        ensures
            final(self).wf(),
            final(self).holds(h),
            h.id == old(self).widgets@.len(),
            final(self).widgets@.len() == old(self).widgets@.len() + 1,
            final(self).widgets@.drop_last() == old(self).widgets@,
            final(self).widgets@.last() matches WidgetNode::TextInput(w) && w.fresh(h.id),
            final(self).dirty,
    {
        let id = self.next_id;
        self.widgets.push(WidgetNode::TextInput(TextInputWidget::new(id)));
        self.next_id = self.widgets.len();
        self.dirty = true;
        assert(self.widgets@.drop_last() =~= old(self).widgets@);
        WidgetHandle::new(id)
    }

    /// The widget of `handle`, or why there is none.
    pub fn try_get<T: Widget>(&self, handle: WidgetHandle<T>) -> (r: Result<&T, LookupError>)
        ensures
            r is Ok <==> self.holds(handle),
            r matches Ok(w) ==> w.erased() == self.widgets@[handle.id as int],
            r matches Err(e) ==> (e == LookupError::NotFound <==> handle.id >= self.widgets@.len()),
    {
        if handle.id >= self.widgets.len() {
            return Err(LookupError::NotFound);
        }
        match T::downcast(&self.widgets[handle.id]) {
            Some(w) => Ok(w),
            None => Err(LookupError::TypeMismatch),
        }
    }

    /// The widget of `handle`, to be changed in place, or why there is
    /// none. Handing a widget out for change marks the store dirty.
    pub fn try_get_mut<T: Widget>(&mut self, handle: WidgetHandle<T>) -> (r: Result<
        &mut T,
        LookupError,
    >)
        ensures
            r is Ok <==> old(self).holds(handle),
            r matches Ok(w) ==> w.erased() == old(self).widgets@[handle.id as int]
                && final(self).widgets@ == old(self).widgets@.update(
                handle.id as int,
                final(w).erased(),
            ) && final(self).dirty && final(self).holds(handle),
            r matches Err(e) ==> (e == LookupError::NotFound <==> handle.id >= old(
                self,
            ).widgets@.len()) && final(self).widgets@ == old(self).widgets@ && final(self).dirty
                == old(self).dirty,
            final(self).next_id == old(self).next_id,
    {
        if handle.id >= self.widgets.len() {
            return Err(LookupError::NotFound);
        }
        if T::downcast(&self.widgets[handle.id]).is_none() {
            return Err(LookupError::TypeMismatch);
        }
        self.dirty = true;
        match T::downcast_mut(&mut self.widgets[handle.id]) {
            Some(w) => Ok(w),
            None => vstd::pervasive::unreached(),
        }
    }

    /// The widget of `handle`.
    pub fn get<T: Widget>(&self, handle: WidgetHandle<T>) -> (r: &T)
        requires
            self.holds(handle),
        ensures
            r.erased() == self.widgets@[handle.id as int],
    {
        match T::downcast(&self.widgets[handle.id]) {
            Some(w) => w,
            None => vstd::pervasive::unreached(),
        }
    }

    /// The widget of `handle`, to be changed in place. Handing a widget out
    /// for change marks the store dirty, so that what a setter changes is
    /// drawn in the next frame.
    pub fn get_mut<T: Widget>(&mut self, handle: WidgetHandle<T>) -> (r: &mut T)
        requires
            old(self).holds(handle),
        ensures
            r.erased() == old(self).widgets@[handle.id as int],
            final(self).widgets@ == old(self).widgets@.update(handle.id as int, final(r).erased()),
            final(self).next_id == old(self).next_id,
            final(self).dirty,
            final(self).holds(handle),
    {
        self.dirty = true;
        match T::downcast_mut(&mut self.widgets[handle.id]) {
            Some(w) => w,
            None => vstd::pervasive::unreached(),
        }
    }

    /// The bounds of the widget with the identity `id`, if there is one.
    pub fn bounds_of(&self, id: usize) -> (r: Option<Rect>)
        ensures
            r == if id < self.widgets@.len() {
                Some(self.widgets@[id as int].bounds())
            } else {
                None
            },
    {
        if id < self.widgets.len() {
            Some(node_bounds(&self.widgets[id]))
        } else {
            None
        }
    }

    /// Gives the widget with the identity `id` the bounds `bounds`, and
    /// marks it dirty if they are new. Without such a widget nothing
    /// happens.
    pub fn set_bounds_of(&mut self, id: usize, bounds: Rect)
        ensures
            final(self).widgets@ == if id < old(self).widgets@.len() {
                old(self).widgets@.update(
                    id as int,
                    old(self).widgets@[id as int].with_bounds(bounds),
                )
            } else {
                old(self).widgets@
            },
            final(self).next_id == old(self).next_id,
            final(self).dirty == old(self).dirty,
            same_kinds(old(self).widgets@, final(self).widgets@),
    {
        if id < self.widgets.len() {
            set_node_bounds(&mut self.widgets[id], bounds);
        }
    }

    /// Asks for the next frame to be drawn.
    pub fn mark_dirty(&mut self)
        ensures
            final(self).dirty,
            final(self).widgets == old(self).widgets,
            final(self).next_id == old(self).next_id,
    {
        self.dirty = true;
    }

    /// Whether anything has changed since the last call; the flag is clear
    /// afterwards.
    pub fn take_dirty(&mut self) -> (d: bool)
        ensures
            d == old(self).dirty,
            !final(self).dirty,
            final(self).widgets == old(self).widgets,
            final(self).next_id == old(self).next_id,
    {
        let d = self.dirty;
        self.dirty = false;
        d
    }

    /// The widget for which a press at `(x, y)` is meant: the last text
    /// input in the store with the point in its bounds.
    pub fn input_at(&self, x: i32, y: i32) -> (r: Option<usize>)
        ensures
            r matches Some(t) ==> t < self.widgets@.len(),
            forall|i: int|
                0 <= i < self.widgets@.len() ==> (r == Some(i as usize)) == #[trigger] takes_press(
                    self.widgets@,
                    i,
                    x as int,
                    y as int,
                ),
    {
        let mut found: Option<usize> = None;
        let mut i: usize = 0;
        while i < self.widgets.len()
            invariant
                i <= self.widgets@.len(),
                match found {
                    Some(t) => t < i && input_under(self.widgets@, t as int, x as int, y as int)
                        && forall|j: int|
                        t < j < i ==> !input_under(self.widgets@, j, x as int, y as int),
                    None => forall|j: int|
                        0 <= j < i ==> !input_under(self.widgets@, j, x as int, y as int),
                },
            decreases self.widgets@.len() - i,
        {
            if node_is_input_under(&self.widgets[i], x, y) {
                found = Some(i);
            }
            i += 1;
        }
        proof {
            assert forall|k: int| 0 <= k < self.widgets@.len() implies (found == Some(k as usize))
                == #[trigger] takes_press(self.widgets@, k, x as int, y as int) by {
                match found {
                    Some(t) => {
                        if k < t {
                            assert(input_under(self.widgets@, t as int, x as int, y as int));
                        }
                    },
                    None => {},
                }
            }
        }
        found
    }

    /// Brings every widget up to date with the pointer, and says whether
    /// anything changed: whether a button of the pointer went down or came
    /// up, or some widget is dirty once updated. The dirty flag of each
    /// widget is cleared, and a change marks the store dirty. A press of the
    /// left button gives the focus to the text input on top under the
    /// pointer and takes it from every other, so that one input at most has
    /// the focus afterwards.
    pub fn update_all(&mut self, mouse: &MouseState) -> (changed: bool)
        requires
            old(self).wf(),
        ensures
            final(self).wf(),
            changed == old(self).changes(*mouse),
            final(self).widgets@ == all_updated(old(self).widgets@, *mouse),
            final(self).dirty == (old(self).dirty || old(self).changes(*mouse)),
            same_kinds(old(self).widgets@, final(self).widgets@),
            mouse.left_just_pressed || focus_exclusive(old(self).widgets@) ==> focus_exclusive(
                final(self).widgets@,
            ),
    {
        let target = if mouse.left_just_pressed {
            self.input_at(mouse.x, mouse.y)
        } else {
            None
        };
        let mut changed = mouse.has_button_edge();
        let mut i: usize = 0;
        while i < self.widgets.len()
            invariant
                i <= self.widgets@.len() == old(self).widgets@.len(),
                old(self).wf(),
                self.next_id == old(self).next_id,
                self.dirty == old(self).dirty,
                mouse.left_just_pressed ==> forall|k: int|
                    0 <= k < old(self).widgets@.len() ==> (target == Some(k as usize))
                        == #[trigger] takes_press(
                        old(self).widgets@,
                        k,
                        mouse.x as int,
                        mouse.y as int,
                    ),
                forall|j: int|
                    0 <= j < i ==> (#[trigger] self.widgets@[j]) == refreshed(
                        old(self).widgets@,
                        j,
                        *mouse,
                    ).cleaned(),
                forall|j: int|
                    i <= j < self.widgets@.len() ==> self.widgets@[j] == old(self).widgets@[j],
                changed == (mouse.button_edge() || exists|j: int|
                    0 <= j < i && (#[trigger] refreshed(old(self).widgets@, j, *mouse)).dirty()),
            decreases self.widgets@.len() - i,
        {
            let admitted = match target {
                Some(t) => t == i,
                None => false,
            };
            proof {
                assert(old(self).widgets@[i as int].routed(*mouse, admitted) == refreshed(
                    old(self).widgets@,
                    i as int,
                    *mouse,
                ));
            }
            let node = &mut self.widgets[i];
            update_node(node, mouse, admitted);
            if node_is_dirty(node) {
                changed = true;
            }
            clear_node(node);
            i += 1;
        }
        if changed {
            self.dirty = true;
        }
        proof {
            assert(self.widgets@ =~= all_updated(old(self).widgets@, *mouse));
            assert forall|j: int| 0 <= j < self.widgets@.len() implies (#[trigger] self.widgets@[j]).id()
                == j && self.widgets@[j].wf() && self.widgets@[j].kind() == old(
                self,
            ).widgets@[j].kind() && self.widgets@[j].drawable() == old(self).widgets@[j].drawable() by {
                old(self).widgets@[j].lemma_routed_keeps(
                    *mouse,
                    takes_press(old(self).widgets@, j, mouse.x as int, mouse.y as int),
                );
            }
            if mouse.left_just_pressed || focus_exclusive(old(self).widgets@) {
                lemma_focus_stays_exclusive(old(self).widgets@, *mouse);
            }
        }
        changed
    }

    /// Lets `dt` milliseconds pass for the caret of every text input, and
    /// says whether one showed or hid. The text input whose caret did is
    /// dirty afterwards.
    pub fn tick_all(&mut self, dt: u32) -> (flipped: bool)
        requires
            old(self).wf(),
        ensures
            final(self).wf(),
            flipped == any_blinks(old(self).widgets@, dt),
            final(self).widgets@ == all_ticked(old(self).widgets@, dt),
            final(self).dirty == old(self).dirty,
            same_kinds(old(self).widgets@, final(self).widgets@),
    {
        let mut flipped = false;
        let mut i: usize = 0;
        while i < self.widgets.len()
            invariant
                i <= self.widgets@.len() == old(self).widgets@.len(),
                old(self).wf(),
                self.next_id == old(self).next_id,
                self.dirty == old(self).dirty,
                forall|j: int|
                    0 <= j < i ==> self.widgets@[j] == (#[trigger] old(self).widgets@[j]).ticked(dt),
                forall|j: int|
                    i <= j < self.widgets@.len() ==> self.widgets@[j] == old(self).widgets@[j],
                flipped == exists|j: int|
                    0 <= j < i && (#[trigger] old(self).widgets@[j]).blinks(dt),
            decreases self.widgets@.len() - i,
        {
            match &mut self.widgets[i] {
                WidgetNode::TextInput(input) => {
                    if input.tick_blink(dt) {
                        flipped = true;
                    }
                },
                _ => {},
            }
            i += 1;
        }
        proof {
            assert(self.widgets@ =~= all_ticked(old(self).widgets@, dt));
            assert forall|j: int| 0 <= j < self.widgets@.len() implies (#[trigger] self.widgets@[j]).id()
                == j && self.widgets@[j].wf() by {
                assert(self.widgets@[j] == old(self).widgets@[j].ticked(dt));
            }
        }
        flipped
    }

    /// Types `c` into every text input that has the focus, and marks the
    /// store dirty if there is one.
    pub fn type_char(&mut self, c: char)
        requires
            old(self).wf(),
        ensures
            final(self).wf(),
            final(self).widgets@.len() == old(self).widgets@.len(),
            forall|i: int|
                0 <= i < old(self).widgets@.len() ==> (#[trigger] old(self).widgets@[i]).typed(
                    final(self).widgets@[i],
                    c,
                ),
            final(self).dirty == (old(self).dirty || any_focused(old(self).widgets@)),
            same_kinds(old(self).widgets@, final(self).widgets@),
    {
        let mut i: usize = 0;
        while i < self.widgets.len()
            invariant
                i <= self.widgets@.len() == old(self).widgets@.len(),
                self.next_id == old(self).next_id,
                forall|j: int|
                    0 <= j < self.widgets@.len() ==> (#[trigger] self.widgets@[j]).id() == j
                        && self.widgets@[j].wf(),
                forall|j: int|
                    0 <= j < i ==> (#[trigger] old(self).widgets@[j]).typed(self.widgets@[j], c),
                forall|j: int|
                    i <= j < self.widgets@.len() ==> self.widgets@[j] == old(self).widgets@[j],
                self.dirty == (old(self).dirty || exists|j: int|
                    0 <= j < i && (#[trigger] old(self).widgets@[j]).focused()),
            decreases self.widgets@.len() - i,
        {
            let mut hit = false;
            match &mut self.widgets[i] {
                WidgetNode::TextInput(input) => {
                    if input.focused {
                        input.insert_char(c);
                        hit = true;
                    }
                },
                _ => {},
            }
            if hit {
                self.dirty = true;
            }
            i += 1;
        }
    }

    /// Hands the editing key `key` to every text input that has the focus,
    /// and marks the store dirty if there is one.
    pub fn edit_key(&mut self, key: EditKey)
        requires
            old(self).wf(),
        ensures
            final(self).wf(),
            final(self).widgets@.len() == old(self).widgets@.len(),
            forall|i: int|
                0 <= i < old(self).widgets@.len() ==> (#[trigger] old(self).widgets@[i]).keyed(
                    final(self).widgets@[i],
                    key,
                ),
            final(self).dirty == (old(self).dirty || any_focused(old(self).widgets@)),
            same_kinds(old(self).widgets@, final(self).widgets@),
    {
        let mut i: usize = 0;
        while i < self.widgets.len()
            invariant
                i <= self.widgets@.len() == old(self).widgets@.len(),
                self.next_id == old(self).next_id,
                forall|j: int|
                    0 <= j < self.widgets@.len() ==> (#[trigger] self.widgets@[j]).id() == j
                        && self.widgets@[j].wf(),
                forall|j: int|
                    0 <= j < i ==> (#[trigger] old(self).widgets@[j]).keyed(self.widgets@[j], key),
                forall|j: int|
                    i <= j < self.widgets@.len() ==> self.widgets@[j] == old(self).widgets@[j],
                self.dirty == (old(self).dirty || exists|j: int|
                    0 <= j < i && (#[trigger] old(self).widgets@[j]).focused()),
            decreases self.widgets@.len() - i,
        {
            let mut hit = false;
            match &mut self.widgets[i] {
                WidgetNode::TextInput(input) => {
                    if input.focused {
                        input.apply_key(key);
                        hit = true;
                    }
                },
                _ => {},
            }
            if hit {
                self.dirty = true;
            }
            i += 1;
        }
    }

    /// Handles a key press: an editing key goes to the text input that has
    /// the focus, any other key is ignored.
    pub fn key_press(&mut self, key: KeyCode)
        requires
            old(self).wf(),
        ensures
            final(self).wf(),
            final(self).widgets@.len() == old(self).widgets@.len(),
            match edit_key_of(key) {
                Some(k) => {
                    &&& forall|i: int|
                        0 <= i < old(self).widgets@.len() ==> (#[trigger] old(
                            self,
                        ).widgets@[i]).keyed(final(self).widgets@[i], k)
                    &&& final(self).dirty == (old(self).dirty || any_focused(old(self).widgets@))
                },
                None => final(self).widgets@ == old(self).widgets@ && final(self).dirty == old(
                    self,
                ).dirty,
            },
            same_kinds(old(self).widgets@, final(self).widgets@),
    {
        match classify(key) {
            Some(k) => self.edit_key(k),
            None => {},
        }
    }

    /// What the host has to measure for each widget, in the order of the
    /// store, before `layout_all` and `render_all`.
    pub fn measure_requests(&self) -> (r: Vec<MeasureRequest>)
        requires
            self.wf(),
        ensures
            r@.len() == self.widgets@.len(),
            forall|i: int|
                0 <= i < r@.len() ==> (#[trigger] r@[i]).font == self.widgets@[i].probe_font()
                    && r@[i].text@ == self.widgets@[i].probe_text(),
    {
        let mut out: Vec<MeasureRequest> = Vec::new();
        let mut i: usize = 0;
        while i < self.widgets.len()
            invariant
                self.wf(),
                i <= self.widgets@.len(),
                out@.len() == i,
                forall|j: int|
                    0 <= j < i ==> (#[trigger] out@[j]).font == self.widgets@[j].probe_font()
                        && out@[j].text@ == self.widgets@[j].probe_text(),
            decreases self.widgets@.len() - i,
        {
            out.push(probe_node(&self.widgets[i]));
            i += 1;
        }
        out
    }

    /// Sizes every widget from its measurements.
    pub fn layout_all(&mut self, metrics: &Vec<WidgetMetrics>)
        requires
            old(self).wf(),
            metrics@.len() == old(self).widgets@.len(),
        ensures
            final(self).wf(),
            final(self).widgets@ == all_fitted(old(self).widgets@, metrics@),
            final(self).dirty == old(self).dirty,
            same_kinds(old(self).widgets@, final(self).widgets@),
    {
        let mut i: usize = 0;
        while i < self.widgets.len()
            invariant
                i <= self.widgets@.len() == old(self).widgets@.len() == metrics@.len(),
                old(self).wf(),
                self.next_id == old(self).next_id,
                self.dirty == old(self).dirty,
                forall|j: int|
                    0 <= j < i ==> self.widgets@[j] == (#[trigger] old(self).widgets@[j]).laid_out(
                        metrics@[j],
                    ),
                forall|j: int|
                    i <= j < self.widgets@.len() ==> self.widgets@[j] == old(self).widgets@[j],
            decreases self.widgets@.len() - i,
        {
            layout_node(&mut self.widgets[i], &metrics[i]);
            i += 1;
        }
        proof {
            assert forall|j: int| 0 <= j < self.widgets@.len() implies (#[trigger] self.widgets@[j]).id()
                == j && self.widgets@[j].wf() by {
                assert(self.widgets@[j] == old(self).widgets@[j].laid_out(metrics@[j]));
            }
            assert(self.widgets@ =~= all_fitted(old(self).widgets@, metrics@));
        }
    }

    /// Draws every widget, in the order of the store, and clears the dirty
    /// flag of each.
    pub fn render_all(&mut self, metrics: &Vec<WidgetMetrics>) -> (r: Vec<DrawCommand>)
        requires
            old(self).wf(),
            metrics@.len() == old(self).widgets@.len(),
            old(self).drawable(),
        ensures
            final(self).wf(),
            ops(r@) == draw_list(old(self).widgets@, metrics@),
            final(self).widgets@ == all_cleaned(old(self).widgets@),
            final(self).dirty == old(self).dirty,
            same_kinds(old(self).widgets@, final(self).widgets@),
    {
        let mut out: Vec<DrawCommand> = Vec::new();
        let mut i: usize = 0;
        while i < self.widgets.len()
            invariant
                i <= self.widgets@.len() == old(self).widgets@.len() == metrics@.len(),
                self.next_id == old(self).next_id,
                self.dirty == old(self).dirty,
                old(self).wf(),
                forall|j: int|
                    0 <= j < old(self).widgets@.len() ==> (#[trigger] old(
                        self,
                    ).widgets@[j]).drawable(),
                forall|j: int|
                    0 <= j < i ==> self.widgets@[j] == (#[trigger] old(self).widgets@[j]).cleaned(),
                forall|j: int|
                    i <= j < self.widgets@.len() ==> self.widgets@[j] == old(self).widgets@[j],
                ops(out@) == draw_list(old(self).widgets@.take(i as int), metrics@.take(i as int)),
            decreases self.widgets@.len() - i,
        {
            let mut piece = render_node(&self.widgets[i], &metrics[i]);
            proof {
                let nodes = old(self).widgets@.take(i + 1);
                let ms = metrics@.take(i + 1);
                assert(nodes.drop_last() =~= old(self).widgets@.take(i as int));
                assert(ms.drop_last() =~= metrics@.take(i as int));
                lemma_ops_add(out@, piece@);
            }
            out.append(&mut piece);
            clear_node(&mut self.widgets[i]);
            i += 1;
        }
        proof {
            assert(old(self).widgets@.take(i as int) =~= old(self).widgets@);
            assert(metrics@.take(i as int) =~= metrics@);
            assert(self.widgets@ =~= all_cleaned(old(self).widgets@));
        }
        out
    }
}

/// Focus is exclusive after every frame: after an update in which the left
/// button went down, and after any update of a store in which at most one
/// text input had the focus, at most one text input has the focus.
pub proof fn lemma_focus_stays_exclusive(nodes: Seq<WidgetNode>, mouse: MouseState)
    requires
        mouse.left_just_pressed || focus_exclusive(nodes),
    ensures
        focus_exclusive(all_updated(nodes, mouse)),
{
    let after = all_updated(nodes, mouse);
    let x = mouse.x as int;
    let y = mouse.y as int;
    assert forall|i: int, j: int|
        0 <= i < after.len() && 0 <= j < after.len() && (#[trigger] after[i]).focused()
            && (#[trigger] after[j]).focused() implies i == j by {
        nodes[i].lemma_update_focus(mouse, takes_press(nodes, i, x, y));
        nodes[j].lemma_update_focus(mouse, takes_press(nodes, j, x, y));
        if mouse.left_just_pressed {
            assert(takes_press(nodes, i, x, y) && takes_press(nodes, j, x, y));
            if i < j {
                assert(input_under(nodes, j, x, y));
            }
            if j < i {
                assert(input_under(nodes, i, x, y));
            }
        }
    }
}

/// Focus moves with a click: after a frame in which the left button went
/// down, the text input for which the press was meant has the focus and no
/// other widget has, whichever had it before.
pub proof fn lemma_focus_transfer(nodes: Seq<WidgetNode>, mouse: MouseState, a: int, b: int)
    requires
        mouse.left_just_pressed,
        takes_press(nodes, a, mouse.x as int, mouse.y as int),
        0 <= b < nodes.len(),
        b != a,
    ensures
        all_updated(nodes, mouse)[a].focused(),
        !all_updated(nodes, mouse)[b].focused(),
{
    let x = mouse.x as int;
    let y = mouse.y as int;
    nodes[a].lemma_update_focus(mouse, takes_press(nodes, a, x, y));
    nodes[b].lemma_update_focus(mouse, takes_press(nodes, b, x, y));
    if takes_press(nodes, b, x, y) {
        if a < b {
            assert(input_under(nodes, b, x, y));
        } else {
            assert(input_under(nodes, a, x, y));
        }
    }
}

/// Under a point that lies in a text input, a press is meant for some text
/// input: for the one at `a`, or a later one.
pub proof fn lemma_press_is_taken(nodes: Seq<WidgetNode>, a: int, x: int, y: int) -> (t: int)
    requires
        input_under(nodes, a, x, y),
    ensures
        a <= t < nodes.len(),
        takes_press(nodes, t, x, y),
    decreases nodes.len() - a,
{
    if forall|j: int| a < j < nodes.len() ==> !input_under(nodes, j, x, y) {
        a
    } else {
        let j = choose|j: int| a < j < nodes.len() && input_under(nodes, j, x, y);
        lemma_press_is_taken(nodes, j, x, y)
    }
}

/// A click inside a text input focuses, and a click outside unfocuses:
/// after a frame in which the left button went down inside the text input
/// at `a`, some text input has the focus, the one at `a` if no later one
/// lies under the pointer too, and no widget that the pointer is outside
/// of has it.
pub proof fn lemma_click_inside_focuses(nodes: Seq<WidgetNode>, mouse: MouseState, a: int)
    requires
        mouse.left_just_pressed,
        input_under(nodes, a, mouse.x as int, mouse.y as int),
    ensures
        any_focused(all_updated(nodes, mouse)),
        (forall|j: int| a < j < nodes.len() ==> !input_under(
            nodes,
            j,
            mouse.x as int,
            mouse.y as int,
        )) ==> all_updated(nodes, mouse)[a].focused(),
        forall|b: int|
            0 <= b < nodes.len() && !nodes[b].bounds().holds(mouse.x as int, mouse.y as int)
                ==> !(#[trigger] all_updated(nodes, mouse)[b]).focused(),
{
    let x = mouse.x as int;
    let y = mouse.y as int;
    let after = all_updated(nodes, mouse);
    let t = lemma_press_is_taken(nodes, a, x, y);
    nodes[t].lemma_update_focus(mouse, takes_press(nodes, t, x, y));
    assert(after[t].focused());
    nodes[a].lemma_update_focus(mouse, takes_press(nodes, a, x, y));
    assert forall|b: int|
        0 <= b < nodes.len() && !nodes[b].bounds().holds(x, y) implies !(#[trigger] after[b]).focused() by {
        nodes[b].lemma_update_focus(mouse, takes_press(nodes, b, x, y));
    }
}

/// A click on empty space takes the focus away: after a frame in which the
/// left button went down outside every text input, none has the focus.
pub proof fn lemma_click_outside_unfocuses(nodes: Seq<WidgetNode>, mouse: MouseState)
    requires
        mouse.left_just_pressed,
        forall|i: int| !input_under(nodes, i, mouse.x as int, mouse.y as int),
    ensures
        !any_focused(all_updated(nodes, mouse)),
{
    let after = all_updated(nodes, mouse);
    let x = mouse.x as int;
    let y = mouse.y as int;
    assert forall|i: int| 0 <= i < after.len() implies !(#[trigger] after[i]).focused() by {
        nodes[i].lemma_update_focus(mouse, takes_press(nodes, i, x, y));
        assert(!input_under(nodes, i, x, y));
    }
}

/// Typing and editing keys keep the focus exclusive.
pub proof fn lemma_edit_keeps_focus_exclusive(
    nodes: Seq<WidgetNode>,
    after: Seq<WidgetNode>,
    c: char,
    key: EditKey,
)
    requires
        focus_exclusive(nodes),
        after.len() == nodes.len(),
        forall|i: int| 0 <= i < nodes.len() ==> (#[trigger] nodes[i]).wf(),
        forall|i: int|
            0 <= i < nodes.len() ==> (#[trigger] nodes[i]).typed(after[i], c) || nodes[i].keyed(
                after[i],
                key,
            ),
    ensures
        focus_exclusive(after),
{
    assert forall|i: int, j: int|
        0 <= i < after.len() && 0 <= j < after.len() && (#[trigger] after[i]).focused()
            && (#[trigger] after[j]).focused() implies i == j by {
        nodes[i].lemma_edit_keeps(after[i], c, key);
        nodes[j].lemma_edit_keeps(after[j], c, key);
    }
}

/// A widget that a setter has marked dirty is reported by the next update,
/// whatever the pointer does.
pub proof fn lemma_dirty_widget_reports(nodes: Seq<WidgetNode>, mouse: MouseState, i: int)
    requires
        0 <= i < nodes.len(),
        nodes[i].dirty(),
    ensures
        any_reports(nodes, mouse),
{
    nodes[i].lemma_update_keeps_dirty(
        mouse,
        takes_press(nodes, i, mouse.x as int, mouse.y as int),
    );
    assert(refreshed(nodes, i, mouse).dirty());
}

/// Widgets that draw the same one by one draw the same together.
pub proof fn lemma_draw_list_pointwise(
    a: Seq<WidgetNode>,
    b: Seq<WidgetNode>,
    metrics: Seq<WidgetMetrics>,
)
    requires
        a.len() == b.len(),
        forall|i: int|
            0 <= i < a.len() && i < metrics.len() ==> (#[trigger] a[i]).drawn(metrics[i])
                == b[i].drawn(metrics[i]),
    ensures
        draw_list(a, metrics) == draw_list(b, metrics),
    decreases a.len(),
{
    if a.len() != 0 && metrics.len() == a.len() {
        let n = a.len() - 1;
        assert(a.last().drawn(metrics.last()) == b.last().drawn(metrics.last())) by {
            assert(a[n].drawn(metrics[n]) == b[n].drawn(metrics[n]));
        }
        assert forall|i: int|
            0 <= i < a.drop_last().len() && i < metrics.drop_last().len() implies (
        #[trigger] a.drop_last()[i]).drawn(metrics.drop_last()[i]) == b.drop_last()[i].drawn(
            metrics.drop_last()[i],
        ) by {
            assert(a.drop_last()[i] == a[i]);
            assert(a[i].drawn(metrics[i]) == b[i].drawn(metrics[i]));
        }
        lemma_draw_list_pointwise(a.drop_last(), b.drop_last(), metrics.drop_last());
    }
}

/// A frame in which no widget reports a change draws what the frame before
/// it drew.
pub proof fn lemma_quiet_update_draws_same(
    nodes: Seq<WidgetNode>,
    mouse: MouseState,
    metrics: Seq<WidgetMetrics>,
)
    requires
        !any_reports(nodes, mouse),
    ensures
        draw_list(all_updated(nodes, mouse), metrics) == draw_list(nodes, metrics),
{
    let after = all_updated(nodes, mouse);
    assert forall|i: int| 0 <= i < after.len() && i < metrics.len() implies (#[trigger] after[i]).drawn(
        metrics[i],
    ) == nodes[i].drawn(metrics[i]) by {
        assert(!refreshed(nodes, i, mouse).dirty());
        nodes[i].lemma_clean_update_draws_same(
            mouse,
            takes_press(nodes, i, mouse.x as int, mouse.y as int),
            metrics[i],
        );
    }
    lemma_draw_list_pointwise(after, nodes, metrics);
}

/// Clearing the dirty flags changes nothing that is drawn: a render pass
/// draws the same before and after the flags are cleared.
pub proof fn lemma_cleaning_draws_same(nodes: Seq<WidgetNode>, metrics: Seq<WidgetMetrics>)
    ensures
        draw_list(all_cleaned(nodes), metrics) == draw_list(nodes, metrics),
{
    let after = all_cleaned(nodes);
    assert forall|i: int| 0 <= i < after.len() && i < metrics.len() implies (#[trigger] after[i]).drawn(
        metrics[i],
    ) == nodes[i].drawn(metrics[i]) by {
        nodes[i].lemma_cleaned_draws_same(metrics[i]);
    }
    lemma_draw_list_pointwise(after, nodes, metrics);
}

} // verus!
