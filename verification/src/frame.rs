//! The two halves of a frame. The first brings the widgets up to date with
//! the pointer, places them, and says whether anything has to be drawn. The
//! second, for a frame that has to be drawn, sizes the widgets from what
//! the host has measured, places them again and draws them. A frame that
//! needs no drawing costs no measuring.
use vstd::prelude::*;
use crate::input::MouseState;
use crate::layout::{all_laid_out, lemma_kept_focus, LayoutManager};
use crate::scene::{ops, DrawCommand};
use crate::widgets::manager::{
    all_cleaned, all_fitted, all_updated, draw_list, focus_exclusive, WidgetManager,
};
use crate::widgets::{same_kinds, WidgetMetrics, WidgetNode};

verus! {

/// The widgets after every container of `layout` has placed its members.
pub open spec fn placed(layout: &LayoutManager, nodes: Seq<WidgetNode>) -> Seq<WidgetNode> {
    all_laid_out(layout.containers@, nodes, layout.containers@.len() as int)
}

/// Begins a frame: updates every widget from the pointer, lays out every
/// container, and takes the dirty flag. The frame has to be drawn exactly
/// if the store was dirty or the update reported a change. One text input
/// at most has the focus afterwards, if the left button went down or one at
/// most had it before.
pub fn begin_frame(store: &mut WidgetManager, layout: &LayoutManager, mouse: &MouseState) -> (redraw:
    bool)
    requires
        old(store).wf(),
    ensures
        final(store).wf(),
        redraw == (old(store).dirty || old(store).changes(*mouse)),
        !final(store).dirty,
        final(store).widgets@ == placed(layout, all_updated(old(store).widgets@, *mouse)),
        same_kinds(old(store).widgets@, final(store).widgets@),
        mouse.left_just_pressed || focus_exclusive(old(store).widgets@) ==> focus_exclusive(
            final(store).widgets@,
        ),
{
    store.update_all(mouse);
    let ghost updated = store.widgets@;
    layout.compute_all(store);
    proof {
        lemma_kept_focus(updated, store.widgets@);
    }
    store.take_dirty()
}

/// Draws a frame: sizes every widget from its measurements, lays out every
/// container, and renders the widgets in the order of the store.
pub fn draw_frame(
    store: &mut WidgetManager,
    layout: &LayoutManager,
    metrics: &Vec<WidgetMetrics>,
) -> (r: Vec<DrawCommand>)
    requires
        old(store).wf(),
        old(store).drawable(),
        metrics@.len() == old(store).widgets@.len(),
    ensures
        final(store).wf(),
        ops(r@) == draw_list(placed(layout, all_fitted(old(store).widgets@, metrics@)), metrics@),
        final(store).widgets@ == all_cleaned(
            placed(layout, all_fitted(old(store).widgets@, metrics@)),
        ),
        final(store).dirty == old(store).dirty,
        same_kinds(old(store).widgets@, final(store).widgets@),
{
    store.layout_all(metrics);
    layout.compute_all(store);
    store.render_all(metrics)
}

} // verus!
