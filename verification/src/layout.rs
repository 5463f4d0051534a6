//! Stack layout: containers that flow their members along one axis, each
//! member after the one before it, with a padding around and a gap between
//! them. Members keep their size; the container only places them.
use vstd::prelude::*;
use crate::geometry::{sat, sat_add, Rect};
use crate::widgets::manager::{focus_exclusive, WidgetManager};
use crate::widgets::{same_kinds, Widget, WidgetHandle, WidgetNode};

verus! {

/// The axis along which a container flows its members.
#[derive(Clone, Copy, Debug, PartialEq, Eq, Structural)]
pub enum Direction {
    /// Left to right.
    H,
    /// Top to bottom.
    V,
}

/// A stack of widgets, named by their identities, in the order of the
/// flow.
pub struct Container {
    pub direction: Direction,
    /// The anchor: the top left corner of the container.
    pub x: i32,
    pub y: i32,
    /// The space between the anchor and the first member, on both axes.
    pub padding: i32,
    /// The space between one member and the next.
    pub gap: i32,
    pub widget_ids: Vec<usize>,
}

impl Container {
    /// The extent of a member along the flow.
    pub open spec fn extent(&self, bounds: Rect) -> i32 {
        match self.direction {
            Direction::H => bounds.w,
            Direction::V => bounds.h,
        }
    }

    /// The bounds of a member that the flow has reached at `cursor`: the
    /// member stands `cursor` from the anchor along the flow and a padding
    /// from it across, and keeps its size.
    pub open spec fn slot(&self, bounds: Rect, cursor: int) -> Rect {
        match self.direction {
            Direction::H => Rect {
                x: sat(self.x + cursor) as i32,
                y: sat(self.y + self.padding) as i32,
                ..bounds
            },
            Direction::V => Rect {
                x: sat(self.x + self.padding) as i32,
                y: sat(self.y + cursor) as i32,
                ..bounds
            },
        }
    }

    /// How far from the anchor the flow has come after the first `k`
    /// members: the padding, and for each member that the store holds its
    /// extent and the gap.
    pub open spec fn cursor_at(&self, nodes: Seq<WidgetNode>, k: int) -> int
        decreases k,
    {
        if k <= 0 {
            self.padding as int
        } else {
            let id = self.widget_ids@[k - 1];
            let before = self.cursor_at(nodes, k - 1);
            if id < nodes.len() {
                sat(before + sat(self.extent(nodes[id as int].bounds()) + self.gap))
            } else {
                before
            }
        }
    }

    /// The widgets after the first `k` members have been placed. A member
    /// that the store does not hold is passed over.
    pub open spec fn flowed(&self, nodes: Seq<WidgetNode>, k: int) -> Seq<WidgetNode>
        decreases k,
    {
        if k <= 0 {
            nodes
        } else {
            let id = self.widget_ids@[k - 1];
            let before = self.flowed(nodes, k - 1);
            if id < nodes.len() {
                before.update(
                    id as int,
                    before[id as int].with_bounds(
                        self.slot(before[id as int].bounds(), self.cursor_at(nodes, k - 1)),
                    ),
                )
            } else {
                before
            }
        }
    }

    /// The widgets after the whole container has been laid out.
    pub open spec fn laid_out(&self, nodes: Seq<WidgetNode>) -> Seq<WidgetNode> {
        self.flowed(nodes, self.widget_ids@.len() as int)
    }

    /// The flow changes nothing of a widget but its place and its dirty
    /// flag: it keeps every widget's identity, kind, invariant and size, and
    /// leaves a widget alone that is not among the members placed.
    pub proof fn lemma_flowed_keeps(&self, nodes: Seq<WidgetNode>, k: int)
        requires
            0 <= k <= self.widget_ids@.len(),
        ensures
            self.flowed(nodes, k).len() == nodes.len(),
            forall|i: int|
                0 <= i < nodes.len() ==> {
                    let after = #[trigger] self.flowed(nodes, k)[i];
                    &&& after.id() == nodes[i].id()
                    &&& after.kind() == nodes[i].kind()
                    &&& after.drawable() == nodes[i].drawable()
                    &&& after == nodes[i].placed_at(after.bounds(), after.dirty())
                    &&& after.bounds().w == nodes[i].bounds().w
                    &&& after.bounds().h == nodes[i].bounds().h
                    &&& (nodes[i].wf() ==> after.wf())
                    &&& ((forall|j: int| 0 <= j < k ==> self.widget_ids@[j] != i) ==> after
                        == nodes[i])
                },
        decreases k,
    {
        if k > 0 {
            self.lemma_flowed_keeps(nodes, k - 1);
            let id = self.widget_ids@[k - 1];
            let before = self.flowed(nodes, k - 1);
            assert forall|i: int| 0 <= i < nodes.len() implies {
                let after = #[trigger] self.flowed(nodes, k)[i];
                &&& after.id() == nodes[i].id()
                &&& after.kind() == nodes[i].kind()
                &&& after.drawable() == nodes[i].drawable()
                &&& after == nodes[i].placed_at(after.bounds(), after.dirty())
                &&& after.bounds().w == nodes[i].bounds().w
                &&& after.bounds().h == nodes[i].bounds().h
                &&& (nodes[i].wf() ==> after.wf())
                &&& ((forall|j: int| 0 <= j < k ==> self.widget_ids@[j] != i) ==> after == nodes[i])
            } by {
                let prev = before[i];
                assert(prev.id() == nodes[i].id());
                if forall|j: int| 0 <= j < k ==> self.widget_ids@[j] != i {
                    assert(self.widget_ids@[k - 1] != i);
                    assert(forall|j: int| 0 <= j < k - 1 ==> self.widget_ids@[j] != i);
                }
            }
        }
    }

    /// Where a member stands after layout: a member that the store holds
    /// and that the list does not name again further on stands where the
    /// flow had come to when it was reached.
    pub proof fn lemma_member_position(&self, nodes: Seq<WidgetNode>, k: int)
        requires
            0 <= k < self.widget_ids@.len(),
            self.widget_ids@[k] < nodes.len(),
            forall|j: int| k < j < self.widget_ids@.len() ==> self.widget_ids@[j] != self.widget_ids@[k],
        ensures
            self.laid_out(nodes)[self.widget_ids@[k] as int].bounds() == self.slot(
                nodes[self.widget_ids@[k] as int].bounds(),
                self.cursor_at(nodes, k),
            ),
    {
        self.lemma_placed_stays(nodes, k, self.widget_ids@.len() as int);
    }

    /// A member that has been placed stays where it is while the flow goes
    /// on over other members.
    proof fn lemma_placed_stays(&self, nodes: Seq<WidgetNode>, k: int, m: int)
        requires
            0 <= k < m <= self.widget_ids@.len(),
            self.widget_ids@[k] < nodes.len(),
            forall|j: int| k < j < m ==> self.widget_ids@[j] != self.widget_ids@[k],
        ensures
            self.flowed(nodes, m)[self.widget_ids@[k] as int].bounds() == self.slot(
                nodes[self.widget_ids@[k] as int].bounds(),
                self.cursor_at(nodes, k),
            ),
        decreases m,
    {
        let id = self.widget_ids@[k] as int;
        self.lemma_flowed_keeps(nodes, m - 1);
        if m == k + 1 {
            self.lemma_flowed_keeps(nodes, k);
        } else {
            self.lemma_placed_stays(nodes, k, m - 1);
            assert(self.widget_ids@[m - 1] != self.widget_ids@[k]);
        }
    }

    /// How far the flow would have come after the first `k` members if
    /// lengths had no bounds: the padding, and for each member that the
    /// store holds its extent and the gap.
    pub open spec fn span(&self, nodes: Seq<WidgetNode>, k: int) -> int
        decreases k,
    {
        if k <= 0 {
            self.padding as int
        } else {
            let id = self.widget_ids@[k - 1];
            let before = self.span(nodes, k - 1);
            if id < nodes.len() {
                before + self.extent(nodes[id as int].bounds()) + self.gap
            } else {
                before
            }
        }
    }

    /// Where no sum leaves the range of `i32`, the flow is the plain sum of
    /// the padding, the extents and the gaps.
    pub proof fn lemma_cursor_is_span(&self, nodes: Seq<WidgetNode>, k: int)
        requires
            0 <= k <= self.widget_ids@.len(),
            forall|m: int| 0 <= m <= k ==> i32::MIN <= #[trigger] self.span(nodes, m) <= i32::MAX,
            forall|j: int|
                0 <= j < k && self.widget_ids@[j] < nodes.len() ==> i32::MIN <= self.extent(
                    nodes[(#[trigger] self.widget_ids@[j]) as int].bounds(),
                ) + self.gap <= i32::MAX,
        ensures
            self.cursor_at(nodes, k) == self.span(nodes, k),
        decreases k,
    {
        if k > 0 {
            self.lemma_cursor_is_span(nodes, k - 1);
            assert(i32::MIN <= self.span(nodes, k) <= i32::MAX);
            assert(i32::MIN <= self.span(nodes, k - 1) <= i32::MAX);
        }
    }

    /// Places the members of the container in the store.
    pub fn compute(&self, store: &mut WidgetManager)
        requires
            old(store).wf(),
        ensures
            final(store).wf(),
            final(store).widgets@ == self.laid_out(old(store).widgets@),
            final(store).dirty == old(store).dirty,
            kept(old(store).widgets@, final(store).widgets@),
    {
        let mut cursor: i32 = self.padding;
        let mut k: usize = 0;
        while k < self.widget_ids.len()
            invariant
                k <= self.widget_ids@.len(),
                old(store).wf(),
                store.next_id == old(store).next_id,
                store.dirty == old(store).dirty,
                store.widgets@ == self.flowed(old(store).widgets@, k as int),
                cursor == self.cursor_at(old(store).widgets@, k as int),
            decreases self.widget_ids@.len() - k,
        {
            let id = self.widget_ids[k];
            proof {
                self.lemma_flowed_keeps(old(store).widgets@, k as int);
            }
            match store.bounds_of(id) {
                Some(bounds) => {
                    let mut b = bounds;
                    match self.direction {
                        Direction::H => {
                            b.x = sat_add(self.x, cursor);
                            b.y = sat_add(self.y, self.padding);
                            cursor = sat_add(cursor, sat_add(b.w, self.gap));
                        },
                        Direction::V => {
                            b.x = sat_add(self.x, self.padding);
                            b.y = sat_add(self.y, cursor);
                            cursor = sat_add(cursor, sat_add(b.h, self.gap));
                        },
                    }
                    store.set_bounds_of(id, b);
                },
                None => {},
            }
            k += 1;
        }
        proof {
            self.lemma_flowed_keeps(old(store).widgets@, k as int);
        }
    }
}

/// Whether `after` holds the widgets of `before`, each as it was but for its
/// place and its dirty flag, and of the size it had: what layout never
/// changes.
pub open spec fn kept(before: Seq<WidgetNode>, after: Seq<WidgetNode>) -> bool {
    &&& same_kinds(before, after)
    &&& forall|i: int|
        0 <= i < before.len() ==> {
            &&& (#[trigger] after[i]) == before[i].placed_at(after[i].bounds(), after[i].dirty())
            &&& after[i].bounds().w == before[i].bounds().w
            &&& after[i].bounds().h == before[i].bounds().h
        }
}

/// Layout moves no focus.
pub proof fn lemma_kept_focus(before: Seq<WidgetNode>, after: Seq<WidgetNode>)
    requires
        kept(before, after),
    ensures
        forall|i: int| 0 <= i < before.len() ==> (#[trigger] after[i]).focused() == before[i].focused(),
        focus_exclusive(before)
            ==> focus_exclusive(after),
{
    assert forall|i: int| 0 <= i < before.len() implies (#[trigger] after[i]).focused()
        == before[i].focused() by {
        assert(after[i] == before[i].placed_at(after[i].bounds(), after[i].dirty()));
    }
    if focus_exclusive(before) {
        assert forall|i: int, j: int|
            0 <= i < after.len() && 0 <= j < after.len() && (#[trigger] after[i]).focused()
                && (#[trigger] after[j]).focused() implies i == j by {
            assert(before[i].focused() && before[j].focused());
        }
    }
}

/// The widgets after the first `n` of `containers` have been laid out, one
/// after the other.
pub open spec fn all_laid_out(containers: Seq<Container>, nodes: Seq<WidgetNode>, n: int) -> Seq<
    WidgetNode,
>
    decreases n,
{
    if n <= 0 {
        nodes
    } else {
        containers[n - 1].laid_out(all_laid_out(containers, nodes, n - 1))
    }
}

/// The containers of an interface, in the order of their creation.
pub struct LayoutManager {
    pub containers: Vec<Container>,
}

/// A container that is being set up: each call changes the container in its
/// layout manager and hands the builder on.
pub struct ContainerBuilder<'a> {
    pub manager: &'a mut LayoutManager,
    pub index: usize,
}

impl<'a> ContainerBuilder<'a> {
    /// The builder's container is one of its manager's.
    pub open spec fn wf(&self) -> bool {
        self.index < self.manager.containers@.len()
    }

    /// The container that is being set up.
    pub open spec fn container(&self) -> Container {
        self.manager.containers@[self.index as int]
    }

    /// Whether `next` is this builder with `container` in place of its
    /// own.
    pub open spec fn becomes(&self, next: &ContainerBuilder<'a>, container: Container) -> bool {
        &&& next.index == self.index
        &&& next.manager.containers@ == self.manager.containers@.update(
            self.index as int,
            container,
        )
    }

    /// Sets the anchor.
    pub fn position(self, x: i32, y: i32) -> (r: Self)
        requires
            self.wf(),
        ensures
            r.wf(),
            self.becomes(&r, Container { x, y, ..self.container() }),
            *final(r.manager) == *final(self.manager),
    {
        let c = &mut self.manager.containers[self.index];
        c.x = x;
        c.y = y;
        self
    }

    /// Sets the padding.
    pub fn padding(self, padding: i32) -> (r: Self)
        requires
            self.wf(),
        ensures
            r.wf(),
            self.becomes(&r, Container { padding, ..self.container() }),
            *final(r.manager) == *final(self.manager),
    {
        self.manager.containers[self.index].padding = padding;
        self
    }

    /// Sets the gap.
    pub fn gap(self, gap: i32) -> (r: Self)
        requires
            self.wf(),
        ensures
            r.wf(),
            self.becomes(&r, Container { gap, ..self.container() }),
            *final(r.manager) == *final(self.manager),
    {
        self.manager.containers[self.index].gap = gap;
        self
    }

    /// Adds the widget of `handle` as the last member.
    pub fn add<T: Widget>(self, handle: WidgetHandle<T>) -> (r: Self)
        requires
            self.wf(),
        ensures
            r.wf(),
            r.index == self.index,
            r.manager.containers@.len() == old(self.manager).containers@.len(),
            forall|i: int|
                0 <= i < r.manager.containers@.len() && i != self.index
                    ==> r.manager.containers@[i] == old(self.manager).containers@[i],
            r.container().widget_ids@ == self.container().widget_ids@.push(handle.id),
            r.container() == (Container {
                widget_ids: r.container().widget_ids,
                ..self.container()
            }),
            *final(r.manager) == *final(self.manager),
    {
        self.manager.containers[self.index].widget_ids.push(handle.id);
        self
    }
}

impl LayoutManager {
    /// A layout without containers.
    pub fn new() -> (m: LayoutManager)
        ensures
            m.containers@.len() == 0,
    {
        LayoutManager { containers: Vec::new() }
    }

    /// Whether `c` is a new container with the direction `direction`: at
    /// the origin, without padding, gap or members.
    pub open spec fn empty_stack(c: Container, direction: Direction) -> bool {
        &&& c.direction == direction
        &&& c.x == 0 && c.y == 0 && c.padding == 0 && c.gap == 0
        &&& c.widget_ids@.len() == 0
    }

    /// Adds a container that flows left to right.
    pub fn hstack(&mut self) -> (b: ContainerBuilder<'_>)
        ensures
            b.wf(),
            b.index == old(self).containers@.len(),
            b.manager.containers@.len() == old(self).containers@.len() + 1,
            b.manager.containers@.drop_last() == old(self).containers@,
            Self::empty_stack(b.container(), Direction::H),
            *final(self) == *final(b.manager),
    {
        self.containers.push(
            Container {
                direction: Direction::H,
                x: 0,
                y: 0,
                padding: 0,
                gap: 0,
                widget_ids: Vec::new(),
            },
        );
        let index = self.containers.len() - 1;
        assert(self.containers@.drop_last() =~= old(self).containers@);
        ContainerBuilder { manager: self, index }
    }

    /// Adds a container that flows top to bottom.
    pub fn vstack(&mut self) -> (b: ContainerBuilder<'_>)
        ensures
            b.wf(),
            b.index == old(self).containers@.len(),
            b.manager.containers@.len() == old(self).containers@.len() + 1,
            b.manager.containers@.drop_last() == old(self).containers@,
            Self::empty_stack(b.container(), Direction::V),
            *final(self) == *final(b.manager),
    {
        self.containers.push(
            Container {
                direction: Direction::V,
                x: 0,
                y: 0,
                padding: 0,
                gap: 0,
                widget_ids: Vec::new(),
            },
        );
        let index = self.containers.len() - 1;
        assert(self.containers@.drop_last() =~= old(self).containers@);
        ContainerBuilder { manager: self, index }
    }

    /// Lays out every container, in the order of their creation, so that
    /// the last container that holds a widget places it.
    pub fn compute_all(&self, store: &mut WidgetManager)
        requires
            old(store).wf(),
        ensures
            final(store).wf(),
            final(store).widgets@ == all_laid_out(
                self.containers@,
                old(store).widgets@,
                self.containers@.len() as int,
            ),
            final(store).dirty == old(store).dirty,
            kept(old(store).widgets@, final(store).widgets@),
    {
        let mut n: usize = 0;
        while n < self.containers.len()
            invariant
                n <= self.containers@.len(),
                store.wf(),
                store.dirty == old(store).dirty,
                store.widgets@ == all_laid_out(self.containers@, old(store).widgets@, n as int),
                kept(old(store).widgets@, store.widgets@),
            decreases self.containers@.len() - n,
        {
            self.containers[n].compute(store);
            n += 1;
        }
    }
}

} // verus!
