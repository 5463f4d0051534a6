//! A store of elements that are known by name: rectangles, texts and
//! buttons, each of which can be shown and hidden. A name is given to one
//! element only.
use vstd::prelude::*;
use crate::geometry::{sat, sat_add, Color, FULL};
use crate::scene::{FontId, TextExtent};
use crate::text::same_text;

verus! {

/// A rectangle with a name.
pub struct Rect {
    pub id: String,
    pub x: i32,
    pub y: i32,
    pub w: i32,
    pub h: i32,
    pub color: Color,
    pub outline_color: Color,
    pub outline_thickness: i32,
    pub visible: bool,
}

/// A line of text with a name.
pub struct Text {
    pub id: String,
    pub text: String,
    pub font_id: FontId,
    pub x: i32,
    pub y: i32,
    pub color: Color,
    pub font_size: i32,
    pub font_family: String,
    pub visible: bool,
}

/// A button with a name, as large as its label and the padding around it.
pub struct Button {
    pub id: String,
    pub text: String,
    pub x: i32,
    pub y: i32,
    pub w: i32,
    pub h: i32,
    pub font_id: FontId,
    pub bg_color: Color,
    pub bg_color_hover: Color,
    pub text_color: Color,
    pub text_color_hover: Color,
    pub outline_color: Color,
    pub outline_color_hover: Color,
    pub outline_thickness: i32,
    pub padding: i32,
    pub visible: bool,
}

/// The place of an element in the store.
pub enum Slot {
    Rect(int),
    Text(int),
    Button(int),
    Missing,
}

/// What to do with the visibility of an element.
#[derive(Clone, Copy, Debug, PartialEq, Eq, Structural)]
pub enum Change {
    Show,
    Hide,
    Toggle,
}

impl Change {
    /// The visibility of an element after the change.
    pub open spec fn of(self, visible: bool) -> bool {
        match self {
            Change::Show => true,
            Change::Hide => false,
            Change::Toggle => !visible,
        }
    }

    fn apply(self, visible: bool) -> (r: bool)
        ensures
            r == self.of(visible),
    {
        match self {
            Change::Show => true,
            Change::Hide => false,
            Change::Toggle => !visible,
        }
    }
}

/// The place of the first of `names` that is `id`; the number of names
/// where none is.
pub open spec fn first_named(names: Seq<Seq<char>>, id: Seq<char>) -> int
    decreases names.len(),
{
    if names.len() == 0 {
        0
    } else if names[0] == id {
        0
    } else {
        1 + first_named(names.drop_first(), id)
    }
}

/// `first_named` is the least place at which the name stands.
pub proof fn lemma_first_named(names: Seq<Seq<char>>, id: Seq<char>, i: int)
    requires
        0 <= i <= names.len(),
        forall|j: int| 0 <= j < i ==> names[j] != id,
        i < names.len() ==> names[i] == id,
    ensures
        first_named(names, id) == i,
    decreases names.len(),
{
    if names.len() != 0 && i > 0 {
        let rest = names.drop_first();
        assert forall|j: int| 0 <= j < i - 1 implies rest[j] != id by {
            assert(rest[j] == names[j + 1]);
        }
        lemma_first_named(rest, id, i - 1);
    }
}

/// An element that is known by a name.
pub trait Named {
    /// The name of the element.
    spec fn name(&self) -> Seq<char>;

    /// The name of the element.
    fn name_str(&self) -> (r: &str)
        ensures
            r@ == self.name(),
    ;
}

impl Named for Rect {
    open spec fn name(&self) -> Seq<char> {
        self.id@
    }

    fn name_str(&self) -> (r: &str) {
        self.id.as_str()
    }
}

impl Named for Text {
    open spec fn name(&self) -> Seq<char> {
        self.id@
    }

    fn name_str(&self) -> (r: &str) {
        self.id.as_str()
    }
}

impl Named for Button {
    open spec fn name(&self) -> Seq<char> {
        self.id@
    }

    fn name_str(&self) -> (r: &str) {
        self.id.as_str()
    }
}

/// The names of a list of elements, in order.
pub open spec fn names_of<T: Named>(items: Seq<T>) -> Seq<Seq<char>> {
    items.map_values(|t: T| t.name())
}

/// The place of the first of `items` that is named `id`.
fn find<T: Named>(items: &Vec<T>, id: &str) -> (r: Option<usize>)
    ensures
        match r {
            Some(i) => i < items@.len() && first_named(names_of(items@), id@) == i,
            None => first_named(names_of(items@), id@) == items@.len(),
        },
{
    let mut i: usize = 0;
    while i < items.len()
        invariant
            i <= items@.len(),
            forall|j: int| 0 <= j < i ==> names_of(items@)[j] != id@,
        decreases items@.len() - i,
    {
        if same_text(items[i].name_str(), id) {
            proof {
                lemma_first_named(names_of(items@), id@, i as int);
            }
            return Some(i);
        }
        i += 1;
    }
    proof {
        lemma_first_named(names_of(items@), id@, i as int);
    }
    None
}

/// The elements of an interface, by kind, each in the order of creation.
pub struct Ui {
    pub rects: Vec<Rect>,
    pub texts: Vec<Text>,
    pub buttons: Vec<Button>,
    /// Whether anything has changed since the flag was last taken.
    pub dirty: bool,
}

impl Ui {
    /// The names of the rectangles, in order.
    pub open spec fn rect_names(&self) -> Seq<Seq<char>> {
        names_of(self.rects@)
    }

    /// The names of the texts, in order.
    pub open spec fn text_names(&self) -> Seq<Seq<char>> {
        names_of(self.texts@)
    }

    /// The names of the buttons, in order.
    pub open spec fn button_names(&self) -> Seq<Seq<char>> {
        names_of(self.buttons@)
    }

    /// Where the element named `id` stands: the first rectangle of that
    /// name, else the first text, else the first button.
    pub open spec fn slot_of(&self, id: Seq<char>) -> Slot {
        let r = first_named(self.rect_names(), id);
        let t = first_named(self.text_names(), id);
        let b = first_named(self.button_names(), id);
        if r < self.rects@.len() {
            Slot::Rect(r)
        } else if t < self.texts@.len() {
            Slot::Text(t)
        } else if b < self.buttons@.len() {
            Slot::Button(b)
        } else {
            Slot::Missing
        }
    }

    /// Whether an element is named `id`.
    pub open spec fn has(&self, id: Seq<char>) -> bool {
        !(self.slot_of(id) is Missing)
    }

    /// A store without elements.
    pub fn new() -> (ui: Ui)
        ensures
            ui.rects@.len() == 0,
            ui.texts@.len() == 0,
            ui.buttons@.len() == 0,
            !ui.dirty,
    {
        Ui { rects: Vec::new(), texts: Vec::new(), buttons: Vec::new(), dirty: false }
    }

    /// Asks for the next frame to be drawn.
    pub fn mark_dirty(&mut self)
        ensures
            *final(self) == (Ui { dirty: true, ..*old(self) }),
    {
        self.dirty = true;
    }

    /// Whether anything has changed since the last call; the flag is clear
    /// afterwards.
    pub fn take_dirty(&mut self) -> (d: bool)
        ensures
            d == old(self).dirty,
            *final(self) == (Ui { dirty: false, ..*old(self) }),
    {
        let d = self.dirty;
        self.dirty = false;
        d
    }

    /// Whether an element is named `id`.
    pub fn id_exists(&self, id: &str) -> (r: bool)
        ensures
            r == self.has(id@),
    {
        find(&self.rects, id).is_some() || find(&self.texts, id).is_some() || find(&self.buttons, id).is_some()
    }

    /// Adds a visible rectangle under the name `id`, which must be new.
    pub fn rect(
        &mut self,
        id: &str,
        x: i32,
        y: i32,
        w: i32,
        h: i32,
        color: Color,
        outline_color: Color,
        outline_thickness: i32,
    )
        requires
            !old(self).has(id@),
        ensures
            final(self).rects@.len() == old(self).rects@.len() + 1,
            final(self).rects@.drop_last() == old(self).rects@,
            ({
                let r = final(self).rects@.last();
                &&& r.id@ == id@
                &&& r.x == x && r.y == y && r.w == w && r.h == h
                &&& r.color == color
                &&& r.outline_color == outline_color
                &&& r.outline_thickness == outline_thickness
                &&& r.visible
            }),
            final(self).texts == old(self).texts,
            final(self).buttons == old(self).buttons,
            final(self).dirty,
    {
        let new_rect = Rect {
            id: id.to_owned(),
            x,
            y,
            w,
            h,
            color,
            outline_color,
            outline_thickness,
            visible: true,
        };
        self.rects.push(new_rect);
        self.mark_dirty();
        assert(self.rects@.drop_last() =~= old(self).rects@);
    }

    /// Adds a visible text under the name `id`, which must be new. The
    /// size and family are those that the host keeps for the font.
    pub fn text(
        &mut self,
        id: &str,
        text: &str,
        font_id: FontId,
        x: i32,
        y: i32,
        color: Color,
        font_size: i32,
        font_family: &str,
    )
        requires
            !old(self).has(id@),
        ensures
            final(self).texts@.len() == old(self).texts@.len() + 1,
            final(self).texts@.drop_last() == old(self).texts@,
            ({
                let t = final(self).texts@.last();
                &&& t.id@ == id@
                &&& t.text@ == text@
                &&& t.font_id == font_id
                &&& t.x == x && t.y == y
                &&& t.color == color
                &&& t.font_size == font_size
                &&& t.font_family@ == font_family@
                &&& t.visible
            }),
            final(self).rects == old(self).rects,
            final(self).buttons == old(self).buttons,
            final(self).dirty,
    {
        let new_text = Text {
            id: id.to_owned(),
            text: text.to_owned(),
            font_id,
            x,
            y,
            color,
            font_size,
            font_family: font_family.to_owned(),
            visible: true,
        };
        self.texts.push(new_text);
        self.mark_dirty();
        assert(self.texts@.drop_last() =~= old(self).texts@);
    }

    /// The extent of a button around a label of extent `label`: the label
    /// with a padding on either side.
    pub open spec fn padded(label: i32, padding: i32) -> i32 {
        sat(label + sat(padding + padding)) as i32
    }

    /// Adds a visible button under the name `id`, which must be new. The
    /// button is as large as its measured label `label` and the padding
    /// around it; its hover colours are its colours at four fifths.
    pub fn button(
        &mut self,
        id: &str,
        text: &str,
        x: i32,
        y: i32,
        font_id: FontId,
        padding: i32,
        label: TextExtent,
    )
        requires
            !old(self).has(id@),
        ensures
            final(self).buttons@.len() == old(self).buttons@.len() + 1,
            final(self).buttons@.drop_last() == old(self).buttons@,
            ({
                let b = final(self).buttons@.last();
                &&& b.id@ == id@
                &&& b.text@ == text@
                &&& b.x == x && b.y == y
                &&& b.w == Self::padded(label.w, padding)
                &&& b.h == Self::padded(label.h, padding)
                &&& b.font_id == font_id
                &&& b.bg_color == (Color { r: 270, g: 510, b: 710, a: FULL })
                &&& b.bg_color_hover == b.bg_color.faded()
                &&& b.text_color == (Color { r: FULL, g: FULL, b: FULL, a: FULL })
                &&& b.text_color_hover == b.text_color.faded()
                &&& b.outline_color == (Color { r: 0, g: 0, b: 0, a: 0 })
                &&& b.outline_color_hover == b.outline_color.faded()
                &&& b.outline_thickness == 0
                &&& b.padding == padding
                &&& b.visible
            }),
            final(self).rects == old(self).rects,
            final(self).texts == old(self).texts,
            final(self).dirty,
    {
        let bg_color = Color::rgb(270, 510, 710);
        let text_color = Color::white();
        let outline_color = Color::transparent();
        let around = sat_add(padding, padding);
        let new_button = Button {
            id: id.to_owned(),
            text: text.to_owned(),
            x,
            y,
            w: sat_add(label.w, around),
            h: sat_add(label.h, around),
            font_id,
            bg_color,
            bg_color_hover: bg_color.fade(),
            text_color,
            text_color_hover: text_color.fade(),
            outline_color,
            outline_color_hover: outline_color.fade(),
            outline_thickness: 0,
            padding,
            visible: true,
        };
        self.buttons.push(new_button);
        self.mark_dirty();
        assert(self.buttons@.drop_last() =~= old(self).buttons@);
    }

    /// `next` is this store after the visibility of the element named `id`
    /// was changed: the element has its new visibility and the store is
    /// dirty; without such an element nothing has changed.
    pub open spec fn changed(&self, next: Ui, id: Seq<char>, change: Change) -> bool {
        match self.slot_of(id) {
            Slot::Rect(i) => next == (Ui {
                rects: next.rects,
                dirty: true,
                ..*self
            }) && next.rects@ == self.rects@.update(
                i,
                Rect { visible: change.of(self.rects@[i].visible), ..self.rects@[i] },
            ),
            Slot::Text(i) => next == (Ui {
                texts: next.texts,
                dirty: true,
                ..*self
            }) && next.texts@ == self.texts@.update(
                i,
                Text { visible: change.of(self.texts@[i].visible), ..self.texts@[i] },
            ),
            Slot::Button(i) => next == (Ui {
                buttons: next.buttons,
                dirty: true,
                ..*self
            }) && next.buttons@ == self.buttons@.update(
                i,
                Button { visible: change.of(self.buttons@[i].visible), ..self.buttons@[i] },
            ),
            Slot::Missing => next == *self,
        }
    }

    /// Changes the visibility of the element named `id`.
    pub fn set_visibility(&mut self, id: &str, change: Change)
        ensures
            old(self).changed(*final(self), id@, change),
    {
        match find(&self.rects, id) {
            Some(i) => {
                let v = change.apply(self.rects[i].visible);
                self.rects[i].visible = v;
                self.mark_dirty();
                return;
            },
            None => {},
        }
        match find(&self.texts, id) {
            Some(i) => {
                let v = change.apply(self.texts[i].visible);
                self.texts[i].visible = v;
                self.mark_dirty();
                return;
            },
            None => {},
        }
        match find(&self.buttons, id) {
            Some(i) => {
                let v = change.apply(self.buttons[i].visible);
                self.buttons[i].visible = v;
                self.mark_dirty();
                return;
            },
            None => {},
        }
    }

    /// Shows the element named `id`.
    pub fn show(&mut self, id: &str)
        ensures
            old(self).changed(*final(self), id@, Change::Show),
    {
        self.set_visibility(id, Change::Show);
    }

    /// Hides the element named `id`.
    pub fn conceal(&mut self, id: &str)
        ensures
            old(self).changed(*final(self), id@, Change::Hide),
    {
        self.set_visibility(id, Change::Hide);
    }

    /// Shows the element named `id` if it is hidden, and hides it if it is
    /// shown.
    pub fn toggle(&mut self, id: &str)
        ensures
            old(self).changed(*final(self), id@, Change::Toggle),
    {
        self.set_visibility(id, Change::Toggle);
    }

    /// Whether the element named `id` is shown. No element, no show.
    pub open spec fn shown(&self, id: Seq<char>) -> bool {
        match self.slot_of(id) {
            Slot::Rect(i) => self.rects@[i].visible,
            Slot::Text(i) => self.texts@[i].visible,
            Slot::Button(i) => self.buttons@[i].visible,
            Slot::Missing => false,
        }
    }

    /// Whether the element named `id` is shown.
    pub fn is_visible(&self, id: &str) -> (r: bool)
        ensures
            r == self.shown(id@),
    {
        match find(&self.rects, id) {
            Some(i) => {
                return self.rects[i].visible;
            },
            None => {},
        }
        match find(&self.texts, id) {
            Some(i) => {
                return self.texts[i].visible;
            },
            None => {},
        }
        match find(&self.buttons, id) {
            Some(i) => {
                return self.buttons[i].visible;
            },
            None => {},
        }
        false
    }
}

} // verus!
