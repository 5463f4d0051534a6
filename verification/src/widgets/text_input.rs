//! A single-line text input: an edit buffer with a cursor that always stands
//! between two code points, keyboard focus, and a blinking caret.
use vstd::prelude::*;
use vstd::utf8::*;
use crate::geometry::{half, half_of, sat, sat_add, sat_sub, Color, Rect, FULL};
use crate::input::MouseState;
use crate::keys::EditKey;
use crate::scene::{ops, DrawCommand, DrawOp, FontId};
use crate::text::{
    byte_len, chars_before, chars_from, cut, lemma_boundary_in_range, lemma_chars_split,
    lemma_cut_boundary, lemma_cut_chars, lemma_next_boundary, lemma_next_char,
    lemma_prev_boundary, lemma_prev_char, lemma_splice_boundary, lemma_spliced_chars,
    next_boundary, on_boundary, prev_boundary, spliced, string_insert, string_remove, utf8,
};
use crate::widgets::{MeasureRequest, Widget, WidgetKind, WidgetMetrics, WidgetNode};

verus! {

/// After this many milliseconds in focus the caret shows or hides.
pub const BLINK_PERIOD: u32 = 530;

/// The space between the frame of the input and its text.
pub const TEXT_PADDING: i32 = 8000;

/// The width of the caret.
pub const CARET_WIDTH: i32 = 1500;

/// A text input in the store.
pub struct TextInputWidget {
    pub id: usize,
    pub bounds: Rect,
    pub font: Option<FontId>,
    pub bg_color: Color,
    pub focused_color: Color,
    pub outline_color: Color,
    pub focused_outline_color: Color,
    pub outline_thickness: i32,
    pub placeholder: String,
    pub placeholder_color: Color,
    pub text_color: Color,
    pub corner_radius: i32,
    /// The edit buffer.
    pub value: String,
    pub focused: bool,
    /// Whether the last update gave the input the focus.
    pub just_focused: bool,
    /// Whether the last update took the focus away.
    pub just_unfocused: bool,
    /// Whether the buffer was edited since the last update.
    pub just_changed: bool,
    /// The byte offset in the buffer at which edits happen.
    pub cursor: usize,
    /// Milliseconds since the caret last showed or hid.
    pub blink_timer: u32,
    pub cursor_visible: bool,
    pub dirty: bool,
}

impl TextInputWidget {
    /// The cursor stands on a boundary of the buffer, whose length is one
    /// that a machine can hold.
    pub open spec fn wf(&self) -> bool {
        &&& on_boundary(self.value@, self.cursor as int)
        &&& self.bytes().len() <= usize::MAX
    }

    /// The bytes of the buffer.
    pub open spec fn bytes(&self) -> Seq<u8> {
        utf8(self.value@)
    }

    /// The characters before the cursor.
    pub open spec fn before_cursor(&self) -> Seq<char> {
        chars_before(self.value@, self.cursor as int)
    }

    /// The characters after the cursor.
    pub open spec fn after_cursor(&self) -> Seq<char> {
        chars_from(self.value@, self.cursor as int)
    }

    /// Whether the input is well formed.
    pub fn is_wf(&self) -> (r: bool)
        ensures
            r == self.wf(),
    {
        let len = byte_len(&self.value);
        proof {
            encode_utf8_valid_utf8(self.value@);
            if on_boundary(self.value@, self.cursor as int) {
                lemma_boundary_in_range(self.bytes(), self.cursor as int);
            }
        }
        self.cursor <= len && self.value.as_str().is_char_boundary(self.cursor)
    }

    /// Whether this is a new input with the identity `id`: unfocused and
    /// empty, 200 by 32 pixels at the origin, without a font, and dirty.
    pub open spec fn fresh(&self, id: usize) -> bool {
        &&& self.id == id
        &&& self.bounds == (Rect { x: 0, y: 0, w: 200_000, h: 32_000 })
        &&& self.font is None
        &&& self.bg_color == (Color { r: 120, g: 130, b: 160, a: FULL })
        &&& self.focused_color == (Color { r: 140, g: 160, b: 200, a: FULL })
        &&& self.outline_color == (Color { r: 250, g: 280, b: 350, a: FULL })
        &&& self.focused_outline_color == (Color { r: 300, g: 550, b: 1000, a: FULL })
        &&& self.outline_thickness == 1500
        &&& self.placeholder@ == Seq::<char>::empty()
        &&& self.placeholder_color == (Color { r: 400, g: 430, b: 520, a: FULL })
        &&& self.text_color == (Color { r: 880, g: 900, b: 950, a: FULL })
        &&& self.corner_radius == 5000
        &&& self.value@ == Seq::<char>::empty()
        &&& !self.focused && !self.just_focused && !self.just_unfocused && !self.just_changed
        &&& self.cursor == 0
        &&& self.blink_timer == 0
        &&& self.cursor_visible
        &&& self.dirty
    }

    /// A new input with the identity `id`.
    pub fn new(id: usize) -> (w: TextInputWidget)
        ensures
            w.wf(),
            w.fresh(id),
    {
        let w = TextInputWidget {
            id,
            bounds: Rect { x: 0, y: 0, w: 200_000, h: 32_000 },
            font: None,
            bg_color: Color { r: 120, g: 130, b: 160, a: FULL },
            focused_color: Color { r: 140, g: 160, b: 200, a: FULL },
            outline_color: Color { r: 250, g: 280, b: 350, a: FULL },
            focused_outline_color: Color { r: 300, g: 550, b: 1000, a: FULL },
            outline_thickness: 1500,
            placeholder: String::new(),
            placeholder_color: Color { r: 400, g: 430, b: 520, a: FULL },
            text_color: Color { r: 880, g: 900, b: 950, a: FULL },
            corner_radius: 5000,
            value: String::new(),
            focused: false,
            just_focused: false,
            just_unfocused: false,
            just_changed: false,
            cursor: 0,
            blink_timer: 0,
            cursor_visible: true,
            dirty: true,
        };
        proof {
            encode_utf8_valid_utf8(w.value@);
        }
        w
    }

    /// Moves the input.
    pub fn position(&mut self, x: i32, y: i32) -> (r: &mut Self)
        ensures
            *r == (TextInputWidget {
                bounds: Rect { x, y, ..old(self).bounds },
                dirty: true,
                ..*old(self)
            }),
            *final(self) == *final(r),
    {
        self.bounds.x = x;
        self.bounds.y = y;
        self.dirty = true;
        self
    }

    /// Resizes the input.
    pub fn size(&mut self, w: i32, h: i32) -> (r: &mut Self)
        ensures
            *r == (TextInputWidget {
                bounds: Rect { w, h, ..old(self).bounds },
                dirty: true,
                ..*old(self)
            }),
            *final(self) == *final(r),
    {
        self.bounds.w = w;
        self.bounds.h = h;
        self.dirty = true;
        self
    }

    /// Sets the font, without which the input cannot be rendered.
    pub fn font(&mut self, font_id: FontId) -> (r: &mut Self)
        ensures
            *r == (TextInputWidget { font: Some(font_id), dirty: true, ..*old(self) }),
            *final(self) == *final(r),
    {
        self.font = Some(font_id);
        self.dirty = true;
        self
    }

    /// Sets the text that an empty input shows.
    pub fn placeholder(&mut self, text: &str) -> (r: &mut Self)
        ensures
            r.placeholder@ == text@,
            *r == (TextInputWidget { placeholder: r.placeholder, dirty: true, ..*old(self) }),
            *final(self) == *final(r),
    {
        self.placeholder = text.to_owned();
        self.dirty = true;
        self
    }

    /// Sets the colour of the inside while the input is unfocused.
    pub fn bg_color(&mut self, color: Color) -> (r: &mut Self)
        ensures
            *r == (TextInputWidget { bg_color: color, dirty: true, ..*old(self) }),
            *final(self) == *final(r),
    {
        self.bg_color = color;
        self.dirty = true;
        self
    }

    /// Sets the colour of the inside while the input has the focus.
    pub fn focused_color(&mut self, color: Color) -> (r: &mut Self)
        ensures
            *r == (TextInputWidget { focused_color: color, dirty: true, ..*old(self) }),
            *final(self) == *final(r),
    {
        self.focused_color = color;
        self.dirty = true;
        self
    }

    /// Sets the colour of the outline while the input is unfocused.
    pub fn outline_color(&mut self, color: Color) -> (r: &mut Self)
        ensures
            *r == (TextInputWidget { outline_color: color, dirty: true, ..*old(self) }),
            *final(self) == *final(r),
    {
        self.outline_color = color;
        self.dirty = true;
        self
    }

    /// Sets the colour of the outline while the input has the focus.
    pub fn focused_outline_color(&mut self, color: Color) -> (r: &mut Self)
        ensures
            *r == (TextInputWidget { focused_outline_color: color, dirty: true, ..*old(self) }),
            *final(self) == *final(r),
    {
        self.focused_outline_color = color;
        self.dirty = true;
        self
    }

    /// Sets the colour of the text.
    pub fn text_color(&mut self, color: Color) -> (r: &mut Self)
        ensures
            *r == (TextInputWidget { text_color: color, dirty: true, ..*old(self) }),
            *final(self) == *final(r),
    {
        self.text_color = color;
        self.dirty = true;
        self
    }

    /// Sets the radius of the corners.
    pub fn corner_radius(&mut self, radius: i32) -> (r: &mut Self)
        ensures
            *r == (TextInputWidget { corner_radius: radius, dirty: true, ..*old(self) }),
            *final(self) == *final(r),
    {
        self.corner_radius = radius;
        self.dirty = true;
        self
    }

    /// Replaces the buffer and puts the cursor at its end.
    pub fn value(&mut self, text: &str) -> (r: &mut Self)
        ensures
            r.wf(),
            r.value@ == text@,
            r.cursor == utf8(text@).len(),
            *r == (TextInputWidget { value: r.value, cursor: r.cursor, dirty: true, ..*old(self) }),
            *final(self) == *final(r),
    {
        self.value = text.to_owned();
        let len = byte_len(&self.value);
        self.cursor = len;
        self.dirty = true;
        proof {
            encode_utf8_valid_utf8(self.value@);
            is_char_boundary_start_end_of_seq(utf8(self.value@));
        }
        self
    }

    /// `next` is this input after an edit that left `bytes` in the buffer
    /// and the cursor at `cursor`.
    pub open spec fn edited(&self, next: TextInputWidget, bytes: Seq<u8>, cursor: int) -> bool {
        &&& next.bytes() == bytes
        &&& bytes.len() <= usize::MAX
        &&& next.cursor == cursor
        &&& next == (TextInputWidget {
            value: next.value,
            cursor: next.cursor,
            just_changed: true,
            dirty: true,
            ..*self
        })
    }

    /// This input with the cursor at `cursor`.
    pub open spec fn with_cursor(&self, cursor: int) -> TextInputWidget {
        TextInputWidget { cursor: cursor as usize, dirty: true, ..*self }
    }

    /// `next` is this input after `c` was typed: the encoding of `c` stands
    /// where the cursor was, and the cursor after it.
    pub open spec fn inserted(&self, next: TextInputWidget, c: char) -> bool {
        self.edited(
            next,
            spliced(self.bytes(), self.cursor as int, encode_scalar(c as u32)),
            self.cursor + encode_scalar(c as u32).len(),
        )
    }

    /// `next` is this input after a backspace: without the code point before
    /// the cursor, or unchanged where the cursor is at the start.
    pub open spec fn backspaced(&self, next: TextInputWidget) -> bool {
        if self.cursor == 0 {
            next == *self
        } else {
            let start = prev_boundary(self.bytes(), self.cursor as int);
            self.edited(next, cut(self.bytes(), start, self.cursor as int), start)
        }
    }

    /// `next` is this input after a forward delete: without the code point
    /// after the cursor, or unchanged where the cursor is at the end.
    pub open spec fn deleted_forward(&self, next: TextInputWidget) -> bool {
        if self.cursor >= self.bytes().len() {
            next == *self
        } else {
            let end = next_boundary(self.bytes(), self.cursor as int);
            self.edited(next, cut(self.bytes(), self.cursor as int, end), self.cursor as int)
        }
    }

    /// This input with the cursor one code point to the left, or unchanged
    /// where the cursor is at the start.
    pub open spec fn moved_left(&self) -> TextInputWidget {
        if self.cursor == 0 {
            *self
        } else {
            self.with_cursor(prev_boundary(self.bytes(), self.cursor as int))
        }
    }

    /// This input with the cursor one code point to the right, or unchanged
    /// where the cursor is at the end.
    pub open spec fn moved_right(&self) -> TextInputWidget {
        if self.cursor >= self.bytes().len() {
            *self
        } else {
            self.with_cursor(next_boundary(self.bytes(), self.cursor as int))
        }
    }

    /// `next` is this input after the editing key `key`.
    pub open spec fn keyed(&self, next: TextInputWidget, key: EditKey) -> bool {
        match key {
            EditKey::Backspace => self.backspaced(next),
            EditKey::Delete => self.deleted_forward(next),
            EditKey::Left => next == self.moved_left(),
            EditKey::Right => next == self.moved_right(),
            EditKey::Home => next == self.with_cursor(0),
            EditKey::End => next == self.with_cursor(self.bytes().len() as int),
        }
    }

    /// Typing a character leaves the cursor on a boundary.
    pub proof fn lemma_inserted_keeps_boundary(&self, next: TextInputWidget, c: char)
        requires
            self.wf(),
            self.inserted(next, c),
        ensures
            next.wf(),
            next.focused == self.focused,
    {
        encode_utf8_valid_utf8(self.value@);
        lemma_splice_boundary(self.bytes(), self.cursor as int, c);
    }

    /// No editing key takes the cursor off a boundary: not backspace or
    /// forward delete, nor a move to the left, to the right, to the start
    /// or to the end, from any boundary of any buffer.
    pub proof fn lemma_keyed_keeps_boundary(&self, next: TextInputWidget, key: EditKey)
        requires
            self.wf(),
            self.keyed(next, key),
        ensures
            next.wf(),
            next.focused == self.focused,
    {
        let bytes = self.bytes();
        let cursor = self.cursor as int;
        encode_utf8_valid_utf8(self.value@);
        encode_utf8_valid_utf8(next.value@);
        lemma_boundary_in_range(bytes, cursor);
        is_char_boundary_start_end_of_seq(bytes);
        if cursor > 0 {
            lemma_prev_boundary(bytes, cursor);
            lemma_cut_boundary(bytes, prev_boundary(bytes, cursor), cursor);
        }
        if cursor < bytes.len() {
            lemma_next_boundary(bytes, cursor);
            lemma_cut_boundary(bytes, cursor, next_boundary(bytes, cursor));
        }
    }

    /// The buffer is the characters before the cursor and those after it.
    pub proof fn lemma_cursor_splits(&self)
        requires
            self.wf(),
        ensures
            self.value@ == self.before_cursor() + self.after_cursor(),
    {
        lemma_chars_split(self.value@, self.cursor as int);
    }

    /// In characters, typing `c` puts it before the cursor.
    pub proof fn lemma_inserted_text(&self, next: TextInputWidget, c: char)
        requires
            self.wf(),
            self.inserted(next, c),
        ensures
            next.before_cursor() == self.before_cursor().push(c),
            next.after_cursor() == self.after_cursor(),
    {
        lemma_spliced_chars(self.value@, next.value@, self.cursor as int, c);
    }

    /// In characters, a backspace takes out the last character before the
    /// cursor.
    pub proof fn lemma_backspaced_text(&self, next: TextInputWidget)
        requires
            self.wf(),
            self.cursor > 0,
            self.backspaced(next),
        ensures
            self.before_cursor().len() > 0,
            next.before_cursor() == self.before_cursor().drop_last(),
            next.after_cursor() == self.after_cursor(),
    {
        let bytes = self.bytes();
        let i = self.cursor as int;
        encode_utf8_valid_utf8(self.value@);
        lemma_prev_boundary(bytes, i);
        lemma_prev_char(self.value@, i);
        lemma_cut_chars(self.value@, next.value@, prev_boundary(bytes, i), i);
    }

    /// In characters, a forward delete takes out the first character after
    /// the cursor.
    pub proof fn lemma_deleted_text(&self, next: TextInputWidget)
        requires
            self.wf(),
            self.cursor < self.bytes().len(),
            self.deleted_forward(next),
        ensures
            self.after_cursor().len() > 0,
            next.before_cursor() == self.before_cursor(),
            next.after_cursor() == self.after_cursor().drop_first(),
    {
        let bytes = self.bytes();
        let i = self.cursor as int;
        encode_utf8_valid_utf8(self.value@);
        lemma_next_boundary(bytes, i);
        lemma_next_char(self.value@, i);
        lemma_cut_chars(self.value@, next.value@, i, next_boundary(bytes, i));
    }

    /// In characters, a move to the left takes the cursor over the last
    /// character before it, and a move to the right over the first after
    /// it.
    pub proof fn lemma_moved_text(&self)
        requires
            self.wf(),
        ensures
            self.cursor > 0 ==> self.moved_left().before_cursor()
                == self.before_cursor().drop_last() && self.moved_left().after_cursor() == seq![
                self.before_cursor().last(),
            ] + self.after_cursor(),
            self.cursor < self.bytes().len() ==> self.moved_right().before_cursor()
                == self.before_cursor().push(self.after_cursor()[0])
                && self.moved_right().after_cursor() == self.after_cursor().drop_first(),
    {
        let bytes = self.bytes();
        let i = self.cursor as int;
        encode_utf8_valid_utf8(self.value@);
        lemma_boundary_in_range(bytes, i);
        if i > 0 {
            lemma_prev_boundary(bytes, i);
            lemma_prev_char(self.value@, i);
        }
        if i < bytes.len() {
            lemma_next_boundary(bytes, i);
            lemma_next_char(self.value@, i);
        }
    }

    /// The boundary before `from`, found by walking back over continuation
    /// bytes.
    fn boundary_before(&self, from: usize) -> (at: usize)
        requires
            on_boundary(self.value@, from as int),
            from > 0,
        ensures
            at == prev_boundary(self.bytes(), from as int),
            at < from,
            on_boundary(self.value@, at as int),
            next_boundary(self.bytes(), at as int) == from,
    {
        proof {
            encode_utf8_valid_utf8(self.value@);
        }
        let mut at: usize = from - 1;
        while !self.value.as_str().is_char_boundary(at)
            invariant
                valid_utf8(self.bytes()),
                at < from,
                forall|j: int| at < j < from ==> !is_char_boundary(self.bytes(), j),
            decreases at,
        {
            at -= 1;
        }
        proof {
            lemma_prev_boundary(self.bytes(), from as int);
        }
        at
    }

    /// The boundary after `from`, found by walking on over continuation
    /// bytes.
    fn boundary_after(&self, from: usize) -> (at: usize)
        requires
            on_boundary(self.value@, from as int),
            from < self.bytes().len(),
        ensures
            at == next_boundary(self.bytes(), from as int),
            from < at <= self.bytes().len(),
            on_boundary(self.value@, at as int),
    {
        proof {
            encode_utf8_valid_utf8(self.value@);
            lemma_next_boundary(self.bytes(), from as int);
        }
        let len = byte_len(&self.value);
        let mut at: usize = from + 1;
        while !self.value.as_str().is_char_boundary(at)
            invariant
                valid_utf8(self.bytes()),
                len == self.bytes().len(),
                from < at <= next_boundary(self.bytes(), from as int) <= len,
                is_char_boundary(self.bytes(), next_boundary(self.bytes(), from as int)),
            decreases len - at,
        {
            at += 1;
        }
        at
    }

    /// Types `c` at the cursor.
    pub fn insert_char(&mut self, c: char)
        requires
            old(self).wf(),
        ensures
            final(self).wf(),
            old(self).inserted(*final(self), c),
    {
        proof {
            encode_utf8_valid_utf8(self.value@);
            lemma_splice_boundary(self.bytes(), self.cursor as int, c);
            lemma_boundary_in_range(self.bytes(), self.cursor as int);
        }
        string_insert(&mut self.value, self.cursor, c);
        let len = byte_len(&self.value);
        let width = c.len_utf8();
        assert(self.cursor + width <= len);
        self.cursor += width;
        self.just_changed = true;
        self.dirty = true;
    }

    /// Removes the code point before the cursor.
    pub fn backspace(&mut self)
        requires
            old(self).wf(),
        ensures
            final(self).wf(),
            old(self).backspaced(*final(self)),
    {
        if self.cursor == 0 {
            return;
        }
        let start = self.boundary_before(self.cursor);
        proof {
            encode_utf8_valid_utf8(self.value@);
            lemma_cut_boundary(self.bytes(), start as int, self.cursor as int);
        }
        string_remove(&mut self.value, start);
        self.cursor = start;
        self.just_changed = true;
        self.dirty = true;
    }

    /// Removes the code point after the cursor.
    pub fn delete_forward(&mut self)
        requires
            old(self).wf(),
        ensures
            final(self).wf(),
            old(self).deleted_forward(*final(self)),
    {
        if self.cursor >= byte_len(&self.value) {
            return;
        }
        proof {
            encode_utf8_valid_utf8(self.value@);
            lemma_next_boundary(self.bytes(), self.cursor as int);
            lemma_cut_boundary(
                self.bytes(),
                self.cursor as int,
                next_boundary(self.bytes(), self.cursor as int),
            );
        }
        string_remove(&mut self.value, self.cursor);
        self.just_changed = true;
        self.dirty = true;
    }

    /// Moves the cursor one code point to the left.
    pub fn move_cursor_left(&mut self)
        requires
            old(self).wf(),
        ensures
            final(self).wf(),
            *final(self) == old(self).moved_left(),
    {
        if self.cursor == 0 {
            return;
        }
        let at = self.boundary_before(self.cursor);
        self.cursor = at;
        self.dirty = true;
    }

    /// Moves the cursor one code point to the right.
    pub fn move_cursor_right(&mut self)
        requires
            old(self).wf(),
        ensures
            final(self).wf(),
            *final(self) == old(self).moved_right(),
    {
        if self.cursor >= byte_len(&self.value) {
            return;
        }
        let at = self.boundary_after(self.cursor);
        self.cursor = at;
        self.dirty = true;
    }

    /// Moves the cursor to the start of the buffer.
    pub fn move_cursor_home(&mut self)
        requires
            old(self).wf(),
        ensures
            final(self).wf(),
            *final(self) == old(self).with_cursor(0),
    {
        proof {
            encode_utf8_valid_utf8(self.value@);
        }
        self.cursor = 0;
        self.dirty = true;
    }

    /// Moves the cursor to the end of the buffer.
    pub fn move_cursor_end(&mut self)
        requires
            old(self).wf(),
        ensures
            final(self).wf(),
            *final(self) == old(self).with_cursor(old(self).bytes().len() as int),
    {
        proof {
            encode_utf8_valid_utf8(self.value@);
            is_char_boundary_start_end_of_seq(self.bytes());
        }
        self.cursor = byte_len(&self.value);
        self.dirty = true;
    }

    /// Carries out the editing key `key`.
    pub fn apply_key(&mut self, key: EditKey)
        requires
            old(self).wf(),
        ensures
            final(self).wf(),
            old(self).keyed(*final(self), key),
    {
        match key {
            EditKey::Backspace => self.backspace(),
            EditKey::Delete => self.delete_forward(),
            EditKey::Left => self.move_cursor_left(),
            EditKey::Right => self.move_cursor_right(),
            EditKey::Home => self.move_cursor_home(),
            EditKey::End => self.move_cursor_end(),
        }
    }

    /// This input after a frame with the pointer in state `mouse`, where
    /// `admitted` says whether a press of the left button is meant for this
    /// input. A press that is meant for it gives an unfocused input the
    /// focus, any other press takes it from a focused one; either way the
    /// caret starts a new blink, visible, and the input is dirty.
    pub open spec fn routed(&self, mouse: MouseState, admitted: bool) -> TextInputWidget {
        let gains = mouse.left_just_pressed && admitted && !self.focused;
        let loses = mouse.left_just_pressed && !admitted && self.focused;
        TextInputWidget {
            focused: if mouse.left_just_pressed {
                admitted
            } else {
                self.focused
            },
            just_focused: gains,
            just_unfocused: loses,
            just_changed: false,
            cursor_visible: gains || loses || self.cursor_visible,
            blink_timer: if gains || loses {
                0
            } else {
                self.blink_timer
            },
            dirty: self.dirty || gains || loses,
            ..*self
        }
    }

    /// This input, on its own, after a frame with the pointer in state
    /// `mouse`: a press is meant for it exactly if it lands in its bounds.
    pub open spec fn updated(&self, mouse: MouseState) -> TextInputWidget {
        self.routed(mouse, self.bounds.holds(mouse.x as int, mouse.y as int))
    }

    /// Brings the input up to date with the pointer. `admitted` says
    /// whether a press of the left button is meant for this input; the
    /// store admits one input at most.
    pub fn route(&mut self, mouse: &MouseState, admitted: bool)
        ensures
            *final(self) == old(self).routed(*mouse, admitted),
    {
        self.just_focused = false;
        self.just_unfocused = false;
        self.just_changed = false;
        if mouse.left_just_pressed {
            if admitted && !self.focused {
                self.focused = true;
                self.just_focused = true;
                self.cursor_visible = true;
                self.blink_timer = 0;
                self.dirty = true;
            } else if !admitted && self.focused {
                self.focused = false;
                self.just_unfocused = true;
                self.cursor_visible = true;
                self.blink_timer = 0;
                self.dirty = true;
            }
        }
    }

    /// Whether `dt` more milliseconds make the caret of this input show or
    /// hide.
    pub open spec fn blinks(&self, dt: u32) -> bool {
        self.focused && self.blink_timer + dt >= BLINK_PERIOD
    }

    /// This input `dt` milliseconds later.
    pub open spec fn ticked(&self, dt: u32) -> TextInputWidget {
        if !self.focused {
            *self
        } else if self.blinks(dt) {
            TextInputWidget {
                blink_timer: 0,
                cursor_visible: !self.cursor_visible,
                dirty: true,
                ..*self
            }
        } else {
            TextInputWidget { blink_timer: (self.blink_timer + dt) as u32, ..*self }
        }
    }

    /// Lets `dt` milliseconds pass, and says whether the caret showed or hid.
    /// Time does not pass for an input without the focus.
    pub fn tick_blink(&mut self, dt: u32) -> (flipped: bool)
        ensures
            flipped == old(self).blinks(dt),
            *final(self) == old(self).ticked(dt),
    {
        if !self.focused {
            return false;
        }
        self.blink_timer = self.blink_timer.saturating_add(dt);
        if self.blink_timer >= BLINK_PERIOD {
            self.blink_timer = 0;
            self.cursor_visible = !self.cursor_visible;
            self.dirty = true;
            return true;
        }
        false
    }

    /// The part of the buffer before the cursor: the text whose measured
    /// width places the caret.
    pub fn text_before_cursor(&self) -> (r: &str)
        requires
            self.wf(),
        ensures
            r@ == self.before_cursor(),
    {
        let (before, _) = self.value.as_str().split_at(self.cursor);
        proof {
            encode_utf8_decode_utf8(before@);
        }
        before
    }

    /// The colour of the frame's inside.
    pub open spec fn fill(&self) -> Color {
        if self.focused {
            self.focused_color
        } else {
            self.bg_color
        }
    }

    /// The colour of the frame's outline.
    pub open spec fn outline(&self) -> Color {
        if self.focused {
            self.focused_outline_color
        } else {
            self.outline_color
        }
    }

    /// The text that the input shows: the placeholder while the buffer is
    /// empty and there is one, else the buffer.
    pub open spec fn shown_text(&self) -> Seq<char> {
        if self.value@.len() == 0 && self.placeholder@.len() != 0 {
            self.placeholder@
        } else {
            self.value@
        }
    }

    /// The top edge of something `height` high that is centred in the
    /// bounds.
    pub open spec fn centred(&self, height: i32) -> i32 {
        sat(self.bounds.y + half(sat(self.bounds.h - height))) as i32
    }

    /// The frame of the input.
    pub open spec fn frame_op(&self) -> DrawOp {
        DrawOp::RoundedRect {
            x: self.bounds.x,
            y: self.bounds.y,
            w: self.bounds.w,
            h: self.bounds.h,
            radius: self.corner_radius,
            color: self.fill(),
            outline_color: self.outline(),
            outline_thickness: self.outline_thickness,
        }
    }

    /// The text of the input, centred on the height of the reference glyph.
    pub open spec fn text_op(&self, metrics: WidgetMetrics) -> DrawOp {
        DrawOp::Text {
            text: self.shown_text(),
            font: self.font,
            x: sat(self.bounds.x + TEXT_PADDING) as i32,
            y: self.centred(metrics.glyph.h),
        }
    }

    /// The caret: as far right of the text's start as the text before the
    /// cursor is wide, and as high as that text; as high as the reference
    /// glyph where there is no text before the cursor.
    pub open spec fn caret_op(&self, metrics: WidgetMetrics) -> DrawOp {
        let offset = if self.cursor == 0 {
            0
        } else {
            metrics.probe.w
        };
        let height = if self.cursor == 0 {
            metrics.glyph.h
        } else {
            metrics.probe.h
        };
        DrawOp::Rect {
            x: sat(sat(self.bounds.x + TEXT_PADDING) + offset) as i32,
            y: self.centred(height),
            w: CARET_WIDTH,
            h: height,
            color: Color { r: FULL, g: FULL, b: FULL, a: 800 },
            outline_color: Color { r: 0, g: 0, b: 0, a: 0 },
            outline_thickness: 0,
        }
    }

    /// What the input draws: its frame, its text, and the caret while the
    /// input has the focus and the caret shows.
    pub open spec fn drawn(&self, metrics: WidgetMetrics) -> Seq<DrawOp> {
        if self.focused && self.cursor_visible {
            seq![self.frame_op(), self.text_op(metrics), self.caret_op(metrics)]
        } else {
            seq![self.frame_op(), self.text_op(metrics)]
        }
    }

    fn centre(&self, height: i32) -> (r: i32)
        ensures
            r == self.centred(height),
    {
        sat_add(self.bounds.y, half_of(sat_sub(self.bounds.h, height)))
    }

    /// Draws the input. `metrics.glyph` is the extent of the reference
    /// glyph in the input's font, `metrics.probe` that of the text before
    /// the cursor.
    pub fn draw(&self, metrics: &WidgetMetrics) -> (r: Vec<DrawCommand>)
        requires
            self.font is Some,
        ensures
            ops(r@) == self.drawn(*metrics),
    {
        let mut out: Vec<DrawCommand> = Vec::new();
        let bg = if self.focused {
            self.focused_color
        } else {
            self.bg_color
        };
        let outline = if self.focused {
            self.focused_outline_color
        } else {
            self.outline_color
        };
        out.push(
            DrawCommand::RoundedRect {
                x: self.bounds.x,
                y: self.bounds.y,
                w: self.bounds.w,
                h: self.bounds.h,
                radius: self.corner_radius,
                color: bg,
                outline_color: outline,
                outline_thickness: self.outline_thickness,
            },
        );
        let text_x = sat_add(self.bounds.x, TEXT_PADDING);
        let text_y = self.centre(metrics.glyph.h);
        let shown = if self.value.as_str().is_empty() && !self.placeholder.as_str().is_empty() {
            self.placeholder.clone()
        } else {
            self.value.clone()
        };
        out.push(DrawCommand::Text { text: shown, font: self.font, x: text_x, y: text_y });
        if self.focused && self.cursor_visible {
            let (offset, height) = if self.cursor == 0 {
                (0, metrics.glyph.h)
            } else {
                (metrics.probe.w, metrics.probe.h)
            };
            out.push(
                DrawCommand::Rect {
                    x: sat_add(text_x, offset),
                    y: self.centre(height),
                    w: CARET_WIDTH,
                    h: height,
                    color: Color { r: FULL, g: FULL, b: FULL, a: 800 },
                    outline_color: Color { r: 0, g: 0, b: 0, a: 0 },
                    outline_thickness: 0,
                },
            );
        }
        assert(ops(out@) =~= self.drawn(*metrics));
        out
    }
}

impl Widget for TextInputWidget {
    open spec fn kind() -> WidgetKind {
        WidgetKind::TextInput
    }

    open spec fn erased(self) -> WidgetNode {
        WidgetNode::TextInput(self)
    }

    fn id(&self) -> (r: usize) {
        self.id
    }

    fn bounds(&self) -> (r: Rect) {
        self.bounds
    }

    fn set_bounds(&mut self, bounds: Rect) {
        if bounds != self.bounds {
            self.bounds = bounds;
            self.dirty = true;
        }
    }

    fn update(&mut self, mouse: &MouseState) {
        let inside = self.bounds.contains(mouse.x, mouse.y);
        self.route(mouse, inside);
    }

    fn layout(&mut self, metrics: &WidgetMetrics) {
    }

    fn render(&self, metrics: &WidgetMetrics) -> (r: Vec<DrawCommand>) {
        self.draw(metrics)
    }

    fn probe(&self) -> (r: MeasureRequest) {
        MeasureRequest { font: self.font, text: self.text_before_cursor().to_owned() }
    }

    fn is_dirty(&self) -> (r: bool) {
        self.dirty
    }

    fn clear_dirty(&mut self) {
        self.dirty = false;
    }

    fn downcast(node: &WidgetNode) -> (r: Option<&Self>) {
        match node {
            WidgetNode::TextInput(w) => Some(w),
            _ => None,
        }
    }

    fn downcast_mut(node: &mut WidgetNode) -> (r: Option<&mut Self>) {
        match node {
            WidgetNode::TextInput(w) => Some(w),
            _ => None,
        }
    }
}

} // verus!
