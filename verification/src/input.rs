//! The pointer state that the host samples once per frame.
use vstd::prelude::*;

verus! {

/// Position and buttons of the pointer in one frame. The `just_` flags hold
/// only in the frame in which the button went down or came up.
#[derive(Clone, Copy, Debug, PartialEq, Eq, Structural)]
pub struct MouseState {
    pub x: i32,
    pub y: i32,
    pub left_pressed: bool,
    pub left_just_pressed: bool,
    pub left_just_released: bool,
    pub right_pressed: bool,
    pub right_just_pressed: bool,
    pub right_just_released: bool,
}

impl MouseState {
    /// The pointer at the origin with no button down.
    pub open spec fn at_rest() -> MouseState {
        MouseState {
            x: 0,
            y: 0,
            left_pressed: false,
            left_just_pressed: false,
            left_just_released: false,
            right_pressed: false,
            right_just_pressed: false,
            right_just_released: false,
        }
    }

    /// Whether a button went down or came up in this frame.
    pub open spec fn button_edge(self) -> bool {
        ||| self.left_just_pressed
        ||| self.left_just_released
        ||| self.right_just_pressed
        ||| self.right_just_released
    }

    /// The state of the pointer one frame after this one, when the pointer
    /// is at `(x, y)` and the buttons are down as given: a button has just
    /// been pressed if it is down and was not, and just been released if it
    /// was down and is not.
    pub open spec fn advanced(self, x: i32, y: i32, left_down: bool, right_down: bool) -> MouseState {
        MouseState {
            x,
            y,
            left_pressed: left_down,
            left_just_pressed: left_down && !self.left_pressed,
            left_just_released: !left_down && self.left_pressed,
            right_pressed: right_down,
            right_just_pressed: right_down && !self.right_pressed,
            right_just_released: !right_down && self.right_pressed,
        }
    }

    /// The state of the pointer in the next frame.
    pub fn advance(&self, x: i32, y: i32, left_down: bool, right_down: bool) -> (m: MouseState)
        ensures
            m == self.advanced(x, y, left_down, right_down),
    {
        MouseState {
            x,
            y,
            left_pressed: left_down,
            left_just_pressed: left_down && !self.left_pressed,
            left_just_released: !left_down && self.left_pressed,
            right_pressed: right_down,
            right_just_pressed: right_down && !self.right_pressed,
            right_just_released: !right_down && self.right_pressed,
        }
    }

    /// Whether a button went down or came up in this frame.
    pub fn has_button_edge(&self) -> (r: bool)
        ensures
            r == self.button_edge(),
    {
        self.left_just_pressed || self.left_just_released || self.right_just_pressed
            || self.right_just_released
    }
}

impl Default for MouseState {
    /// The pointer at the origin with no button down.
    fn default() -> (m: MouseState)
        ensures
            m == MouseState::at_rest(),
    {
        MouseState {
            x: 0,
            y: 0,
            left_pressed: false,
            left_just_pressed: false,
            left_just_released: false,
            right_pressed: false,
            right_just_pressed: false,
            right_just_released: false,
        }
    }
}

} // verus!
