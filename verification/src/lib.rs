//! A retained-mode user-interface core.
//!
//! Widgets are registered once in a [`widgets::manager::WidgetManager`],
//! which owns their state across frames, updates them from pointer and
//! keyboard input, and reports through a dirty flag whether anything has to
//! be drawn again. A [`layout::LayoutManager`] flows widgets along stacks,
//! and every widget renders itself into a list of [`scene::DrawCommand`]s
//! for the host's renderer.
//!
//! The library neither opens a window nor loads a font. The host samples
//! the pointer into an [`input::MouseState`] once per frame, hands key
//! presses and typed characters to the store, measures the text that the
//! store asks about, and draws the commands that come back.
//!
//! # Units
//!
//! Every quantity is an integer in thousandths of its natural unit:
//! lengths and coordinates in thousandths of a logical pixel, colour
//! channels and slider values in thousandths of full scale, time in
//! milliseconds. Sums of lengths saturate at the bounds of `i32`.
use vstd::prelude::*;

pub mod canvas;
pub mod ctx;
pub mod frame;
pub mod geometry;
pub mod input;
pub mod keys;
pub mod layout;
pub mod scene;
pub mod shapes;
pub mod text;
pub mod ui;
pub mod widgets;
