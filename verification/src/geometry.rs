//! Lengths, rectangles and colours.
use vstd::prelude::*;

verus! {

/// One logical pixel, in the thousandths that all lengths are counted in.
pub const UNIT: i32 = 1000;

/// Full intensity of a colour channel.
pub const FULL: u16 = 1000;

/// `v` brought into the range of `i32`.
pub open spec fn sat(v: int) -> int {
    if v < i32::MIN {
        i32::MIN as int
    } else if v > i32::MAX {
        i32::MAX as int
    } else {
        v
    }
}

/// Half of `v`, rounded towards zero.
pub open spec fn half(v: int) -> int {
    if v >= 0 {
        v / 2
    } else {
        -((-v) / 2)
    }
}

/// The sum of two lengths, saturating at the bounds of `i32`.
pub fn sat_add(a: i32, b: i32) -> (r: i32)
    ensures
        r == sat(a + b),
{
    let wide: i64 = a as i64 + b as i64;
    if wide < i32::MIN as i64 {
        i32::MIN
    } else if wide > i32::MAX as i64 {
        i32::MAX
    } else {
        wide as i32
    }
}

/// The difference of two lengths, saturating at the bounds of `i32`.
pub fn sat_sub(a: i32, b: i32) -> (r: i32)
    ensures
        r == sat(a - b),
{
    let wide: i64 = a as i64 - b as i64;
    if wide < i32::MIN as i64 {
        i32::MIN
    } else if wide > i32::MAX as i64 {
        i32::MAX
    } else {
        wide as i32
    }
}

/// Half of a length, rounded towards zero.
pub fn half_of(v: i32) -> (r: i32)
    ensures
        r == half(v as int),
{
    if v >= 0 {
        v / 2
    } else {
        let wide: i64 = -(v as i64);
        let halved: i64 = wide / 2;
        (-halved) as i32
    }
}

/// `v` thousandths of the length `len`, rounded towards zero.
pub open spec fn scaled(len: int, v: int) -> int {
    if len * v >= 0 {
        len * v / 1000
    } else {
        -((-(len * v)) / 1000)
    }
}

/// `v` thousandths of the length `len`, rounded towards zero and
/// saturating at the bounds of `i32`.
pub fn scale(len: i32, v: i32) -> (r: i32)
    ensures
        r == sat(scaled(len as int, v as int)),
{
    assert(-0x4000_0000_0000_0000 <= len * v <= 0x4000_0000_0000_0000) by (nonlinear_arith)
        requires
            -0x8000_0000 <= len <= 0x7fff_ffff,
            -0x8000_0000 <= v <= 0x7fff_ffff,
    ;
    let product: i64 = len as i64 * v as i64;
    let wide: i64 = if product >= 0 {
        product / 1000
    } else {
        -((-product) / 1000)
    };
    if wide < i32::MIN as i64 {
        i32::MIN
    } else if wide > i32::MAX as i64 {
        i32::MAX
    } else {
        wide as i32
    }
}

/// How far along a track of width `w` that starts at `x` the point `px`
/// lies, in thousandths: 0 at or before the start, 1000 at or after the
/// end, and 0 on a track without width.
pub open spec fn fraction(px: int, x: int, w: int) -> int {
    if w <= 0 || px <= x {
        0
    } else if px - x >= w {
        1000
    } else {
        (px - x) * 1000 / w
    }
}

/// A place along a track lies between 0 and 1000.
pub proof fn lemma_fraction_range(px: int, x: int, w: int)
    ensures
        0 <= fraction(px, x, w) <= 1000,
{
    if w > 0 && px > x && px - x < w {
        assert(0 <= (px - x) * 1000 / w < 1000) by (nonlinear_arith)
            requires
                0 < px - x < w,
        ;
    }
}

/// The place of `px` along the track that starts at `x` and is `w` wide.
pub fn fraction_of(px: i32, x: i32, w: i32) -> (r: u16)
    ensures
        r == fraction(px as int, x as int, w as int),
        r <= 1000,
{
    if w <= 0 || px <= x {
        0
    } else {
        let along: i64 = px as i64 - x as i64;
        if along >= w as i64 {
            1000
        } else {
            let scaled: i64 = along * 1000;
            let r: i64 = scaled / (w as i64);
            assert(0 <= r < 1000) by (nonlinear_arith)
                requires
                    0 <= scaled < w * 1000,
                    r == scaled as int / (w as int),
                    w > 0,
            ;
            r as u16
        }
    }
}

/// An axis-aligned rectangle: origin `(x, y)`, extent `(w, h)`.
#[derive(Clone, Copy, Debug, PartialEq, Eq, Structural)]
pub struct Rect {
    pub x: i32,
    pub y: i32,
    pub w: i32,
    pub h: i32,
}

impl Rect {
    /// Whether the point `(px, py)` lies in the rectangle, edges included.
    pub open spec fn holds(self, px: int, py: int) -> bool {
        &&& self.x <= px <= self.x + self.w
        &&& self.y <= py <= self.y + self.h
    }

    /// Whether the point `(x, y)` lies in the rectangle, edges included.
    pub fn contains(&self, x: i32, y: i32) -> (r: bool)
        ensures
            r == self.holds(x as int, y as int),
    {
        let right: i64 = self.x as i64 + self.w as i64;
        let bottom: i64 = self.y as i64 + self.h as i64;
        x >= self.x && x as i64 <= right && y >= self.y && y as i64 <= bottom
    }
}

impl Default for Rect {
    /// A square of a hundred pixels at the origin.
    fn default() -> (r: Rect)
        ensures
            r == (Rect { x: 0, y: 0, w: 100_000, h: 100_000 }),
    {
        Rect { x: 0, y: 0, w: 100_000, h: 100_000 }
    }
}

/// A colour: red, green, blue and opacity, each in thousandths.
#[derive(Clone, Copy, Debug, PartialEq, Eq, Structural)]
pub struct Color {
    pub r: u16,
    pub g: u16,
    pub b: u16,
    pub a: u16,
}

/// Four fifths of a channel: the value of a darkened colour.
pub open spec fn dimmed(c: u16) -> u16 {
    (c as int * 4 / 5) as u16
}

fn dim(c: u16) -> (r: u16)
    ensures
        r == dimmed(c),
{
    let wide: u32 = c as u32 * 4 / 5;
    wide as u16
}

impl Color {
    /// An opaque colour.
    pub fn rgb(r: u16, g: u16, b: u16) -> (c: Color)
        ensures
            c == (Color { r, g, b, a: FULL }),
    {
        Color { r, g, b, a: FULL }
    }

    /// Opaque white.
    pub fn white() -> (c: Color)
        ensures
            c == (Color { r: FULL, g: FULL, b: FULL, a: FULL }),
    {
        Color { r: FULL, g: FULL, b: FULL, a: FULL }
    }

    /// No colour at all.
    pub fn transparent() -> (c: Color)
        ensures
            c == (Color { r: 0, g: 0, b: 0, a: 0 }),
    {
        Color { r: 0, g: 0, b: 0, a: 0 }
    }

    /// Every channel, opacity included, at four fifths.
    pub open spec fn faded(self) -> Color {
        Color { r: dimmed(self.r), g: dimmed(self.g), b: dimmed(self.b), a: dimmed(self.a) }
    }

    /// The colour channels at four fifths, fully opaque.
    pub open spec fn shaded(self) -> Color {
        Color { r: dimmed(self.r), g: dimmed(self.g), b: dimmed(self.b), a: FULL }
    }

    /// Every channel, opacity included, at four fifths.
    pub fn fade(&self) -> (c: Color)
        ensures
            c == self.faded(),
    {
        Color { r: dim(self.r), g: dim(self.g), b: dim(self.b), a: dim(self.a) }
    }

    /// The colour channels at four fifths, fully opaque.
    pub fn shade(&self) -> (c: Color)
        ensures
            c == self.shaded(),
    {
        Color { r: dim(self.r), g: dim(self.g), b: dim(self.b), a: FULL }
    }
}

} // verus!
