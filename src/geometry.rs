use vstd::prelude::*;

verus! {

/// An 8-bit RGBA colour.
#[derive(Clone, Copy, Debug, PartialEq, Eq, Structural)]
pub struct Rgba8 {
    pub r: u8,
    pub g: u8,
    pub b: u8,
    pub a: u8,
}

impl Rgba8 {
    pub fn new(r: u8, g: u8, b: u8, a: u8) -> (c: Rgba8)
        ensures
            c == (Rgba8 { r, g, b, a }),
    {
        Rgba8 { r, g, b, a }
    }

    /// Opaque white: the colour of every pixel outside the expected ink.
    pub fn white() -> (c: Rgba8)
        ensures
            c == background_color(),
    {
        Rgba8 { r: 255, g: 255, b: 255, a: 255 }
    }

    /// Opaque black: the ink of the rectangle and glyph cases.
    pub fn black() -> (c: Rgba8)
        ensures
            c == ink_color(),
    {
        Rgba8 { r: 0, g: 0, b: 0, a: 255 }
    }

    /// Opaque magenta: the colour that clears the canvas between cases.
    pub fn magenta() -> (c: Rgba8)
        ensures
            c == clear_color(),
    {
        Rgba8 { r: 255, g: 0, b: 255, a: 255 }
    }
}

pub open spec fn background_color() -> Rgba8 {
    Rgba8 { r: 255, g: 255, b: 255, a: 255 }
}

pub open spec fn ink_color() -> Rgba8 {
    Rgba8 { r: 0, g: 0, b: 0, a: 255 }
}

pub open spec fn clear_color() -> Rgba8 {
    Rgba8 { r: 255, g: 0, b: 255, a: 255 }
}

/// An integer rectangle in device pixels, `min` inclusive and `max` exclusive,
/// with `y` growing downwards.
#[derive(Clone, Copy, Debug, PartialEq, Eq, Structural)]
pub struct IntRect {
    pub min_x: i32,
    pub min_y: i32,
    pub max_x: i32,
    pub max_y: i32,
}

impl IntRect {
    /// Half-open containment: low edges inside, high edges outside.
    pub open spec fn contains_point(self, x: int, y: int) -> bool {
        &&& self.min_x <= x < self.max_x
        &&& self.min_y <= y < self.max_y
    }

    pub fn from_origin_and_size(x: i32, y: i32, width: i32, height: i32) -> (r: IntRect)
        requires
            i32::MIN <= x + width <= i32::MAX,
            i32::MIN <= y + height <= i32::MAX,
        ensures
            r == (IntRect { min_x: x, min_y: y, max_x: (x + width) as i32, max_y: (y + height) as i32 }),
    {
        IntRect { min_x: x, min_y: y, max_x: x + width, max_y: y + height }
    }

    pub fn contains(&self, x: i32, y: i32) -> (b: bool)
        ensures
            b == self.contains_point(x as int, y as int),
    {
        self.min_x <= x && x < self.max_x && self.min_y <= y && y < self.max_y
    }
}

} // verus!
