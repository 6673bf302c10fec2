use vstd::prelude::*;
use crate::geometry::{background_color, IntRect, Rgba8};

verus! {

/// What a correct renderer must put on the canvas for one case.
///
/// Only rectangular ink is described so far; further shapes become further
/// variants.
#[derive(Clone, Copy, Debug, PartialEq, Eq, Structural)]
pub enum Expectation {
    /// `color` fills `rect` moved down by `offset` whole rows; every other
    /// pixel of the canvas is the background colour.
    Rect { color: Rgba8, rect: IntRect, offset: i32 },
}

/// The colour expected at logical pixel `(x, y)`, with `y` counted from the top.
pub open spec fn expected_color_at(e: Expectation, x: int, y: int) -> Rgba8 {
    match e {
        Expectation::Rect { color, rect, offset } => {
            if rect.contains_point(x, y - offset) {
                color
            } else {
                background_color()
            }
        },
    }
}

} // verus!
