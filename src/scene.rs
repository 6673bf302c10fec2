use vstd::prelude::*;
use crate::catalog::{SnapTest, SnapVariation};
use crate::expectation::Expectation;
use crate::geometry::{clear_color, ink_color, IntRect, Rgba8};

verus! {

/// The glyph drawn by the glyph case (`'A'`).
pub const GLYPH_INDEX: u32 = 0x41;

/// The parameters of one run of one case.
///
/// The canvas is `width` by `height` pixels and the font is `font_size`
/// pixels to the em. `offset` is the vertical nudge in hundredths of a pixel
/// and `expected_offset` the whole-row shift a correct renderer makes of it.
#[derive(Clone, Copy, Debug, PartialEq, Eq, Structural)]
pub struct SnapTestContext {
    pub width: i32,
    pub height: i32,
    pub font_size: i32,
    pub offset: i32,
    pub expected_offset: i32,
}

impl SnapTestContext {
    pub open spec fn wf(self) -> bool {
        0 <= self.width && 0 <= self.height
    }

    /// A context for one variation on a canvas of the given size.
    pub fn new(width: i32, height: i32, font_size: i32, variation: SnapVariation) -> (ctx:
        SnapTestContext)
        ensures
            ctx == (SnapTestContext {
                width,
                height,
                font_size,
                offset: variation.offset,
                expected_offset: variation.expected,
            }),
    {
        SnapTestContext {
            width,
            height,
            font_size,
            offset: variation.offset,
            expected_offset: variation.expected,
        }
    }
}

/// One primitive for the renderer to draw.
///
/// In both variants `bounds` is moved down by `offset` hundredths of a pixel
/// before drawing.
#[derive(Clone, Copy, Debug, PartialEq, Eq, Structural)]
pub enum DrawItem {
    /// `bounds`, filled with `color`.
    SolidRect { bounds: IntRect, offset: i32, color: Rgba8 },
    /// Glyph `index` in `color`, clipped to `bounds`, with its origin at
    /// `origin_x` and its baseline at `baseline` hundredths of a pixel from
    /// the top of the canvas.
    Glyph { bounds: IntRect, offset: i32, index: u32, origin_x: i32, baseline: i64, color: Rgba8 },
}

pub open spec fn canvas_rect(width: int, height: int) -> IntRect {
    IntRect { min_x: 0, min_y: 0, max_x: width as i32, max_y: height as i32 }
}

/// The rectangle half the canvas wide and half as high, centred, with
/// divisions rounding down.
pub open spec fn centered_rect(width: int, height: int) -> IntRect {
    let w = width / 2;
    let h = height / 2;
    IntRect {
        min_x: ((width - w) / 2) as i32,
        min_y: ((height - h) / 2) as i32,
        max_x: ((width - w) / 2 + w) as i32,
        max_y: ((height - h) / 2 + h) as i32,
    }
}

/// The baseline of the glyph, in hundredths of a pixel: the nudged top of
/// its box plus four fifths of the em, where the test font puts it.
pub open spec fn glyph_baseline(top: int, offset: int, font_size: int) -> int {
    top * 100 + offset + font_size * 80
}

/// What a case draws for a context, and what a correct renderer shows for it.
pub open spec fn produced(test: SnapTest, ctx: SnapTestContext) -> (DrawItem, Expectation) {
    match test {
        SnapTest::Clear => {
            let canvas = canvas_rect(ctx.width as int, ctx.height as int);
            (
                DrawItem::SolidRect { bounds: canvas, offset: 0, color: clear_color() },
                Expectation::Rect { color: clear_color(), rect: canvas, offset: 0 },
            )
        },
        SnapTest::Rect => {
            let rect = centered_rect(ctx.width as int, ctx.height as int);
            (
                DrawItem::SolidRect { bounds: rect, offset: ctx.offset, color: ink_color() },
                Expectation::Rect { color: ink_color(), rect, offset: ctx.expected_offset },
            )
        },
        SnapTest::Glyph => {
            let rect = centered_rect(ctx.width as int, ctx.height as int);
            (
                DrawItem::Glyph {
                    bounds: rect,
                    offset: ctx.offset,
                    index: GLYPH_INDEX,
                    origin_x: rect.min_x,
                    baseline: glyph_baseline(
                        rect.min_y as int,
                        ctx.offset as int,
                        ctx.font_size as int,
                    ) as i64,
                    color: ink_color(),
                },
                Expectation::Rect { color: ink_color(), rect, offset: ctx.expected_offset },
            )
        },
    }
}

fn centered(width: i32, height: i32) -> (r: IntRect)
    requires
        0 <= width,
        0 <= height,
    ensures
        r == centered_rect(width as int, height as int),
{
    let w = width / 2;
    let h = height / 2;
    IntRect::from_origin_and_size((width - w) / 2, (height - h) / 2, w, h)
}

/// Fills the whole canvas with the clearing colour.
pub fn dl_clear(ctx: &SnapTestContext) -> (r: (DrawItem, Expectation))
    requires
        ctx.wf(),
    ensures
        r == produced(SnapTest::Clear, *ctx),
{
    let canvas = IntRect { min_x: 0, min_y: 0, max_x: ctx.width, max_y: ctx.height };
    let color = Rgba8::magenta();
    (
        DrawItem::SolidRect { bounds: canvas, offset: 0, color },
        Expectation::Rect { color, rect: canvas, offset: 0 },
    )
}

/// Draws the centred rectangle, nudged by the context's offset, and expects
/// it shifted by the context's whole-row correction.
pub fn dl_simple_rect(ctx: &SnapTestContext) -> (r: (DrawItem, Expectation))
    requires
        ctx.wf(),
    ensures
        r == produced(SnapTest::Rect, *ctx),
{
    let rect = centered(ctx.width, ctx.height);
    let color = Rgba8::black();
    (
        DrawItem::SolidRect { bounds: rect, offset: ctx.offset, color },
        Expectation::Rect { color, rect, offset: ctx.expected_offset },
    )
}

/// Draws one glyph of the solid-box font over the centred rectangle, nudged
/// by the context's offset, and expects the same ink as the rectangle case.
pub fn dl_simple_glyph(ctx: &SnapTestContext) -> (r: (DrawItem, Expectation))
    requires
        ctx.wf(),
    ensures
        r == produced(SnapTest::Glyph, *ctx),
{
    let rect = centered(ctx.width, ctx.height);
    let color = Rgba8::black();
    let baseline = rect.min_y as i64 * 100 + ctx.offset as i64 + ctx.font_size as i64 * 80;
    (
        DrawItem::Glyph {
            bounds: rect,
            offset: ctx.offset,
            index: GLYPH_INDEX,
            origin_x: rect.min_x,
            baseline,
            color,
        },
        Expectation::Rect { color, rect, offset: ctx.expected_offset },
    )
}

impl SnapTest {
    /// The primitive this case draws for `ctx`, and the expectation a correct
    /// renderer meets.
    pub fn produce(&self, ctx: &SnapTestContext) -> (r: (DrawItem, Expectation))
        requires
            ctx.wf(),
        ensures
            r == produced(*self, *ctx),
    {
        match self {
            SnapTest::Clear => dl_clear(ctx),
            SnapTest::Rect => dl_simple_rect(ctx),
            SnapTest::Glyph => dl_simple_glyph(ctx),
        }
    }
}

} // verus!
