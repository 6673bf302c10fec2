use vstd::prelude::*;
use crate::expectation::{expected_color_at, Expectation};
use crate::geometry::Rgba8;

verus! {

/// The first pixel, in top-down row-major order, whose colour differs from the
/// expectation.
#[derive(Clone, Copy, Debug, PartialEq, Eq, Structural)]
pub struct PixelMismatch {
    pub x: i32,
    pub y: i32,
    pub expected: Rgba8,
    pub actual: Rgba8,
}

/// Byte offset of logical pixel `(x, y)` in a tightly packed RGBA framebuffer
/// whose rows are stored bottom row first.
pub open spec fn stored_offset(width: int, height: int, x: int, y: int) -> int {
    ((height - 1 - y) * width + x) * 4
}

/// The colour stored for logical pixel `(x, y)`.
pub open spec fn pixel_at(pixels: Seq<u8>, width: int, height: int, x: int, y: int) -> Rgba8 {
    let i = stored_offset(width, height, x, y);
    Rgba8 { r: pixels[i], g: pixels[i + 1], b: pixels[i + 2], a: pixels[i + 3] }
}

pub open spec fn pixel_ok(pixels: Seq<u8>, e: Expectation, width: int, height: int, x: int, y: int) -> bool {
    pixel_at(pixels, width, height, x, y) == expected_color_at(e, x, y)
}

pub open spec fn in_canvas(width: int, height: int, x: int, y: int) -> bool {
    0 <= x < width && 0 <= y < height
}

/// `(x1, y1)` is visited before `(x2, y2)` in top-down row-major order.
pub open spec fn visited_before(x1: int, y1: int, x2: int, y2: int) -> bool {
    y1 < y2 || (y1 == y2 && x1 < x2)
}

/// Every pixel of the canvas has exactly its expected colour.
pub open spec fn frame_matches(pixels: Seq<u8>, e: Expectation, width: int, height: int) -> bool {
    forall|x: int, y: int|
        in_canvas(width, height, x, y) ==> #[trigger] pixel_ok(pixels, e, width, height, x, y)
}

/// `r` is the outcome of comparing `pixels` with `e`: success when every pixel
/// matches, else the first pixel that does not, with both colours.
pub open spec fn validation_outcome(
    pixels: Seq<u8>,
    e: Expectation,
    width: int,
    height: int,
    r: Result<(), PixelMismatch>,
) -> bool {
    match r {
        Ok(()) => frame_matches(pixels, e, width, height),
        Err(m) => {
            &&& in_canvas(width, height, m.x as int, m.y as int)
            &&& !pixel_ok(pixels, e, width, height, m.x as int, m.y as int)
            &&& m.expected == expected_color_at(e, m.x as int, m.y as int)
            &&& m.actual == pixel_at(pixels, width, height, m.x as int, m.y as int)
            &&& forall|x: int, y: int|
                in_canvas(width, height, x, y) && visited_before(x, y, m.x as int, m.y as int)
                    ==> #[trigger] pixel_ok(pixels, e, width, height, x, y)
        },
    }
}

proof fn lemma_stored_offset_bounds(width: int, height: int, x: int, y: int)
    requires
        in_canvas(width, height, x, y),
    ensures
        0 <= (height - 1 - y) * width + x < width * height,
        stored_offset(width, height, x, y) + 4 <= width * height * 4,
{
    let row = height - 1 - y;
    assert(0 <= row * width) by (nonlinear_arith)
        requires
            0 <= row,
            0 <= width,
    ;
    assert(row * width + x < width * height) by (nonlinear_arith)
        requires
            0 <= row < height,
            0 <= x < width,
    ;
}

fn expected_color(e: &Expectation, x: i32, y: i32) -> (c: Rgba8)
    ensures
        c == expected_color_at(*e, x as int, y as int),
{
    match e {
        Expectation::Rect { color, rect, offset } => {
            let dy = y as i64 - *offset as i64;
            let inside = rect.min_x <= x && x < rect.max_x && rect.min_y as i64 <= dy && dy
                < rect.max_y as i64;
            if inside {
                *color
            } else {
                Rgba8::white()
            }
        },
    }
}

/// Compares a rendered framebuffer with what `expected` asks for, pixel by
/// pixel and channel by channel, with no tolerance.
///
/// `pixels` holds `width * height` RGBA pixels, tightly packed, bottom row
/// first. Pixels are visited row by row from the top; the first one that
/// differs is returned.
pub fn validate_output(pixels: &[u8], expected: &Expectation, width: i32, height: i32) -> (r: Result<
    (),
    PixelMismatch,
>)
    requires
        0 <= width,
        0 <= height,
        pixels@.len() == width * height * 4,
    ensures
        validation_outcome(pixels@, *expected, width as int, height as int, r),
        r is Ok <==> frame_matches(pixels@, *expected, width as int, height as int),
{
    let ghost p = pixels@;
    let ghost w = width as int;
    let ghost h = height as int;
    let len = pixels.len();
    let mut y: i32 = 0;
    while y < height
        invariant
            0 <= y <= height,
            0 <= width,
            p == pixels@,
            w == width,
            h == height,
            p.len() == w * h * 4,
            p.len() <= usize::MAX,
            forall|x: int, yy: int|
                in_canvas(w, h, x, yy) && yy < y ==> #[trigger] pixel_ok(p, *expected, w, h, x, yy),
        decreases height - y,
    {
        let mut x: i32 = 0;
        while x < width
            invariant
                0 <= y < height,
                0 <= x <= width,
                p == pixels@,
                w == width,
                h == height,
                p.len() == w * h * 4,
                p.len() <= usize::MAX,
                forall|xx: int, yy: int|
                    in_canvas(w, h, xx, yy) && visited_before(xx, yy, x as int, y as int)
                        ==> #[trigger] pixel_ok(p, *expected, w, h, xx, yy),
            decreases width - x,
        {
            proof {
                lemma_stored_offset_bounds(w, h, x as int, y as int);
            }
            let row = (height - y - 1) as usize;
            assert(row * width + x < w * h);
            let i = (row * (width as usize) + x as usize) * 4;
            let actual = Rgba8::new(pixels[i], pixels[i + 1], pixels[i + 2], pixels[i + 3]);
            let want = expected_color(expected, x, y);
            if want != actual {
                assert(!pixel_ok(p, *expected, w, h, x as int, y as int));
                return Err(PixelMismatch { x, y, expected: want, actual });
            }
            x = x + 1;
        }
        y = y + 1;
    }
    Ok(())
}

} // verus!
