use vstd::prelude::*;
use crate::catalog::SnapTest;
use crate::expectation::expected_color_at;
use crate::geometry::clear_color;
use crate::scene::{produced, SnapTestContext};
use crate::validate::{in_canvas, pixel_at, pixel_ok, validation_outcome, visited_before, PixelMismatch};

verus! {

/// Running a case again for the same context gives the same verdict when the
/// renderer gives the same pixels: the drawing and the expectation depend on
/// the case and the context alone, and the validation outcome, failing pixel
/// and colours included, is fixed by the pixels and the expectation.
pub proof fn lemma_rerun_gives_same_result(
    test: SnapTest,
    ctx: SnapTestContext,
    pixels: Seq<u8>,
    first: Result<(), PixelMismatch>,
    second: Result<(), PixelMismatch>,
)
    requires
        ctx.wf(),
        validation_outcome(pixels, produced(test, ctx).1, ctx.width as int, ctx.height as int, first),
        validation_outcome(pixels, produced(test, ctx).1, ctx.width as int, ctx.height as int, second),
    ensures
        first == second,
{
    let e = produced(test, ctx).1;
    let w = ctx.width as int;
    let h = ctx.height as int;
    match (first, second) {
        (Ok(()), Ok(())) => {
            assert(first->Ok_0 == second->Ok_0);
        },
        (Ok(()), Err(m)) => {
            assert(pixel_ok(pixels, e, w, h, m.x as int, m.y as int));
        },
        (Err(m), Ok(())) => {
            assert(pixel_ok(pixels, e, w, h, m.x as int, m.y as int));
        },
        (Err(m1), Err(m2)) => {
            if visited_before(m1.x as int, m1.y as int, m2.x as int, m2.y as int) {
                assert(pixel_ok(pixels, e, w, h, m1.x as int, m1.y as int));
            } else if visited_before(m2.x as int, m2.y as int, m1.x as int, m1.y as int) {
                assert(pixel_ok(pixels, e, w, h, m2.x as int, m2.y as int));
            } else {
                assert(m1.x == m2.x && m1.y == m2.y);
                assert(m1 == m2);
            }
        },
    }
}

/// The clearing case expects its colour on every pixel of the canvas, with no
/// ink, whatever the offset under test; so each render that fills the canvas
/// with that colour, however often it is repeated, validates.
pub proof fn lemma_clear_expects_uniform_canvas(
    ctx: SnapTestContext,
    pixels: Seq<u8>,
    r: Result<(), PixelMismatch>,
)
    requires
        ctx.wf(),
        forall|x: int, y: int|
            in_canvas(ctx.width as int, ctx.height as int, x, y) ==> #[trigger] pixel_at(
                pixels,
                ctx.width as int,
                ctx.height as int,
                x,
                y,
            ) == clear_color(),
        validation_outcome(
            pixels,
            produced(SnapTest::Clear, ctx).1,
            ctx.width as int,
            ctx.height as int,
            r,
        ),
    ensures
        forall|x: int, y: int|
            in_canvas(ctx.width as int, ctx.height as int, x, y) ==> #[trigger] expected_color_at(
                produced(SnapTest::Clear, ctx).1,
                x,
                y,
            ) == clear_color(),
        r is Ok,
{
    let e = produced(SnapTest::Clear, ctx).1;
    let w = ctx.width as int;
    let h = ctx.height as int;
    if r is Err {
        let m = r->Err_0;
        assert(pixel_at(pixels, w, h, m.x as int, m.y as int) == clear_color());
    }
}

} // verus!
