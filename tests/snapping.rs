use snapping::{
    dl_clear, dl_simple_glyph, dl_simple_rect, snap_tests, validate_output, variations, DrawItem,
    Expectation, IntRect, PixelMismatch, Rgba8, RunAction, SnapFailure, SnapRun, SnapTest,
    SnapTestContext, SnapVariation, GLYPH_INDEX,
};

const SIZE: i32 = 20;
const FONT_SIZE: i32 = 10;

fn ctx_for(offset: i32, expected: i32) -> SnapTestContext {
    SnapTestContext::new(SIZE, SIZE, FONT_SIZE, SnapVariation { offset, expected })
}

fn blank(width: i32, height: i32) -> Vec<u8> {
    vec![255u8; (width * height * 4) as usize]
}

fn put(pixels: &mut [u8], width: i32, height: i32, x: i32, y: i32, c: Rgba8) {
    let i = (((height - y - 1) * width + x) * 4) as usize;
    pixels[i] = c.r;
    pixels[i + 1] = c.g;
    pixels[i + 2] = c.b;
    pixels[i + 3] = c.a;
}

fn get(pixels: &[u8], width: i32, height: i32, x: i32, y: i32) -> Rgba8 {
    let i = (((height - y - 1) * width + x) * 4) as usize;
    Rgba8::new(pixels[i], pixels[i + 1], pixels[i + 2], pixels[i + 3])
}

/// A software stand-in for the renderer: fills the item's bounds, moved down
/// by its fractional offset, snapping edges to the nearest row with ties
/// going down.
fn rasterize(item: &DrawItem, pixels: &mut [u8], width: i32, height: i32) {
    let (bounds, offset, color) = match *item {
        DrawItem::SolidRect { bounds, offset, color } => (bounds, offset, color),
        DrawItem::Glyph { bounds, offset, color, .. } => (bounds, offset, color),
    };
    let shift = (offset as f64 / 100.0 + 0.5).floor() as i32;
    for y in 0..height {
        for x in 0..width {
            if bounds.contains(x, y - shift) {
                put(pixels, width, height, x, y, color);
            }
        }
    }
}

fn render(item: &DrawItem, width: i32, height: i32) -> Vec<u8> {
    let mut pixels = blank(width, height);
    rasterize(item, &mut pixels, width, height);
    pixels
}

fn ink_rows(pixels: &[u8], width: i32, height: i32) -> Vec<i32> {
    (0..height)
        .filter(|&y| (0..width).any(|x| get(pixels, width, height, x, y) == Rgba8::black()))
        .collect()
}

#[test]
fn offsets_inside_half_pixel_do_not_move() {
    for v in variations() {
        if v.offset.abs() < 50 {
            assert_eq!(v.expected, 0, "offset {}", v.offset);
        }
    }
}

#[test]
fn half_pixel_ties_round_down_the_canvas() {
    let vs = variations();
    let plus = vs.iter().find(|v| v.offset == 50).unwrap();
    let minus = vs.iter().find(|v| v.offset == -50).unwrap();
    assert_eq!(plus.expected, 1);
    assert_eq!(minus.expected, 0);
}

#[test]
fn offsets_past_half_move_one_row_their_way() {
    let vs = variations();
    let mut seen = 0;
    for v in vs.iter().filter(|v| v.offset.abs() > 50) {
        assert_eq!(v.expected, v.offset.signum());
        seen += 1;
    }
    assert_eq!(seen, 2);
    assert!(vs.iter().any(|v| v.offset == 51 && v.expected == 1));
    assert!(vs.iter().any(|v| v.offset == -51 && v.expected == -1));
}

#[test]
fn variation_table_covers_required_offsets() {
    let offsets: Vec<i32> = variations().iter().map(|v| v.offset).collect();
    assert_eq!(offsets, vec![0, 10, 25, 33, 49, 50, 51, -10, -25, -33, -49, -50, -51]);
}

#[test]
fn scored_cases_are_rect_then_glyph() {
    assert_eq!(snap_tests(), vec![SnapTest::Rect, SnapTest::Glyph]);
    assert_eq!(SnapTest::Clear.name(), "clear");
    assert_eq!(SnapTest::Rect.name(), "rect");
    assert_eq!(SnapTest::Glyph.name(), "glyph");
}

#[test]
fn rerun_with_clear_between_gives_same_result() {
    for test in snap_tests() {
        for v in variations() {
            let ctx = ctx_for(v.offset, v.expected);
            let (item, exp) = test.produce(&ctx);
            let first = validate_output(&render(&item, SIZE, SIZE), &exp, SIZE, SIZE);
            let (clear_item, clear_exp) = SnapTest::Clear.produce(&ctx);
            assert_eq!(validate_output(&render(&clear_item, SIZE, SIZE), &clear_exp, SIZE, SIZE), Ok(()));
            let (item2, exp2) = test.produce(&ctx);
            assert_eq!((item, exp), (item2, exp2));
            let second = validate_output(&render(&item2, SIZE, SIZE), &exp2, SIZE, SIZE);
            assert_eq!(first, second);
            assert_eq!(first, Ok(()));
        }
    }
}

#[test]
fn clear_twice_validates_as_uniform_canvas() {
    let ctx = ctx_for(-51, -1);
    for _ in 0..2 {
        let (item, exp) = dl_clear(&ctx);
        let pixels = render(&item, SIZE, SIZE);
        assert!(ink_rows(&pixels, SIZE, SIZE).is_empty());
        for y in 0..SIZE {
            for x in 0..SIZE {
                assert_eq!(get(&pixels, SIZE, SIZE, x, y), Rgba8::magenta());
            }
        }
        assert_eq!(validate_output(&pixels, &exp, SIZE, SIZE), Ok(()));
    }
}

#[test]
fn clear_covers_canvas_with_no_shift() {
    let (item, exp) = dl_clear(&ctx_for(51, 1));
    let canvas = IntRect::from_origin_and_size(0, 0, SIZE, SIZE);
    assert_eq!(item, DrawItem::SolidRect { bounds: canvas, offset: 0, color: Rgba8::new(255, 0, 255, 255) });
    assert_eq!(exp, Expectation::Rect { color: Rgba8::magenta(), rect: canvas, offset: 0 });
}

#[test]
fn rect_at_zero_offset_is_centered_block() {
    let (item, exp) = dl_simple_rect(&ctx_for(0, 0));
    let block = IntRect { min_x: 5, min_y: 5, max_x: 15, max_y: 15 };
    assert_eq!(exp, Expectation::Rect { color: Rgba8::black(), rect: block, offset: 0 });
    let pixels = render(&item, SIZE, SIZE);
    let mut black = 0;
    let mut white = 0;
    for y in 0..SIZE {
        for x in 0..SIZE {
            let c = get(&pixels, SIZE, SIZE, x, y);
            if (5..15).contains(&x) && (5..15).contains(&y) {
                assert_eq!(c, Rgba8::new(0, 0, 0, 255));
                black += 1;
            } else {
                assert_eq!(c, Rgba8::white());
                white += 1;
            }
        }
    }
    assert_eq!((black, white), (100, 300));
    assert_eq!(validate_output(&pixels, &exp, SIZE, SIZE), Ok(()));
}

#[test]
fn rect_at_half_offset_moves_down_one_row() {
    let (base_item, _) = dl_simple_rect(&ctx_for(0, 0));
    let (item, exp) = dl_simple_rect(&ctx_for(50, 1));
    let base_rows = ink_rows(&render(&base_item, SIZE, SIZE), SIZE, SIZE);
    let pixels = render(&item, SIZE, SIZE);
    let rows = ink_rows(&pixels, SIZE, SIZE);
    assert_eq!(base_rows, (5..15).collect::<Vec<i32>>());
    assert_eq!(rows, (6..16).collect::<Vec<i32>>());
    assert_eq!(validate_output(&pixels, &exp, SIZE, SIZE), Ok(()));
    // The unshifted block no longer meets this expectation.
    let stale = render(&base_item, SIZE, SIZE);
    assert!(validate_output(&stale, &exp, SIZE, SIZE).is_err());
}

#[test]
fn rect_past_negative_half_moves_up_one_row() {
    let (item, exp) = dl_simple_rect(&ctx_for(-51, -1));
    let pixels = render(&item, SIZE, SIZE);
    assert_eq!(ink_rows(&pixels, SIZE, SIZE), (4..14).collect::<Vec<i32>>());
    assert_eq!(validate_output(&pixels, &exp, SIZE, SIZE), Ok(()));
}

#[test]
fn glyph_expects_same_block_as_rect() {
    let ctx = ctx_for(0, 0);
    let (rect_item, rect_exp) = dl_simple_rect(&ctx);
    let (glyph_item, glyph_exp) = dl_simple_glyph(&ctx);
    assert_eq!(glyph_exp, rect_exp);
    let block = IntRect { min_x: 5, min_y: 5, max_x: 15, max_y: 15 };
    assert_eq!(
        glyph_item,
        DrawItem::Glyph {
            bounds: block,
            offset: 0,
            index: GLYPH_INDEX,
            origin_x: 5,
            baseline: 1300,
            color: Rgba8::black(),
        }
    );
    assert_eq!(render(&glyph_item, SIZE, SIZE), render(&rect_item, SIZE, SIZE));
    assert_eq!(validate_output(&render(&glyph_item, SIZE, SIZE), &glyph_exp, SIZE, SIZE), Ok(()));
}

#[test]
fn glyph_baseline_follows_offset() {
    let (item, _) = dl_simple_glyph(&ctx_for(-33, 0));
    match item {
        DrawItem::Glyph { baseline, origin_x, index, .. } => {
            assert_eq!(baseline, 500 - 33 + 800);
            assert_eq!(origin_x, 5);
            assert_eq!(index, 0x41);
        }
        _ => panic!("glyph case drew a rectangle"),
    }
}

#[test]
fn odd_canvas_centering_rounds_down() {
    let ctx = SnapTestContext::new(7, 5, 3, SnapVariation { offset: 0, expected: 0 });
    let (_, exp) = dl_simple_rect(&ctx);
    assert_eq!(exp, Expectation::Rect {
        color: Rgba8::black(),
        rect: IntRect { min_x: 2, min_y: 1, max_x: 5, max_y: 3 },
        offset: 0,
    });
}

#[test]
fn mismatch_reports_first_pixel_top_down() {
    let (item, exp) = dl_simple_rect(&ctx_for(0, 0));
    let mut pixels = render(&item, SIZE, SIZE);
    put(&mut pixels, SIZE, SIZE, 3, 18, Rgba8::new(1, 2, 3, 4));
    put(&mut pixels, SIZE, SIZE, 7, 2, Rgba8::new(9, 9, 9, 9));
    put(&mut pixels, SIZE, SIZE, 12, 2, Rgba8::new(8, 8, 8, 8));
    assert_eq!(
        validate_output(&pixels, &exp, SIZE, SIZE),
        Err(PixelMismatch { x: 7, y: 2, expected: Rgba8::white(), actual: Rgba8::new(9, 9, 9, 9) })
    );
}

#[test]
fn mismatch_inside_block_reports_ink_colour() {
    let (_, exp) = dl_simple_rect(&ctx_for(0, 0));
    let pixels = blank(SIZE, SIZE);
    assert_eq!(
        validate_output(&pixels, &exp, SIZE, SIZE),
        Err(PixelMismatch { x: 5, y: 5, expected: Rgba8::black(), actual: Rgba8::white() })
    );
}

#[test]
fn rows_are_read_bottom_up() {
    // A block in the first stored rows is at the bottom of the canvas.
    let exp = Expectation::Rect {
        color: Rgba8::black(),
        rect: IntRect { min_x: 0, min_y: 3, max_x: 2, max_y: 4 },
        offset: 0,
    };
    let mut pixels = blank(2, 4);
    for i in 0..8 {
        pixels[i] = if i % 4 == 3 { 255 } else { 0 };
    }
    assert_eq!(validate_output(&pixels, &exp, 2, 4), Ok(()));
}

#[test]
fn alpha_channel_is_compared() {
    let exp = Expectation::Rect {
        color: Rgba8::black(),
        rect: IntRect { min_x: 0, min_y: 0, max_x: 0, max_y: 0 },
        offset: 0,
    };
    let mut pixels = blank(1, 1);
    pixels[3] = 254;
    assert_eq!(
        validate_output(&pixels, &exp, 1, 1),
        Err(PixelMismatch { x: 0, y: 0, expected: Rgba8::white(), actual: Rgba8::new(255, 255, 255, 254) })
    );
}

#[test]
fn empty_canvas_validates() {
    let exp = Expectation::Rect { color: Rgba8::black(), rect: IntRect { min_x: 0, min_y: 0, max_x: 5, max_y: 5 }, offset: 3 };
    assert_eq!(validate_output(&[], &exp, 0, 0), Ok(()));
}

#[test]
fn run_interleaves_clears_and_collects_failures() {
    let vs = vec![SnapVariation { offset: 0, expected: 0 }, SnapVariation { offset: 50, expected: 1 }];
    let mut run = SnapRun::new(vec![SnapTest::Rect, SnapTest::Glyph], vs.clone());
    let mut seen = Vec::new();
    loop {
        match run.next_action() {
            RunAction::Render { test, variation } => {
                seen.push((test, variation.offset));
                let ok = !(test == SnapTest::Rect && variation.offset == 50);
                run.record(ok);
            }
            RunAction::Finished { passed } => {
                assert!(!passed);
                break;
            }
            RunAction::Aborted { .. } => panic!("clear should not fail"),
        }
    }
    assert_eq!(
        seen,
        vec![
            (SnapTest::Rect, 0),
            (SnapTest::Clear, 0),
            (SnapTest::Rect, 50),
            (SnapTest::Clear, 50),
            (SnapTest::Glyph, 0),
            (SnapTest::Clear, 0),
            (SnapTest::Glyph, 50),
            (SnapTest::Clear, 50),
        ]
    );
    assert_eq!(run.failures, vec![SnapFailure { test: SnapTest::Rect, variation: vs[1] }]);
}

#[test]
fn run_aborts_when_clear_fails() {
    let mut run = SnapRun::new(snap_tests(), variations());
    assert_eq!(run.next_action(), RunAction::Render { test: SnapTest::Rect, variation: SnapVariation { offset: 0, expected: 0 } });
    run.record(true);
    assert_eq!(run.next_action(), RunAction::Render { test: SnapTest::Clear, variation: SnapVariation { offset: 0, expected: 0 } });
    run.record(false);
    assert_eq!(run.next_action(), RunAction::Aborted { variation: SnapVariation { offset: 0, expected: 0 } });
}

#[test]
fn full_run_with_correct_renderer_passes() {
    let mut run = SnapRun::new(snap_tests(), variations());
    let mut renders = 0;
    loop {
        match run.next_action() {
            RunAction::Render { test, variation } => {
                let ctx = SnapTestContext::new(SIZE, SIZE, FONT_SIZE, variation);
                let (item, exp) = test.produce(&ctx);
                let ok = validate_output(&render(&item, SIZE, SIZE), &exp, SIZE, SIZE).is_ok();
                run.record(ok);
                renders += 1;
            }
            RunAction::Finished { passed } => {
                assert!(passed);
                break;
            }
            RunAction::Aborted { .. } => panic!("aborted"),
        }
    }
    assert_eq!(renders, 2 * 2 * 13);
}

#[test]
fn empty_matrix_finishes_at_once() {
    let run = SnapRun::new(snap_tests(), Vec::new());
    assert_eq!(run.next_action(), RunAction::Finished { passed: true });
}
