use vstd::prelude::*;

verus! {

/// One vertical nudge under test.
///
/// `offset` is the fractional vertical offset in hundredths of a pixel
/// (positive moves down the canvas); `expected` is the whole number of rows a
/// correct renderer shifts the geometry by once it has snapped it.
#[derive(Clone, Copy, Debug, PartialEq, Eq, Structural)]
pub struct SnapVariation {
    pub offset: i32,
    pub expected: i32,
}

/// The snapping rule: an offset of `offset / 100` pixels moves the geometry by
/// `floor(offset / 100 + 1/2)` rows, so that ties go down the canvas.
pub open spec fn snapped_shift(offset: int) -> int {
    (offset + 50) / 100
}

pub open spec fn variation(offset: int, expected: int) -> SnapVariation {
    SnapVariation { offset: offset as i32, expected: expected as i32 }
}

/// The offsets run against every case, in order: zero, offsets strictly
/// inside the half-pixel interval, both half-pixel ties, and offsets just
/// past them.
pub open spec fn variation_table() -> Seq<SnapVariation> {
    seq![
        variation(0, 0),
        variation(10, 0),
        variation(25, 0),
        variation(33, 0),
        variation(49, 0),
        variation(50, 1),
        variation(51, 1),
        variation(-10, 0),
        variation(-25, 0),
        variation(-33, 0),
        variation(-49, 0),
        variation(-50, 0),
        variation(-51, -1),
    ]
}

/// The variation table; each entry's expected shift is the one the snapping
/// rule gives for its offset.
pub fn variations() -> (vs: Vec<SnapVariation>)
    ensures
        vs@ == variation_table(),
        forall|i: int|
            0 <= i < vs@.len() ==> #[trigger] vs@[i].expected == snapped_shift(vs@[i].offset as int),
{
    let vs = vec![
        SnapVariation { offset: 0, expected: 0 },
        SnapVariation { offset: 10, expected: 0 },
        SnapVariation { offset: 25, expected: 0 },
        SnapVariation { offset: 33, expected: 0 },
        SnapVariation { offset: 49, expected: 0 },
        SnapVariation { offset: 50, expected: 1 },
        SnapVariation { offset: 51, expected: 1 },
        SnapVariation { offset: -10, expected: 0 },
        SnapVariation { offset: -25, expected: 0 },
        SnapVariation { offset: -33, expected: 0 },
        SnapVariation { offset: -49, expected: 0 },
        SnapVariation { offset: -50, expected: 0 },
        SnapVariation { offset: -51, expected: -1 },
    ];
    assert(vs@ =~= variation_table());
    vs
}

/// An offset strictly inside the half-pixel interval does not move the
/// geometry.
pub proof fn lemma_small_offset_stays(offset: int)
    requires
        -50 < offset < 50,
    ensures
        snapped_shift(offset) == 0,
{
}

/// At the half-pixel tie the rule is not symmetric: half a pixel down moves
/// one row down, half a pixel up does not move at all.
pub proof fn lemma_half_pixel_ties()
    ensures
        snapped_shift(50) == 1,
        snapped_shift(-50) == 0,
{
}

/// An offset past the half-pixel tie, and below one and a half pixels, moves
/// the geometry one row in its own direction.
pub proof fn lemma_past_half_moves_one_row(offset: int)
    requires
        (50 < offset < 150) || (-150 <= offset < -50),
    ensures
        offset > 0 ==> snapped_shift(offset) == 1,
        offset < 0 ==> snapped_shift(offset) == -1,
{
}

/// A snapping case: what is drawn.
#[derive(Clone, Copy, Debug, PartialEq, Eq, Structural)]
pub enum SnapTest {
    /// Fills the whole canvas with the clearing colour; run between cases.
    Clear,
    /// A solid rectangle half the canvas in each direction, centred.
    Rect,
    /// One glyph of a font whose ink is a solid em box, at the same place.
    Glyph,
}

pub open spec fn test_table() -> Seq<SnapTest> {
    seq![SnapTest::Rect, SnapTest::Glyph]
}

impl SnapTest {
    pub open spec fn spec_name(self) -> Seq<char> {
        match self {
            SnapTest::Clear => "clear"@,
            SnapTest::Rect => "rect"@,
            SnapTest::Glyph => "glyph"@,
        }
    }

    /// The name under which a failure of this case is reported.
    pub fn name(&self) -> (s: &'static str)
        ensures
            s@ == self.spec_name(),
    {
        match self {
            SnapTest::Clear => "clear",
            SnapTest::Rect => "rect",
            SnapTest::Glyph => "glyph",
        }
    }
}

/// The cases that are scored, in order; the clearing case is not among them.
pub fn snap_tests() -> (ts: Vec<SnapTest>)
    ensures
        ts@ == test_table(),
{
    let ts = vec![SnapTest::Rect, SnapTest::Glyph];
    assert(ts@ =~= test_table());
    ts
}

} // verus!
