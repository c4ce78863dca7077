//! The viewport and the transform that fits the design space into it.

use crate::geometry::{BASE_HEIGHT, BASE_WIDTH, UNIT};
use vstd::prelude::*;

verus! {

/// The size of a drawing surface, in sub-units of its own pixels.
#[derive(Clone, Copy, Debug, PartialEq, Eq, Structural)]
pub struct Viewport {
    pub width: u64,
    pub height: u64,
}

/// The smallest and the largest size that the host allows the scene, in
/// whatever measure the host keeps its sizes.
#[derive(Clone, Copy, Debug)]
pub struct SizeLimits<S> {
    pub min: S,
    pub max: S,
}

/// A uniform scale followed by a shift: a coordinate `c` of the design space
/// goes to `offset + scale * c / UNIT` of the viewport. The scale is in
/// sub-units, so that `UNIT` leaves sizes as they are; the offsets are in
/// sub-units of the viewport's pixels.
#[derive(Clone, Copy, Debug, PartialEq, Eq, Structural)]
pub struct Transform {
    pub scale: u64,
    pub offset_x: u64,
    pub offset_y: u64,
}

/// The smaller of two numbers.
pub open spec fn smaller(a: int, b: int) -> int {
    if a <= b {
        a
    } else {
        b
    }
}

/// The largest scale at which the design space fits into the viewport, both
/// ways: the smaller of the two ratios of viewport to design space, rounded
/// down to a whole number of sub-units.
pub open spec fn fit_scale(viewport: Viewport) -> int {
    smaller(viewport.width as int / BASE_WIDTH as int, viewport.height as int / BASE_HEIGHT as int)
}

/// The transform that shows the whole design space in the middle of the
/// viewport, as large as it fits: the scale is `fit_scale`, and each offset is
/// half of what the scaled design space leaves free, rounded down.
pub open spec fn fit(viewport: Viewport) -> Transform {
    let scale = fit_scale(viewport);
    Transform {
        scale: scale as u64,
        offset_x: ((viewport.width - BASE_WIDTH * scale) / 2) as u64,
        offset_y: ((viewport.height - BASE_HEIGHT * scale) / 2) as u64,
    }
}

impl Transform {
    /// Where the transform puts the horizontal design coordinate `x`.
    pub open spec fn map_x(self, x: int) -> int {
        self.offset_x + self.scale * x / (UNIT as int)
    }

    /// Where the transform puts the vertical design coordinate `y`.
    pub open spec fn map_y(self, y: int) -> int {
        self.offset_y + self.scale * y / (UNIT as int)
    }
}

/// The fitted scene lies inside the viewport and in its middle: the scaled
/// design space is no wider and no higher than the viewport, what it leaves
/// free is split evenly between the two sides, up to one sub-unit, and it
/// fills the viewport's smaller side up to the rounding of the scale.
pub proof fn lemma_fit_centers(viewport: Viewport)
    ensures
        fit(viewport).scale == fit_scale(viewport),
        BASE_WIDTH * fit_scale(viewport) <= viewport.width,
        BASE_HEIGHT * fit_scale(viewport) <= viewport.height,
        viewport.width - BASE_WIDTH * fit_scale(viewport) - 1 <= 2 * fit(viewport).offset_x
            <= viewport.width - BASE_WIDTH * fit_scale(viewport),
        viewport.height - BASE_HEIGHT * fit_scale(viewport) - 1 <= 2 * fit(viewport).offset_y
            <= viewport.height - BASE_HEIGHT * fit_scale(viewport),
        smaller(viewport.width as int, viewport.height as int) - BASE_WIDTH < BASE_WIDTH
            * fit_scale(viewport),
{
}

/// Every point of the design space is shown inside the viewport.
pub proof fn lemma_fit_shows_design_space(viewport: Viewport, x: int, y: int)
    requires
        0 <= x <= BASE_WIDTH * UNIT,
        0 <= y <= BASE_HEIGHT * UNIT,
    ensures
        0 <= fit(viewport).map_x(x) <= viewport.width,
        0 <= fit(viewport).map_y(y) <= viewport.height,
{
    lemma_fit_centers(viewport);
    let scale = fit_scale(viewport);
    let one = UNIT as int;
    assert(0 <= scale * x / one <= BASE_WIDTH * scale) by (nonlinear_arith)
        requires
            0 <= x <= BASE_WIDTH * one,
            0 <= scale,
            one > 0,
    ;
    assert(0 <= scale * y / one <= BASE_HEIGHT * scale) by (nonlinear_arith)
        requires
            0 <= y <= BASE_HEIGHT * one,
            0 <= scale,
            one > 0,
    ;
}

/// On a square viewport the scene fills it: there is no offset.
pub proof fn lemma_fit_square(side: u64)
    ensures
        fit(Viewport { width: side, height: side }).scale == side / (BASE_WIDTH as u64),
        fit(Viewport { width: side, height: side }).offset_x == fit(
            Viewport { width: side, height: side },
        ).offset_y,
        side % (BASE_WIDTH as u64) == 0 ==> fit(Viewport { width: side, height: side }).offset_x
            == 0,
{
}

impl Transform {
    /// The transform that shows the whole design space in the middle of the
    /// viewport, as large as it fits.
    pub fn fit(viewport: Viewport) -> (transform: Transform)
        ensures
            transform == fit(viewport),
    {
        let across: u64 = viewport.width / (BASE_WIDTH as u64);
        let down: u64 = viewport.height / (BASE_HEIGHT as u64);
        let scale: u64 = if across <= down {
            across
        } else {
            down
        };
        assert(across == viewport.width / 600 && down == viewport.height / 600);
        assert(600 * scale <= viewport.width && 600 * scale <= viewport.height);
        let offset_x: u64 = (viewport.width - (BASE_WIDTH as u64) * scale) / 2;
        let offset_y: u64 = (viewport.height - (BASE_HEIGHT as u64) * scale) / 2;
        Transform { scale, offset_x, offset_y }
    }
}

/// The size that the scene asks of the host: all that the host allows.
pub fn layout<S>(limits: SizeLimits<S>) -> (size: S)
    ensures
        size == limits.max,
{
    limits.max
}

} // verus!
