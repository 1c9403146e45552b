use vstd::prelude::*;
use vstd::arithmetic::div_mod::{
    lemma_div_is_ordered, lemma_div_multiples_vanish, lemma_div_nonincreasing,
    lemma_div_pos_is_pos,
};

use crate::units::{StimError, COORD_UNIT, MAX_DIM};

verus! {

/// A position in raw device pixels, as delivered by the windowing layer, in
/// coordinate units (see [`crate::units::COORD_UNIT`]). Device coordinates
/// are never negative.
#[derive(Clone, Copy, Debug, PartialEq, Eq, Structural)]
pub struct RawPosition {
    pub x: i64,
    pub y: i64,
}

/// The current size of the window's drawable area, in coordinate units. Read
/// anew at every normalization; never cached by the core.
#[derive(Clone, Copy, Debug, PartialEq, Eq, Structural)]
pub struct Viewport {
    pub width: i64,
    pub height: i64,
}

impl Viewport {
    /// A viewport can be normalized against exactly when both dimensions are
    /// positive.
    pub open spec fn is_valid(self) -> bool {
        0 < self.width && 0 < self.height
    }

    /// Both dimensions are small enough for normalization arithmetic.
    pub open spec fn in_bounds(self) -> bool {
        self.width <= MAX_DIM && self.height <= MAX_DIM
    }
}

impl RawPosition {
    /// A raw position the machine arithmetic accepts: device coordinates,
    /// bounded by the largest supported dimension.
    pub open spec fn in_bounds(self) -> bool {
        0 <= self.x <= MAX_DIM && 0 <= self.y <= MAX_DIM
    }
}

/// A resolution-independent position: each component lies in `[-1, 1]`
/// (that is, `[-COORD_UNIT, COORD_UNIT]` in coordinate units) whenever the
/// raw coordinate lay inside the viewport.
#[derive(Clone, Copy, Debug, PartialEq, Eq, Structural)]
pub struct NormalizedCoordinate {
    pub x: i64,
    pub y: i64,
}

/// One component of normalization: `2 * x / dim - 1`, in coordinate units.
/// Division is Euclidean; for the coordinates accepted here the numerator is
/// never negative, so it agrees with machine division.
pub open spec fn norm_component_spec(x: int, dim: int) -> int {
    2 * x * COORD_UNIT / dim - COORD_UNIT
}

/// The normalized image of a raw position under a valid viewport.
pub open spec fn normalize_spec(pos: RawPosition, viewport: Viewport) -> NormalizedCoordinate {
    NormalizedCoordinate {
        x: norm_component_spec(pos.x as int, viewport.width as int) as i64,
        y: norm_component_spec(pos.y as int, viewport.height as int) as i64,
    }
}

/// A normalized component stays within machine range for every in-bounds
/// input, so the cast in [`normalize_spec`] never truncates.
pub proof fn lemma_norm_component_fits(x: int, dim: int)
    requires
        0 <= x <= MAX_DIM,
        0 < dim <= MAX_DIM,
    ensures
        -COORD_UNIT <= norm_component_spec(x, dim) <= 2 * MAX_DIM * COORD_UNIT,
{
    lemma_div_pos_is_pos(2 * x * COORD_UNIT, dim);
    lemma_div_nonincreasing(2 * x * COORD_UNIT, dim);
}

/// Normalization maps the viewport onto `[-1, 1]`: a coordinate inside
/// `[0, dim]` lands in `[-COORD_UNIT, COORD_UNIT]`, the left edge on exactly
/// `-COORD_UNIT`, the right edge on exactly `COORD_UNIT`, and the midpoint of
/// an even dimension on exactly `0`.
pub proof fn lemma_norm_component_range(x: int, dim: int)
    requires
        0 < dim,
        0 <= x <= dim,
    ensures
        -COORD_UNIT <= norm_component_spec(x, dim) <= COORD_UNIT,
        x == 0 ==> norm_component_spec(x, dim) == -COORD_UNIT,
        x == dim ==> norm_component_spec(x, dim) == COORD_UNIT,
        2 * x == dim ==> norm_component_spec(x, dim) == 0,
{
    lemma_div_pos_is_pos(2 * x * COORD_UNIT, dim);
    lemma_div_is_ordered(2 * x * COORD_UNIT, 2 * dim * COORD_UNIT, dim);
    lemma_div_multiples_vanish(2 * COORD_UNIT, dim);
    assert(2 * dim * COORD_UNIT == 2 * COORD_UNIT * dim);
    if x == 0 {
        lemma_div_multiples_vanish(0, dim);
    }
    if 2 * x == dim {
        lemma_div_multiples_vanish(COORD_UNIT as int, dim);
        assert(2 * x * COORD_UNIT == COORD_UNIT * dim);
    }
}

/// Law: a raw position inside the viewport normalizes into the unit square.
/// For every raw coordinate pair within `[0, W] x [0, H]` both normalized
/// components lie in `[-1, 1]`; the top-left corner maps exactly onto
/// `(-1, -1)` and the bottom-right corner exactly onto `(1, 1)`.
pub proof fn lemma_normalize_into_unit_square(pos: RawPosition, viewport: Viewport)
    requires
        viewport.is_valid(),
        viewport.in_bounds(),
        0 <= pos.x <= viewport.width,
        0 <= pos.y <= viewport.height,
    ensures
        -COORD_UNIT <= normalize_spec(pos, viewport).x <= COORD_UNIT,
        -COORD_UNIT <= normalize_spec(pos, viewport).y <= COORD_UNIT,
        pos.x == 0 && pos.y == 0 ==> normalize_spec(pos, viewport) == (NormalizedCoordinate {
            x: (-COORD_UNIT) as i64,
            y: (-COORD_UNIT) as i64,
        }),
        pos.x == viewport.width && pos.y == viewport.height ==> normalize_spec(pos, viewport)
            == (NormalizedCoordinate { x: COORD_UNIT, y: COORD_UNIT }),
{
    lemma_norm_component_range(pos.x as int, viewport.width as int);
    lemma_norm_component_range(pos.y as int, viewport.height as int);
}

/// One component of the executable normalizer.
fn norm_component(x: i64, dim: i64) -> (n: i64)
    requires
        0 <= x <= MAX_DIM,
        0 < dim <= MAX_DIM,
    ensures
        n == norm_component_spec(x as int, dim as int),
{
    proof {
        lemma_norm_component_fits(x as int, dim as int);
    }
    let num: u64 = 2 * (x as u64) * (COORD_UNIT as u64);
    let q: u64 = num / (dim as u64);
    proof {
        lemma_div_nonincreasing(num as int, dim as int);
        lemma_div_pos_is_pos(num as int, dim as int);
    }
    (q as i64) - COORD_UNIT
}

/// Converts a raw device position into the resolution-independent space,
/// reading the viewport size at call time. Rejects exactly the viewports
/// with a zero or negative dimension.
pub fn normalize(pos: RawPosition, viewport: &Viewport) -> (r: Result<
    NormalizedCoordinate,
    StimError,
>)
    requires
        pos.in_bounds(),
        viewport.in_bounds(),
    ensures
        viewport.is_valid() ==> r == Ok::<NormalizedCoordinate, StimError>(
            normalize_spec(pos, *viewport),
        ),
        !viewport.is_valid() ==> r == Err::<NormalizedCoordinate, StimError>(
            StimError::InvalidViewport,
        ),
{
    if viewport.width <= 0 || viewport.height <= 0 {
        return Err(StimError::InvalidViewport);
    }
    proof {
        lemma_norm_component_fits(pos.x as int, viewport.width as int);
        lemma_norm_component_fits(pos.y as int, viewport.height as int);
    }
    Ok(NormalizedCoordinate {
        x: norm_component(pos.x, viewport.width),
        y: norm_component(pos.y, viewport.height),
    })
}

} // verus!
