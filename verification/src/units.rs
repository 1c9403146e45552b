use vstd::prelude::*;

verus! {

/// Fixed-point scale for lengths: raw pixel coordinates, viewport sizes,
/// normalized coordinates and scroll deltas are all stored as multiples of
/// `1 / COORD_UNIT`, so the value `COORD_UNIT` stands for `1.0`.
pub const COORD_UNIT: i64 = 1_000_000;

/// Denominator of the scroll sensitivity: a scroll delta of one (that is,
/// `COORD_UNIT` in coordinate units) advances the orientation by
/// `1 / SENS_DEN` radians — a sensitivity of `0.1`.
pub const SENS_DEN: i64 = 10;

/// Fixed-point scale for orientations: an orientation value is a multiple of
/// `1 / ORIENT_UNIT` radians, so `ORIENT_UNIT` stands for one radian.
///
/// The scale equals `COORD_UNIT * SENS_DEN`, so adding a scroll delta (in
/// coordinate units) to an orientation (in orientation units) advances the
/// orientation by exactly `delta / SENS_DEN` radians: the sensitivity is
/// applied without any rounding.
pub const ORIENT_UNIT: i64 = 10_000_000;

/// Largest magnitude accepted for a raw coordinate or a viewport dimension,
/// in coordinate units (one million pixels). The bound keeps every product
/// formed during normalization inside the machine integer range.
pub const MAX_DIM: i64 = 1_000_000_000_000;

/// The errors the core can report.
#[derive(Clone, Copy, Debug, PartialEq, Eq, Structural)]
pub enum StimError {
    /// The viewport has a zero or negative dimension, so a raw coordinate
    /// cannot be normalized. A configuration error: it should never occur
    /// after a window is up.
    InvalidViewport,
    /// The renderable payload of the requested variant is not registered, so
    /// a toggle was rejected and the entity kept its prior material.
    VariantUnavailable,
}

} // verus!
