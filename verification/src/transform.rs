use vstd::prelude::*;

use crate::params::StimulusParameters;
use crate::units::COORD_UNIT;

verus! {

/// The drawable placement of the stimulus for one frame: a translation in
/// normalized coordinate units, a fixed depth offset from the camera, and a
/// rotation about the viewing axis in orientation units.
#[derive(Clone, Copy, Debug, PartialEq, Eq, Structural)]
pub struct Transform2D {
    pub x: i64,
    pub y: i64,
    pub depth: i64,
    pub rotation: i64,
}

/// The depth at which the stimulus sits: one unit behind the camera plane,
/// a constant of the scene and never parameter-controlled.
pub const STIM_DEPTH: i64 = -COORD_UNIT;

/// The transform a parameter snapshot synthesizes to: the normalized
/// position becomes the translation, the orientation the rotation, and the
/// depth is fixed.
pub open spec fn synthesize_spec(params: StimulusParameters) -> Transform2D {
    Transform2D {
        x: params.position.x,
        y: params.position.y,
        depth: STIM_DEPTH,
        rotation: params.orientation,
    }
}

/// Derives the frame's render transform from the current parameter snapshot.
/// A pure function of its argument: it reads no other state.
pub fn synthesize(params: &StimulusParameters) -> (t: Transform2D)
    ensures
        t == synthesize_spec(*params),
{
    Transform2D {
        x: params.position.x,
        y: params.position.y,
        depth: STIM_DEPTH,
        rotation: params.orientation,
    }
}

/// Law: synthesis is idempotent on unchanged parameters. Any two transforms
/// obtained from the same parameter snapshot — in particular the results of
/// two consecutive calls to [`synthesize`] with nothing mutated in between —
/// are identical in every field.
pub proof fn lemma_synthesize_idempotent(
    params: StimulusParameters,
    t1: Transform2D,
    t2: Transform2D,
)
    requires
        t1 == synthesize_spec(params),
        t2 == synthesize_spec(params),
    ensures
        t1 == t2,
{
}

} // verus!
