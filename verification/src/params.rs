use vstd::prelude::*;
use vstd::seq_lib::{commutative_foldl, lemma_fold_left_permutation};

use crate::coords::{normalize, normalize_spec, NormalizedCoordinate, RawPosition, Viewport};
use crate::units::StimError;

verus! {

/// The per-frame stimulus parameter set: where the stimulus sits in
/// normalized space and how far it has been rotated, in orientation units
/// (see [`crate::units::ORIENT_UNIT`]). Mutated only by the input router;
/// everything else reads a snapshot of it.
#[derive(Clone, Copy, Debug, PartialEq, Eq, Structural)]
pub struct StimulusParameters {
    pub position: NormalizedCoordinate,
    pub orientation: i64,
}

impl StimulusParameters {
    /// The setup-time parameters: position at the origin, orientation zero.
    pub open spec fn initial() -> StimulusParameters {
        StimulusParameters { position: NormalizedCoordinate { x: 0, y: 0 }, orientation: 0 }
    }
}

impl Default for StimulusParameters {
    /// The parameter set a stimulus is created with.
    fn default() -> (p: StimulusParameters)
        ensures
            p == StimulusParameters::initial(),
    {
        StimulusParameters { position: NormalizedCoordinate { x: 0, y: 0 }, orientation: 0 }
    }
}

/// The folding step of scroll accumulation: add one delta to a running sum.
pub open spec fn add_delta() -> spec_fn(int, i64) -> int {
    |acc: int, d: i64| acc + d
}

/// The sum of a frame's scroll deltas, in coordinate units. Thanks to the
/// orientation scale this is exactly the orientation advance the frame
/// causes: sensitivity is a change of units, not a rounding multiplication.
pub open spec fn sum_deltas(s: Seq<i64>) -> int {
    s.fold_left(0int, add_delta())
}

/// Extending a prefix of deltas by one event adds exactly that event's delta
/// to the prefix sum.
pub proof fn lemma_sum_deltas_extend(s: Seq<i64>, i: int)
    requires
        0 <= i < s.len(),
    ensures
        sum_deltas(s.subrange(0, i + 1)) == sum_deltas(s.subrange(0, i)) + s[i],
{
    let t = s.subrange(0, i + 1);
    assert(t.drop_last() =~= s.subrange(0, i));
    assert(t.last() == s[i]);
}

/// Law: the orientation reached by draining scroll deltas in one frame is
/// the starting orientation plus the sum of the deltas, whatever order the
/// deltas were delivered in — the accumulated sum is commutative.
pub proof fn lemma_orientation_order_independent(s1: Seq<i64>, s2: Seq<i64>, start: int)
    requires
        s1.to_multiset() == s2.to_multiset(),
    ensures
        start + sum_deltas(s1) == start + sum_deltas(s2),
{
    let f = add_delta();
    assert(commutative_foldl(f)) by {
        assert forall|x: i64, y: i64, v: int| #[trigger] f(f(v, x), y) == f(f(v, y), x) by {}
    }
    lemma_fold_left_permutation(s1, s2, f, 0int);
}

/// Applies one scroll event to an orientation: the accumulator advances by
/// the delta and is never reset.
pub fn apply_scroll(orientation: i64, delta: i64) -> (r: i64)
    requires
        i64::MIN <= orientation + delta <= i64::MAX,
    ensures
        r == orientation + delta,
{
    orientation + delta
}

/// Drains a frame's scroll queue in arrival order, accumulating every delta
/// into the orientation. The position is untouched. An empty queue leaves
/// the parameters exactly as they were.
pub fn drain_scrolls(params: &mut StimulusParameters, deltas: &Vec<i64>)
    requires
        forall|i: int|
            0 <= i <= deltas@.len() ==> i64::MIN <= old(params).orientation + sum_deltas(
                #[trigger] deltas@.subrange(0, i),
            ) <= i64::MAX,
    ensures
        final(params).position == old(params).position,
        final(params).orientation == old(params).orientation + sum_deltas(deltas@),
        deltas@.len() == 0 ==> *final(params) == *old(params),
{
    proof {
        assert(deltas@.subrange(0, 0) =~= Seq::<i64>::empty());
    }
    let mut idx: usize = 0;
    while idx < deltas.len()
        invariant
            0 <= idx <= deltas@.len(),
            params.position == old(params).position,
            params.orientation == old(params).orientation + sum_deltas(
                deltas@.subrange(0, idx as int),
            ),
            forall|i: int|
                0 <= i <= deltas@.len() ==> i64::MIN <= old(params).orientation + sum_deltas(
                    #[trigger] deltas@.subrange(0, i),
                ) <= i64::MAX,
        decreases deltas@.len() - idx,
    {
        proof {
            lemma_sum_deltas_extend(deltas@, idx as int);
        }
        params.orientation = apply_scroll(params.orientation, deltas[idx]);
        idx += 1;
    }
    proof {
        assert(deltas@.subrange(0, deltas@.len() as int) =~= deltas@);
    }
}

/// Drains a frame's pointer-move queue in arrival order, normalizing each
/// event against the viewport as it is at event time. Only the last event
/// decides the frame's position; the orientation is untouched. With a zero
/// or negative viewport dimension the queue cannot be normalized: the frame
/// reports `InvalidViewport` and the parameters stay as they were.
pub fn drain_pointer_moves(
    params: &mut StimulusParameters,
    moves: &Vec<RawPosition>,
    viewport: &Viewport,
) -> (r: Result<(), StimError>)
    requires
        forall|i: int| 0 <= i < moves@.len() ==> (#[trigger] moves@[i]).in_bounds(),
        viewport.in_bounds(),
    ensures
        final(params).orientation == old(params).orientation,
        moves@.len() == 0 ==> r == Ok::<(), StimError>(()) && *final(params) == *old(params),
        moves@.len() > 0 && viewport.is_valid() ==> r == Ok::<(), StimError>(())
            && final(params).position == normalize_spec(moves@.last(), *viewport),
        moves@.len() > 0 && !viewport.is_valid() ==> r == Err::<(), StimError>(
            StimError::InvalidViewport,
        ) && *final(params) == *old(params),
{
    let mut idx: usize = 0;
    while idx < moves.len()
        invariant
            0 <= idx <= moves@.len(),
            forall|i: int| 0 <= i < moves@.len() ==> (#[trigger] moves@[i]).in_bounds(),
            viewport.in_bounds(),
            params.orientation == old(params).orientation,
            idx == 0 ==> *params == *old(params),
            idx > 0 ==> viewport.is_valid() && params.position == normalize_spec(
                moves@[idx as int - 1],
                *viewport,
            ),
        decreases moves@.len() - idx,
    {
        match normalize(moves[idx], viewport) {
            Ok(c) => {
                params.position = c;
            },
            Err(e) => {
                return Err(e);
            },
        }
        idx += 1;
    }
    Ok(())
}

/// The input router: drains a frame's pointer-move queue and scroll queue,
/// in that order, into the parameter store. Nothing blocks: with both queues
/// empty the parameters are returned untouched. The router has no rendering
/// side effects; it only mutates the store.
pub fn route_input(
    params: &mut StimulusParameters,
    moves: &Vec<RawPosition>,
    deltas: &Vec<i64>,
    viewport: &Viewport,
) -> (r: Result<(), StimError>)
    requires
        forall|i: int| 0 <= i < moves@.len() ==> (#[trigger] moves@[i]).in_bounds(),
        viewport.in_bounds(),
        forall|i: int|
            0 <= i <= deltas@.len() ==> i64::MIN <= old(params).orientation + sum_deltas(
                #[trigger] deltas@.subrange(0, i),
            ) <= i64::MAX,
    ensures
        final(params).orientation == old(params).orientation + sum_deltas(deltas@),
        moves@.len() > 0 && viewport.is_valid() ==> r == Ok::<(), StimError>(())
            && final(params).position == normalize_spec(moves@.last(), *viewport),
        moves@.len() == 0 || !viewport.is_valid() ==> final(params).position == old(
            params,
        ).position,
        moves@.len() == 0 ==> r == Ok::<(), StimError>(()),
        moves@.len() > 0 && !viewport.is_valid() ==> r == Err::<(), StimError>(
            StimError::InvalidViewport,
        ),
        moves@.len() == 0 && deltas@.len() == 0 ==> *final(params) == *old(params),
{
    let pointer_result = drain_pointer_moves(params, moves, viewport);
    drain_scrolls(params, deltas);
    pointer_result
}

} // verus!
