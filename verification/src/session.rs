use vstd::prelude::*;

use crate::coords::{normalize_spec, RawPosition, Viewport};
use crate::entity::StimulusEntity;
use crate::params::{route_input, sum_deltas, StimulusParameters};
use crate::transform::{synthesize_spec, Transform2D};
use crate::units::StimError;
use crate::variant::{MaterialHandle, MaterialRegistry, StimulusVariant};

verus! {

/// What the render plugin consumes for one frame: the synthesized transform
/// and the one material bound to the entity, frozen together at the frame
/// boundary.
#[derive(Clone, Copy, Debug, PartialEq, Eq, Structural)]
pub struct RenderSnapshot {
    pub transform: Transform2D,
    pub material: MaterialHandle,
}

/// The outcome of one frame. The snapshot is always produced: per-frame
/// errors are reported beside it and never abort the loop.
#[derive(Clone, Copy, Debug, PartialEq, Eq, Structural)]
pub struct FrameReport {
    pub snapshot: RenderSnapshot,
    /// `Some(InvalidViewport)` when pointer events arrived but the viewport
    /// had a zero or negative dimension, so the position kept its old value.
    pub input_error: Option<StimError>,
    /// `Some(VariantUnavailable)` when a pending toggle found the target
    /// variant's payload unregistered and was rejected.
    pub toggle_error: Option<StimError>,
}

/// The whole mutable state of the core, owned explicitly and passed into the
/// tick: the registry fixed at setup, the parameter store, the entity, and
/// the one toggle request that may be waiting for the next frame boundary.
/// The input router (inside [`Session::tick`]) and the toggle command are
/// the only writers.
#[derive(Clone, Copy, Debug, PartialEq, Eq, Structural)]
pub struct Session {
    pub registry: MaterialRegistry,
    pub params: StimulusParameters,
    pub entity: StimulusEntity,
    pub toggle_pending: bool,
}

impl Session {
    /// The session invariant, held at every frame boundary: the entity is
    /// well formed against the registry it was spawned from, and its
    /// transform is the synthesis of the current parameter store — all
    /// mutation funnels through the router, the toggle and the synthesizer.
    pub open spec fn wf(self) -> bool {
        self.entity.wf(self.registry) && self.entity.transform == synthesize_spec(self.params)
    }

    /// The variant a pending toggle would switch to.
    pub open spec fn toggle_target(self) -> StimulusVariant {
        self.entity.variant.toggled()
    }

    /// Sets the session up: default parameters, the entity rendering as the
    /// initial variant at the origin, no toggle pending. Fails — and startup
    /// should abort — exactly when the initial variant's payload is missing
    /// from the registry.
    pub fn new(registry: MaterialRegistry) -> (r: Result<Session, StimError>)
        ensures
            match r {
                Ok(s) => {
                    &&& s.wf()
                    &&& s.registry == registry
                    &&& s.params == StimulusParameters::initial()
                    &&& s.entity.variant == StimulusVariant::initial()
                    &&& s.entity.transform == synthesize_spec(StimulusParameters::initial())
                    &&& !s.toggle_pending
                },
                Err(err) => {
                    &&& err == StimError::VariantUnavailable
                    &&& registry.handle_of(StimulusVariant::initial()) is None
                },
            },
    {
        let params = StimulusParameters::default();
        match StimulusEntity::spawn(&registry, &params) {
            Ok(entity) => Ok(Session { registry, params, entity, toggle_pending: false }),
            Err(err) => Err(err),
        }
    }

    /// The control surface's one command: request a variant toggle. The swap
    /// itself is deferred to the next frame boundary, so the request touches
    /// nothing a render pass in flight could observe.
    pub fn request_toggle(&mut self)
        ensures
            final(self).toggle_pending,
            final(self).registry == old(self).registry,
            final(self).params == old(self).params,
            final(self).entity == old(self).entity,
            old(self).wf() ==> final(self).wf(),
    {
        self.toggle_pending = true;
    }

    /// One frame of the cooperative loop, run at the frame boundary. In
    /// strict order: a pending toggle is applied (or rejected, leaving the
    /// entity in its prior valid state), the input queues are drained into
    /// the parameter store, the transform is synthesized from the resulting
    /// snapshot, and the frozen `(transform, material)` pair is handed out
    /// for this frame's draw.
    pub fn tick(
        &mut self,
        moves: &Vec<RawPosition>,
        deltas: &Vec<i64>,
        viewport: &Viewport,
    ) -> (r: FrameReport)
        requires
            old(self).wf(),
            forall|i: int| 0 <= i < moves@.len() ==> (#[trigger] moves@[i]).in_bounds(),
            viewport.in_bounds(),
            forall|i: int|
                0 <= i <= deltas@.len() ==> i64::MIN <= old(self).params.orientation + sum_deltas(
                    #[trigger] deltas@.subrange(0, i),
                ) <= i64::MAX,
        ensures
            final(self).wf(),
            final(self).registry == old(self).registry,
            !final(self).toggle_pending,
            // The variant swap: applied exactly when requested and available.
            old(self).toggle_pending && old(self).registry.handle_of(old(self).toggle_target())
                is Some ==> final(self).entity.variant == old(self).toggle_target(),
            !(old(self).toggle_pending && old(self).registry.handle_of(old(self).toggle_target())
                is Some) ==> final(self).entity.variant == old(self).entity.variant,
            r.toggle_error == (if old(self).toggle_pending && old(self).registry.handle_of(
                old(self).toggle_target(),
            ) is None {
                Some(StimError::VariantUnavailable)
            } else {
                None::<StimError>
            }),
            // The input router: last pointer event wins, scroll deltas accumulate.
            final(self).params.orientation == old(self).params.orientation + sum_deltas(deltas@),
            moves@.len() > 0 && viewport.is_valid() ==> final(self).params.position
                == normalize_spec(moves@.last(), *viewport),
            moves@.len() == 0 || !viewport.is_valid() ==> final(self).params.position == old(
                self,
            ).params.position,
            r.input_error == (if moves@.len() > 0 && !viewport.is_valid() {
                Some(StimError::InvalidViewport)
            } else {
                None::<StimError>
            }),
            // Synthesis and the frozen render snapshot for this frame.
            final(self).entity.transform == synthesize_spec(final(self).params),
            r.snapshot.transform == final(self).entity.transform,
            r.snapshot.material == final(self).entity.material,
            final(self).registry.handle_of(final(self).entity.variant) == Some(
                r.snapshot.material,
            ),
    {
        let mut toggle_error: Option<StimError> = None;
        if self.toggle_pending {
            self.toggle_pending = false;
            match self.entity.toggle_variant(&self.registry) {
                Ok(()) => {},
                Err(err) => {
                    toggle_error = Some(err);
                },
            }
        }
        let input_error: Option<StimError> = match route_input(
            &mut self.params,
            moves,
            deltas,
            viewport,
        ) {
            Ok(()) => None,
            Err(err) => Some(err),
        };
        self.entity.apply_transform(&self.params);
        FrameReport {
            snapshot: RenderSnapshot {
                transform: self.entity.transform,
                material: self.entity.material,
            },
            input_error,
            toggle_error,
        }
    }
}

/// Law: the render plugin never observes the entity without a material or
/// with an ambiguous one. In any well-formed session — and [`Session::new`],
/// [`Session::request_toggle`] and [`Session::tick`] each yield one, so the
/// invariant holds at every frame boundary under any interleaving of toggle
/// requests and frames — the entity carries exactly one material: the
/// registry's payload for its active variant.
pub proof fn lemma_render_binding_total(s: Session)
    requires
        s.wf(),
    ensures
        s.registry.handle_of(s.entity.variant) == Some(s.entity.material),
{
}

} // verus!
