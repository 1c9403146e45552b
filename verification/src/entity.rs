use vstd::prelude::*;

use crate::params::StimulusParameters;
use crate::transform::{synthesize, synthesize_spec, Transform2D};
use crate::units::StimError;
use crate::variant::{MaterialHandle, MaterialRegistry, StimulusVariant};

verus! {

/// The single renderable object: its placement, the variant it currently
/// renders as, and the payload bound for that variant. Created once at
/// setup; only the transform and the material binding ever mutate, so the
/// entity's identity is stable across variant swaps.
#[derive(Clone, Copy, Debug, PartialEq, Eq, Structural)]
pub struct StimulusEntity {
    pub transform: Transform2D,
    pub variant: StimulusVariant,
    pub material: MaterialHandle,
}

impl StimulusEntity {
    /// Well-formedness against the registry the entity was spawned from:
    /// the one material bound to the entity is exactly the registry's
    /// payload for the active variant — never missing, never a stale one.
    pub open spec fn wf(self, registry: MaterialRegistry) -> bool {
        registry.handle_of(self.variant) == Some(self.material)
    }

    /// Creates the entity at setup, rendering as the initial variant with
    /// the given parameters. Fails with `VariantUnavailable` — and setup
    /// should abort — exactly when the initial variant's payload is not
    /// registered.
    pub fn spawn(registry: &MaterialRegistry, params: &StimulusParameters) -> (r: Result<
        StimulusEntity,
        StimError,
    >)
        ensures
            match r {
                Ok(e) => {
                    &&& registry.handle_of(StimulusVariant::initial()) == Some(e.material)
                    &&& e.variant == StimulusVariant::initial()
                    &&& e.transform == synthesize_spec(*params)
                    &&& e.wf(*registry)
                },
                Err(err) => {
                    &&& err == StimError::VariantUnavailable
                    &&& registry.handle_of(StimulusVariant::initial()) is None
                },
            },
    {
        match registry.lookup(StimulusVariant::Grating) {
            Some(material) => Ok(
                StimulusEntity {
                    transform: synthesize(params),
                    variant: StimulusVariant::Grating,
                    material,
                },
            ),
            None => Err(StimError::VariantUnavailable),
        }
    }

    /// Re-derives the entity's transform from the current parameter
    /// snapshot. Variant and material binding are untouched, so this is safe
    /// every frame regardless of swaps.
    pub fn apply_transform(&mut self, params: &StimulusParameters)
        ensures
            final(self).transform == synthesize_spec(*params),
            final(self).variant == old(self).variant,
            final(self).material == old(self).material,
    {
        self.transform = synthesize(params);
    }

    /// Swaps the entity to the other variant in one atomic assignment of
    /// variant and material: no observer ever sees the entity without a
    /// payload or with two. If the target variant's payload is missing the
    /// swap is rejected with `VariantUnavailable` and the entity keeps its
    /// prior, fully valid state.
    pub fn toggle_variant(&mut self, registry: &MaterialRegistry) -> (r: Result<(), StimError>)
        requires
            old(self).wf(*registry),
        ensures
            final(self).wf(*registry),
            final(self).transform == old(self).transform,
            match r {
                Ok(()) => {
                    &&& final(self).variant == old(self).variant.toggled()
                    &&& registry.handle_of(old(self).variant.toggled()) == Some(
                        final(self).material,
                    )
                },
                Err(err) => {
                    &&& err == StimError::VariantUnavailable
                    &&& registry.handle_of(old(self).variant.toggled()) is None
                    &&& *final(self) == *old(self)
                },
            },
    {
        let next = self.variant.toggle();
        match registry.lookup(next) {
            Some(material) => {
                self.variant = next;
                self.material = material;
                Ok(())
            },
            None => Err(StimError::VariantUnavailable),
        }
    }
}

/// Law: a double toggle restores both the variant and the material binding.
/// For any well-formed entity, the variant two toggles away is the starting
/// variant, and the payload the registry would bind after those two toggles
/// is exactly the handle bound before any toggle.
pub proof fn lemma_double_toggle_restores_material(e: StimulusEntity, registry: MaterialRegistry)
    requires
        e.wf(registry),
    ensures
        e.variant.toggled().toggled() == e.variant,
        registry.handle_of(e.variant.toggled().toggled()) == Some(e.material),
{
}

} // verus!
