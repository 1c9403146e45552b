use vstd::prelude::*;

verus! {

/// The closed set of visual kinds the stimulus can render as. Exactly one is
/// active at any time; the only transition is [`StimulusVariant::toggle`].
#[derive(Clone, Copy, Debug, PartialEq, Eq, Structural)]
pub enum StimulusVariant {
    Grating,
    Gabor,
}

/// An identifier for a renderable payload (mesh and shader binding) held by
/// the rendering subsystem. The core never looks inside a payload; it only
/// selects which one is bound to the entity.
#[derive(Clone, Copy, Debug, PartialEq, Eq, Structural)]
pub struct MaterialHandle {
    pub id: u64,
}

impl StimulusVariant {
    /// The variant a stimulus starts as.
    pub open spec fn initial() -> StimulusVariant {
        StimulusVariant::Grating
    }

    /// The other variant: the one a toggle switches to.
    pub open spec fn toggled(self) -> StimulusVariant {
        match self {
            StimulusVariant::Grating => StimulusVariant::Gabor,
            StimulusVariant::Gabor => StimulusVariant::Grating,
        }
    }

    /// Flips to the other variant unconditionally; the state machine's only
    /// transition.
    pub fn toggle(self) -> (r: StimulusVariant)
        ensures
            r == self.toggled(),
    {
        match self {
            StimulusVariant::Grating => StimulusVariant::Gabor,
            StimulusVariant::Gabor => StimulusVariant::Grating,
        }
    }
}

/// Law: toggling is an involution — two toggles return any variant to its
/// starting value.
pub proof fn lemma_toggle_involution(v: StimulusVariant)
    ensures
        v.toggled().toggled() == v,
{
}

/// The registry of renderable payloads, one slot per variant. A slot is
/// `None` while that variant's payload is not loaded; toggling onto such a
/// variant is rejected. The registry is filled at setup and read-only
/// afterwards.
#[derive(Clone, Copy, Debug, PartialEq, Eq, Structural)]
pub struct MaterialRegistry {
    pub grating: Option<MaterialHandle>,
    pub gabor: Option<MaterialHandle>,
}

impl MaterialRegistry {
    /// The payload registered for a variant, if any.
    pub open spec fn handle_of(self, v: StimulusVariant) -> Option<MaterialHandle> {
        match v {
            StimulusVariant::Grating => self.grating,
            StimulusVariant::Gabor => self.gabor,
        }
    }

    /// Looks a variant's payload up.
    pub fn lookup(&self, v: StimulusVariant) -> (r: Option<MaterialHandle>)
        ensures
            r == self.handle_of(v),
    {
        match v {
            StimulusVariant::Grating => self.grating,
            StimulusVariant::Gabor => self.gabor,
        }
    }
}

} // verus!
