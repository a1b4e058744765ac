//! Multisampling state of a render pipeline.

use crate::native::multisample_state_default;
use vstd::prelude::*;

verus! {

/// Multisampling as a script describes it.
#[derive(Debug, PartialEq, Eq)]
pub struct GpuMultisampleState {
    pub count: Option<u32>,
    pub mask: Option<u64>,
    pub alpha_to_coverage_enabled: Option<bool>,
}

/// Multisampling as a render pipeline is created with it.
#[derive(Clone, Copy, Debug, PartialEq, Eq, Hash)]
pub struct MultisampleState {
    pub count: u32,
    pub mask: u64,
    pub alpha_to_coverage_enabled: bool,
}

/// The sample mask of a description that gives none: the low 32 bits.
pub const SAMPLE_MASK_LOW: u64 = 0xFFFF_FFFF;

impl MultisampleState {
    /// The state of a pipeline whose description leaves multisampling out:
    /// one sample per pixel and all 64 bits of the sample mask set.
    pub open spec fn unset() -> MultisampleState {
        MultisampleState { count: 1, mask: 0xFFFF_FFFF_FFFF_FFFF, alpha_to_coverage_enabled: false }
    }
}

impl Default for MultisampleState {
    fn default() -> (state: MultisampleState)
        ensures
            state == MultisampleState::unset(),
    {
        multisample_state_default()
    }
}

impl GpuMultisampleState {
    /// The state described: one sample where no count is given, the low 32
    /// bits where no mask is given, no alpha to coverage unless asked for.
    pub open spec fn resolved(&self) -> MultisampleState {
        MultisampleState {
            count: self.count.unwrap_or(1),
            mask: self.mask.unwrap_or(SAMPLE_MASK_LOW),
            alpha_to_coverage_enabled: self.alpha_to_coverage_enabled.unwrap_or(false),
        }
    }
}

/// The multisampling of a pipeline described with `multisample`.
pub open spec fn multisample_state_of(
    multisample: Option<GpuMultisampleState>,
) -> MultisampleState {
    match multisample {
        Some(state) => state.resolved(),
        None => MultisampleState::unset(),
    }
}

/// Resolves the multisampling of a render pipeline.
pub fn serialize_multisample_state(multisample: Option<GpuMultisampleState>) -> (state:
    MultisampleState)
    ensures
        state == multisample_state_of(multisample),
{
    match multisample {
        Some(described) => MultisampleState {
            count: described.count.unwrap_or(1),
            mask: described.mask.unwrap_or(SAMPLE_MASK_LOW),
            alpha_to_coverage_enabled: described.alpha_to_coverage_enabled.unwrap_or(false),
        },
        None => MultisampleState::default(),
    }
}

} // verus!
