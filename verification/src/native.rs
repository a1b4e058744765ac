//! What the library takes from the native library's own definitions. Nothing
//! here is proved: each contract restates what the native library's source
//! shows.

use crate::blend::{color_write_of_bits, COLOR_WRITE_ALL};
use crate::multisample::MultisampleState;
use crate::pipeline::MAX_BIND_GROUPS;
use crate::primitive::PolygonMode;
use vstd::prelude::*;

verus! {

/// `wgpu_types::ColorWrite::from_bits`, read back with `bits`: the flag set
/// is made exactly when `bits` holds no bit but those of the four channel
/// flags, and then holds `bits` unchanged.
#[verifier::external_body]
pub(crate) fn color_write_from_bits(bits: u32) -> (mask: Option<u32>)
    ensures
        mask == color_write_of_bits(bits),
{
    match wgpu_types::ColorWrite::from_bits(bits) {
        Some(flags) => Some(flags.bits()),
        None => None,
    }
}

/// `wgpu_types::ColorWrite::default`, read back with `bits`: every channel
/// is written.
#[verifier::external_body]
pub(crate) fn color_write_default() -> (mask: u32)
    ensures
        mask == COLOR_WRITE_ALL,
{
    wgpu_types::ColorWrite::default().bits()
}

/// `wgpu_types::MultisampleState::default`, field by field: one sample per
/// pixel, every bit of the sample mask set, no alpha to coverage.
#[verifier::external_body]
pub(crate) fn multisample_state_default() -> (state: MultisampleState)
    ensures
        state == MultisampleState::unset(),
{
    let native = wgpu_types::MultisampleState::default();
    MultisampleState {
        count: native.count,
        mask: native.mask,
        alpha_to_coverage_enabled: native.alpha_to_coverage_enabled,
    }
}

/// `wgpu_types::PolygonMode::default`, variant for variant: polygons are
/// filled.
#[verifier::external_body]
pub(crate) fn polygon_mode_default() -> (mode: PolygonMode)
    ensures
        mode == PolygonMode::Fill,
{
    match wgpu_types::PolygonMode::default() {
        wgpu_types::PolygonMode::Fill => PolygonMode::Fill,
        wgpu_types::PolygonMode::Line => PolygonMode::Line,
        wgpu_types::PolygonMode::Point => PolygonMode::Point,
    }
}

/// `wgpu_core::MAX_BIND_GROUPS`: the number of bind group layouts that a
/// pipeline layout holds at most.
#[verifier::external_body]
pub(crate) fn max_bind_groups() -> (count: usize)
    ensures
        count == MAX_BIND_GROUPS,
{
    wgpu_core::MAX_BIND_GROUPS
}

} // verus!
