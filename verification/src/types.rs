//! Types shared by every backend.

use vstd::prelude::*;

verus! {

/// The raw value of OpenXR's opaque environment blend mode.
pub const ENVIRONMENT_BLEND_MODE_OPAQUE: i32 = 1;
/// The raw value of OpenXR's additive environment blend mode.
pub const ENVIRONMENT_BLEND_MODE_ADDITIVE: i32 = 2;
/// The raw value of OpenXR's alpha-blend environment blend mode.
pub const ENVIRONMENT_BLEND_MODE_ALPHA_BLEND: i32 = 3;

/// A haptic output.
pub struct Haptic;

/// How rendered images are blended with the real world.
#[derive(Clone, Copy, Debug, PartialEq, Eq, Structural)]
pub enum BlendMode {
    Opaque,
    Additive,
    AlphaBlend,
}

/// The raw OpenXR environment blend mode of `mode`.
pub open spec fn blend_mode_raw(mode: BlendMode) -> i32 {
    match mode {
        BlendMode::Opaque => ENVIRONMENT_BLEND_MODE_OPAQUE,
        BlendMode::Additive => ENVIRONMENT_BLEND_MODE_ADDITIVE,
        BlendMode::AlphaBlend => ENVIRONMENT_BLEND_MODE_ALPHA_BLEND,
    }
}

impl BlendMode {
    /// The blend mode with the raw OpenXR value `raw`, which must be one of the
    /// three core blend modes.
    pub fn from_environment_blend_mode(raw: i32) -> (r: Self)
        requires
            raw == ENVIRONMENT_BLEND_MODE_OPAQUE || raw == ENVIRONMENT_BLEND_MODE_ADDITIVE
                || raw == ENVIRONMENT_BLEND_MODE_ALPHA_BLEND,
        ensures
            blend_mode_raw(r) == raw,
    {
        if raw == ENVIRONMENT_BLEND_MODE_OPAQUE {
            BlendMode::Opaque
        } else if raw == ENVIRONMENT_BLEND_MODE_ADDITIVE {
            BlendMode::Additive
        } else {
            BlendMode::AlphaBlend
        }
    }

    /// The raw OpenXR value of this blend mode.
    pub fn to_environment_blend_mode(self) -> (r: i32)
        ensures
            r == blend_mode_raw(self),
    {
        match self {
            BlendMode::Opaque => ENVIRONMENT_BLEND_MODE_OPAQUE,
            BlendMode::Additive => ENVIRONMENT_BLEND_MODE_ADDITIVE,
            BlendMode::AlphaBlend => ENVIRONMENT_BLEND_MODE_ALPHA_BLEND,
        }
    }
}

/// Converting a blend mode to its raw value and back gives the same blend mode,
/// and different blend modes have different raw values.
pub proof fn lemma_blend_mode_round_trip(mode: BlendMode, other: BlendMode)
    ensures
        blend_mode_raw(mode) == ENVIRONMENT_BLEND_MODE_OPAQUE || blend_mode_raw(mode) == ENVIRONMENT_BLEND_MODE_ADDITIVE
            || blend_mode_raw(mode) == ENVIRONMENT_BLEND_MODE_ALPHA_BLEND,
        blend_mode_raw(mode) == blend_mode_raw(other) ==> mode == other,
{
}

} // verus!
