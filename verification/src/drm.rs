//! The DRM format modifiers that a capture stream announces.

use vstd::prelude::*;

verus! {

/// The DRM format modifiers this client announces: none at all, or a linear
/// layout.
#[derive(Clone, Copy, Debug, PartialEq, Eq, Structural)]
pub enum Modifier {
    /// `DRM_FORMAT_MOD_INVALID`: the buffers carry no explicit modifier.
    Invalid,
    /// `DRM_FORMAT_MOD_LINEAR`: the buffers are laid out linearly.
    Linear,
}

/// The 64-bit code of a modifier.
pub open spec fn modifier_code(m: Modifier) -> u64 {
    match m {
        Modifier::Invalid => 0x00ff_ffff_ffff_ffff,
        Modifier::Linear => 0,
    }
}

/// The code of a modifier, as `drm_fourcc` gives it: `u64::from` on
/// `DrmModifier`. The contract claims the two codes that the crate's constants
/// `DRM_FOURCC_INVALID` (2^56 - 1) and `DRM_FOURCC_LINEAR` (0) hold.
#[verifier::external_body]
pub(crate) fn modifier_value(m: Modifier) -> (r: u64)
    ensures r == modifier_code(m),
{
    let d = match m {
        Modifier::Invalid => drm_fourcc::DrmModifier::Invalid,
        Modifier::Linear => drm_fourcc::DrmModifier::Linear,
    };
    u64::from(d)
}

impl Modifier {
    /// The 64-bit code of this modifier.
    pub fn code(&self) -> (r: u64)
        ensures r == modifier_code(*self),
    {
        modifier_value(*self)
    }
}

} // verus!
