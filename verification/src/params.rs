//! The typed parameter snapshot a processing block is steered by.

use vstd::prelude::*;

use crate::modes::Fx;
use crate::modes::PanningMode;

verus! {

/// The parameter values read exactly once at block entry and held fixed for
/// the block's duration: the selected effect, the panning curve, the pan
/// position and the mid-side stereo width.
///
/// Pan and width are single-precision values owned by the host, which clamps
/// pan to [-100, 100] and width to [0, 2]. The engine never does arithmetic on
/// them: it carries their 32-bit patterns through to the kernel unchanged, so
/// a block's plan is a pure function of the snapshot.
#[derive(Clone, Copy, Debug, PartialEq, Eq, Structural)]
pub struct ParameterSnapshot {
    pub effect: Fx,
    pub curve: PanningMode,
    /// Bit pattern of the host's pan position.
    pub pan_bits: u32,
    /// Bit pattern of the host's stereo-width value.
    pub width_bits: u32,
}

impl ParameterSnapshot {
    /// The snapshot before any host or UI write: the first enumerated effect
    /// and curve, pan at center and width zero (both the all-zero pattern).
    pub open spec fn initial_spec() -> ParameterSnapshot {
        ParameterSnapshot {
            effect: Fx::Panning,
            curve: PanningMode::Linear,
            pan_bits: 0,
            width_bits: 0,
        }
    }

    pub fn new(effect: Fx, curve: PanningMode, pan_bits: u32, width_bits: u32) -> (s: Self)
        ensures
            s == (ParameterSnapshot { effect, curve, pan_bits, width_bits }),
    {
        ParameterSnapshot { effect, curve, pan_bits, width_bits }
    }
}

impl Default for ParameterSnapshot {
    fn default() -> (s: Self)
        ensures
            s == ParameterSnapshot::initial_spec(),
    {
        ParameterSnapshot {
            effect: Fx::Panning,
            curve: PanningMode::Linear,
            pan_bits: 0,
            width_bits: 0,
        }
    }
}

} // verus!
