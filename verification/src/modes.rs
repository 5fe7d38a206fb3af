//! The two closed enumerations the engine is steered by: the selected effect
//! and the panning response curve, each with an exact integer-id round-trip.

use vstd::prelude::*;

verus! {

/// The effect applied to a processing block.
#[derive(Clone, Copy, Debug, PartialEq, Eq, Structural)]
pub enum Fx {
    Panning,
    MidSideEncode,
    MidSideDecode,
    Goniometer,
}

/// The response curve of the panning kernel.
#[derive(Clone, Copy, Debug, PartialEq, Eq, Structural)]
pub enum PanningMode {
    Linear,
    Square,
    Sine,
}

impl Fx {
    /// The small integer id under which a mode is persisted and transmitted.
    pub open spec fn id_spec(self) -> u32 {
        match self {
            Fx::Panning => 0,
            Fx::MidSideEncode => 1,
            Fx::MidSideDecode => 2,
            Fx::Goniometer => 3,
        }
    }

    /// The mode a stored id denotes. An id outside the table is a valid
    /// degraded state, not an error: it falls back to `Panning`.
    pub open spec fn from_id_spec(id: u32) -> Fx {
        if id == 1 {
            Fx::MidSideEncode
        } else if id == 2 {
            Fx::MidSideDecode
        } else if id == 3 {
            Fx::Goniometer
        } else {
            Fx::Panning
        }
    }

    pub fn to_id(self) -> (id: u32)
        ensures
            id == self.id_spec(),
    {
        match self {
            Fx::Panning => 0,
            Fx::MidSideEncode => 1,
            Fx::MidSideDecode => 2,
            Fx::Goniometer => 3,
        }
    }

    pub fn from_id(id: u32) -> (fx: Fx)
        ensures
            fx == Fx::from_id_spec(id),
    {
        if id == 1 {
            Fx::MidSideEncode
        } else if id == 2 {
            Fx::MidSideDecode
        } else if id == 3 {
            Fx::Goniometer
        } else {
            Fx::Panning
        }
    }
}

impl PanningMode {
    /// The small integer id under which a curve is persisted and transmitted.
    pub open spec fn id_spec(self) -> u32 {
        match self {
            PanningMode::Linear => 0,
            PanningMode::Square => 1,
            PanningMode::Sine => 2,
        }
    }

    /// The curve a stored id denotes; an id outside the table falls back to
    /// `Linear`.
    pub open spec fn from_id_spec(id: u32) -> PanningMode {
        if id == 1 {
            PanningMode::Square
        } else if id == 2 {
            PanningMode::Sine
        } else {
            PanningMode::Linear
        }
    }

    pub fn to_id(self) -> (id: u32)
        ensures
            id == self.id_spec(),
    {
        match self {
            PanningMode::Linear => 0,
            PanningMode::Square => 1,
            PanningMode::Sine => 2,
        }
    }

    pub fn from_id(id: u32) -> (pm: PanningMode)
        ensures
            pm == PanningMode::from_id_spec(id),
    {
        if id == 1 {
            PanningMode::Square
        } else if id == 2 {
            PanningMode::Sine
        } else {
            PanningMode::Linear
        }
    }
}

/// Storing a mode and reading it back yields the same mode: the id table is
/// injective over the enumerated set.
pub proof fn lemma_fx_id_round_trip(fx: Fx)
    ensures
        Fx::from_id_spec(fx.id_spec()) == fx,
{
}

/// Over the ids the table actually assigns, reading and re-storing is exact:
/// id-to-mode and mode-to-id are mutual inverses there.
pub proof fn lemma_fx_id_inverse(id: u32)
    requires
        id <= 3,
    ensures
        Fx::from_id_spec(id).id_spec() == id,
{
}

/// An id outside the table selects the first enumerated mode, silently.
pub proof fn lemma_fx_unknown_id_defaults(id: u32)
    requires
        id > 3,
    ensures
        Fx::from_id_spec(id) == Fx::Panning,
{
}

/// Storing a curve and reading it back yields the same curve.
pub proof fn lemma_panning_mode_id_round_trip(pm: PanningMode)
    ensures
        PanningMode::from_id_spec(pm.id_spec()) == pm,
{
}

/// Over the ids the table actually assigns, reading and re-storing a curve is
/// exact.
pub proof fn lemma_panning_mode_id_inverse(id: u32)
    requires
        id <= 2,
    ensures
        PanningMode::from_id_spec(id).id_spec() == id,
{
}

/// An id outside the curve table selects the first enumerated curve, silently.
pub proof fn lemma_panning_mode_unknown_id_defaults(id: u32)
    requires
        id > 2,
    ensures
        PanningMode::from_id_spec(id) == PanningMode::Linear,
{
}

} // verus!
