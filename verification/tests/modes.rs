use stereo_fx_core::modes::Fx;
use stereo_fx_core::modes::PanningMode;

#[test]
fn fx_ids_round_trip() {
    let all: [Fx; 4] = [Fx::Panning, Fx::MidSideEncode, Fx::MidSideDecode, Fx::Goniometer];
    for fx in all {
        assert_eq!(Fx::from_id(fx.to_id()), fx);
    }
}

#[test]
fn fx_ids_are_stable() {
    assert_eq!(Fx::Panning.to_id(), 0);
    assert_eq!(Fx::MidSideEncode.to_id(), 1);
    assert_eq!(Fx::MidSideDecode.to_id(), 2);
    assert_eq!(Fx::Goniometer.to_id(), 3);
    assert_eq!(Fx::from_id(0), Fx::Panning);
    assert_eq!(Fx::from_id(1), Fx::MidSideEncode);
    assert_eq!(Fx::from_id(2), Fx::MidSideDecode);
    assert_eq!(Fx::from_id(3), Fx::Goniometer);
}

#[test]
fn fx_out_of_range_id_defaults_to_panning() {
    assert_eq!(Fx::from_id(4), Fx::Panning);
    assert_eq!(Fx::from_id(17), Fx::Panning);
    assert_eq!(Fx::from_id(u32::MAX), Fx::Panning);
}

#[test]
fn panning_mode_ids_round_trip() {
    let all: [PanningMode; 3] = [PanningMode::Linear, PanningMode::Square, PanningMode::Sine];
    for pm in all {
        assert_eq!(PanningMode::from_id(pm.to_id()), pm);
    }
}

#[test]
fn panning_mode_ids_are_stable() {
    assert_eq!(PanningMode::Linear.to_id(), 0);
    assert_eq!(PanningMode::Square.to_id(), 1);
    assert_eq!(PanningMode::Sine.to_id(), 2);
    assert_eq!(PanningMode::from_id(0), PanningMode::Linear);
    assert_eq!(PanningMode::from_id(1), PanningMode::Square);
    assert_eq!(PanningMode::from_id(2), PanningMode::Sine);
}

#[test]
fn panning_mode_out_of_range_id_defaults_to_linear() {
    assert_eq!(PanningMode::from_id(3), PanningMode::Linear);
    assert_eq!(PanningMode::from_id(100), PanningMode::Linear);
    assert_eq!(PanningMode::from_id(u32::MAX), PanningMode::Linear);
}
