use tablet_tool::state::{
    BUTTON_STATE_PRESSED, BUTTON_STATE_RELEASED, PROXIMITY_STATE_IN, PROXIMITY_STATE_OUT, TIP_DOWN,
    TIP_UP,
};
use tablet_tool::{ButtonState, ProximityState, TipState};

#[test]
fn proximity_codes_decode_to_their_states() {
    assert_eq!(ProximityState::from_code(0), Some(ProximityState::Out));
    assert_eq!(ProximityState::from_code(1), Some(ProximityState::In));
}

#[test]
fn tip_codes_decode_to_their_states() {
    assert_eq!(TipState::from_code(0), Some(TipState::Up));
    assert_eq!(TipState::from_code(1), Some(TipState::Down));
}

#[test]
fn button_codes_decode_to_their_states() {
    assert_eq!(ButtonState::from_code(0), Some(ButtonState::Released));
    assert_eq!(ButtonState::from_code(1), Some(ButtonState::Pressed));
}

#[test]
fn codes_outside_the_two_decode_to_nothing() {
    for code in [2u32, 3, 600, u32::MAX] {
        assert_eq!(ProximityState::from_code(code), None);
        assert_eq!(TipState::from_code(code), None);
        assert_eq!(ButtonState::from_code(code), None);
    }
}

#[test]
fn state_codes_have_the_values_of_the_device_library() {
    assert_eq!(PROXIMITY_STATE_OUT, 0);
    assert_eq!(PROXIMITY_STATE_IN, 1);
    assert_eq!(TIP_UP, 0);
    assert_eq!(TIP_DOWN, 1);
    assert_eq!(BUTTON_STATE_RELEASED, 0);
    assert_eq!(BUTTON_STATE_PRESSED, 1);
}

#[test]
fn proximity_decoding_is_a_bijection() {
    for state in [ProximityState::Out, ProximityState::In] {
        assert_eq!(ProximityState::from_code(state.code()), Some(state));
    }
    for code in [0u32, 1] {
        assert_eq!(ProximityState::from_code(code).map(|s| s.code()), Some(code));
    }
    assert_ne!(ProximityState::from_code(0), ProximityState::from_code(1));
}

#[test]
fn tip_decoding_is_a_bijection() {
    for state in [TipState::Up, TipState::Down] {
        assert_eq!(TipState::from_code(state.code()), Some(state));
    }
    for code in [0u32, 1] {
        assert_eq!(TipState::from_code(code).map(|s| s.code()), Some(code));
    }
    assert_ne!(TipState::from_code(0), TipState::from_code(1));
}

#[test]
fn button_decoding_is_a_bijection() {
    for state in [ButtonState::Pressed, ButtonState::Released] {
        assert_eq!(ButtonState::from_code(state.code()), Some(state));
    }
    for code in [0u32, 1] {
        assert_eq!(ButtonState::from_code(code).map(|s| s.code()), Some(code));
    }
    assert_ne!(ButtonState::from_code(0), ButtonState::from_code(1));
}

#[test]
fn pressed_is_one_and_released_is_zero() {
    assert_eq!(ButtonState::Pressed.code(), 1);
    assert_eq!(ButtonState::Released.code(), 0);
    assert_eq!(ProximityState::In.code(), 1);
    assert_eq!(ProximityState::Out.code(), 0);
    assert_eq!(TipState::Down.code(), 1);
    assert_eq!(TipState::Up.code(), 0);
}
