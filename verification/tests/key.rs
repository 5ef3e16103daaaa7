use xash3d_engine::key::{KeyButton, KeyState};
use xash3d_engine::motion::Motion;

#[test]
fn key_state_constants() {
    assert_eq!(KeyState::ANY_DOWN, KeyState::DOWN | KeyState::IMPULSE_DOWN);
    assert_eq!(KeyState::ANY_DOWN, 3);
    assert_eq!(KeyState::default().bits(), KeyState::NONE);
    let s = KeyState::from_bits_retain(KeyState::DOWN).union(KeyState::from_bits_retain(KeyState::IMPULSE_UP));
    assert_eq!(s.bits(), 5);
    assert!(s.intersects(KeyState::from_bits_retain(KeyState::IMPULSE_UP)));
    assert!(!s.intersects(KeyState::from_bits_retain(KeyState::IMPULSE_DOWN)));
    assert_eq!(KeyState::from_bits_retain(-8).bits(), -8);
}

#[test]
fn key_button_states() {
    let idle = KeyButton::from_state(0);
    assert!(!idle.is_down() && idle.is_up() && !idle.is_impulse_down() && !idle.is_impulse_up());
    assert!(!idle.is_down_or_impulse_down());

    let held = KeyButton::from_state(1);
    assert!(held.is_down() && !held.is_up() && held.is_down_or_impulse_down());

    let pressed = KeyButton::from_state(2);
    assert!(!pressed.is_down() && pressed.is_impulse_down() && pressed.is_down_or_impulse_down());

    let released = KeyButton::from_state(4);
    assert!(released.is_up() && released.is_impulse_up() && !released.is_down_or_impulse_down());

    // bits beyond the known ones are kept and ignored
    let odd = KeyButton::from_state(8 | 1);
    assert!(odd.is_down() && !odd.is_impulse_up());
}

#[test]
fn key_button_any_down_law() {
    for state in -16..16 {
        let k = KeyButton::from_state(state);
        assert_eq!(k.is_up(), !k.is_down());
        assert_eq!(k.is_down_or_impulse_down(), k.is_down() || k.is_impulse_down());
        assert_eq!(k.is_down_or_impulse_down(), state & KeyState::ANY_DOWN != 0);
    }
}

#[test]
fn motion_bits() {
    let all = [
        Motion::X, Motion::Y, Motion::Z, Motion::XR, Motion::YR, Motion::ZR, Motion::LX, Motion::LY,
        Motion::LZ, Motion::AX, Motion::AY, Motion::AZ, Motion::AXR, Motion::AYR, Motion::AZR,
    ];
    assert_eq!(all.iter().fold(0, |acc, b| acc | b), Motion::TYPES);
    assert_eq!(Motion::TYPES & Motion::RLOOP, 0);
    assert_eq!(Motion::RLOOP, 0x8000);
    let rot = Motion::from_bits_retain(Motion::XR).union(Motion::from_bits_retain(Motion::YR));
    assert_eq!(rot.bits(), 0x18);
    assert!(rot.intersects(Motion::from_bits_retain(Motion::YR | Motion::Z)));
    assert!(!rot.intersects(Motion::from_bits_retain(Motion::ZR)));
    assert_eq!(Motion::default().bits(), 0);
}
