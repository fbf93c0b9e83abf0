use simulator_window::AffineCorrector;
use simulator_window::IdentityCorrector;
use simulator_window::MouseButton;
use simulator_window::MouseWheelDirection;
use simulator_window::NativeEvent;
use simulator_window::OutputSettings;
use simulator_window::Point;
use simulator_window::SimulatorEvent;
use simulator_window::Size;
use simulator_window::UnitFraction;
use simulator_window::scale_touch_pos;
use simulator_window::translate_event;

fn size() -> Size {
    Size::new(320, 240)
}

#[test]
fn mouse_events_use_identity_corrector() {
    let c = IdentityCorrector;
    let down = NativeEvent::MouseButtonDown { x: 10, y: 20, mouse_btn: MouseButton::Left };
    assert_eq!(
        translate_event(&down, size(), &c),
        Some(SimulatorEvent::MouseButtonDown {
            mouse_btn: MouseButton::Left,
            point: Point { x: 10, y: 20 },
        })
    );
    let up = NativeEvent::MouseButtonUp { x: 7, y: 9, mouse_btn: MouseButton::Right };
    assert_eq!(
        translate_event(&up, size(), &c),
        Some(SimulatorEvent::MouseButtonUp {
            mouse_btn: MouseButton::Right,
            point: Point { x: 7, y: 9 },
        })
    );
    let motion = NativeEvent::MouseMotion { x: -3, y: 5 };
    assert_eq!(
        translate_event(&motion, size(), &c),
        Some(SimulatorEvent::MouseMove { point: Point::new(-3, 5) })
    );
}

#[test]
fn mouse_events_use_affine_corrector() {
    let c = AffineCorrector { scale_x: 2, scale_y: 3, offset_x: 5, offset_y: -7 };
    let motion = NativeEvent::MouseMotion { x: 10, y: 20 };
    assert_eq!(
        translate_event(&motion, size(), &c),
        Some(SimulatorEvent::MouseMove { point: Point { x: 25, y: 53 } })
    );
}

#[test]
fn touch_events_use_affine_corrector() {
    let c = AffineCorrector { scale_x: 2, scale_y: 3, offset_x: 5, offset_y: -7 };
    let half = UnitFraction::new(500_000);
    let touch = NativeEvent::FingerDown {
        finger_id: 4,
        x: half,
        y: half,
        pressure: UnitFraction::new(0),
    };
    // raw touch point is (160, 120); the corrector maps it to (325, 353)
    assert_eq!(
        translate_event(&touch, size(), &c),
        Some(SimulatorEvent::TouchStarted { id: 4, point: Point { x: 325, y: 353 }, pressure: 0 })
    );
}

#[test]
fn scaled_output_settings_divide_by_pitch_toward_zero() {
    let c = OutputSettings::new(2, 1);
    let up = NativeEvent::MouseButtonUp { x: 10, y: -10, mouse_btn: MouseButton::Middle };
    assert_eq!(
        translate_event(&up, size(), &c),
        Some(SimulatorEvent::MouseButtonUp {
            mouse_btn: MouseButton::Middle,
            point: Point { x: 3, y: -3 },
        })
    );
}

#[test]
fn pressure_mapping_is_boundary_exact() {
    assert_eq!(UnitFraction::new(0).to_percent(), 0);
    assert_eq!(UnitFraction::new(1_000_000).to_percent(), 100);
    assert_eq!(UnitFraction::new(500_000).to_percent(), 50);
    // truncation, not rounding: 0.999 maps to 99
    assert_eq!(UnitFraction::new(999_000).to_percent(), 99);
    assert_eq!(UnitFraction::new(999_999).to_percent(), 99);
}

#[test]
fn fractions_above_one_clamp_to_full() {
    assert_eq!(UnitFraction::new(2_000_000).micros(), 1_000_000);
    assert_eq!(UnitFraction::new(2_000_000).to_percent(), 100);
}

#[test]
fn touch_scaling_truncates_and_saturates() {
    let p = scale_touch_pos(
        UnitFraction::new(500_000),
        UnitFraction::new(500_000),
        Size { width: 321, height: 241 },
    );
    assert_eq!(p, Point { x: 160, y: 120 });
    assert_eq!(UnitFraction::new(1_000_000).scale(u32::MAX), i32::MAX);
}

#[test]
fn quit_signal_and_escape_key_down_yield_quit() {
    let c = IdentityCorrector;
    assert_eq!(translate_event(&NativeEvent::Quit, size(), &c), Some(SimulatorEvent::Quit));
    let esc_plain = NativeEvent::KeyDown { keycode: Some(27), keymod: 0, repeat: false };
    assert_eq!(translate_event(&esc_plain, size(), &c), Some(SimulatorEvent::Quit));
    // modifiers and repeat state do not matter
    let esc_modified = NativeEvent::KeyDown { keycode: Some(27), keymod: 0x00c3, repeat: true };
    assert_eq!(translate_event(&esc_modified, size(), &c), Some(SimulatorEvent::Quit));
}

#[test]
fn escape_key_up_is_an_ordinary_key_event() {
    let c = IdentityCorrector;
    let esc_up = NativeEvent::KeyUp { keycode: Some(27), keymod: 0, repeat: false };
    assert_eq!(
        translate_event(&esc_up, size(), &c),
        Some(SimulatorEvent::KeyUp { keycode: 27, keymod: 0, repeat: false })
    );
}

#[test]
fn resolvable_key_events_translate() {
    let c = IdentityCorrector;
    let down = NativeEvent::KeyDown { keycode: Some(97), keymod: 1, repeat: true };
    assert_eq!(
        translate_event(&down, size(), &c),
        Some(SimulatorEvent::KeyDown { keycode: 97, keymod: 1, repeat: true })
    );
}

#[test]
fn unresolvable_and_unhandled_events_drop() {
    let c = IdentityCorrector;
    assert_eq!(translate_event(&NativeEvent::Unhandled, size(), &c), None);
    let down = NativeEvent::KeyDown { keycode: None, keymod: 0, repeat: false };
    assert_eq!(translate_event(&down, size(), &c), None);
    let up = NativeEvent::KeyUp { keycode: None, keymod: 2, repeat: true };
    assert_eq!(translate_event(&up, size(), &c), None);
}

#[test]
fn wheel_passes_delta_and_direction_unchanged() {
    // even a non-trivial corrector must not touch the relative delta
    let c = OutputSettings::new(4, 0);
    let wheel = NativeEvent::MouseWheel { x: 1, y: -2, direction: MouseWheelDirection::Flipped };
    assert_eq!(
        translate_event(&wheel, size(), &c),
        Some(SimulatorEvent::MouseWheel {
            scroll_delta: Point { x: 1, y: -2 },
            direction: MouseWheelDirection::Flipped,
        })
    );
}
