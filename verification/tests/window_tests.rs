use simulator_window::FrameError;
use simulator_window::IdentityCorrector;
use simulator_window::MouseButton;
use simulator_window::NativeEvent;
use simulator_window::Point;
use simulator_window::SdlWindow;
use simulator_window::SimulatorEvent;
use simulator_window::Size;
use simulator_window::UnitFraction;

fn window() -> SdlWindow {
    SdlWindow::new(Size { width: 320, height: 240 })
}

#[test]
fn update_accepts_exact_layout_and_reports_stride() {
    let mut w = window();
    let frame = vec![0u8; 320 * 240 * 3];
    assert_eq!(w.update(&frame), Ok(320 * 3));
}

#[test]
fn update_refuses_wrong_layout() {
    let mut w = window();
    let frame = vec![0u8; 320 * 240 * 3 - 1];
    assert_eq!(w.update(&frame), Err(FrameError::LayoutMismatch));
    let empty: Vec<u8> = Vec::new();
    assert_eq!(w.update(&empty), Err(FrameError::LayoutMismatch));
}

#[test]
fn update_then_events_fabricates_nothing() {
    let mut w = window();
    let frame = vec![0u8; 320 * 240 * 3];
    assert_eq!(w.update(&frame), Ok(320 * 3));
    let mut it = w.events(IdentityCorrector, Vec::new()).unwrap();
    assert_eq!(it.next(), None);
}

#[test]
fn draining_preserves_queue_order() {
    let mut w = window();
    let queue = vec![
        NativeEvent::KeyDown { keycode: Some(97), keymod: 0, repeat: false },
        NativeEvent::MouseMotion { x: 1, y: 2 },
        NativeEvent::Quit,
    ];
    let mut it = w.events(IdentityCorrector, queue).unwrap();
    let drained = it.drain_all();
    assert_eq!(
        drained,
        vec![
            SimulatorEvent::KeyDown { keycode: 97, keymod: 0, repeat: false },
            SimulatorEvent::MouseMove { point: Point { x: 1, y: 2 } },
            SimulatorEvent::Quit,
        ]
    );
}

#[test]
fn draining_continues_past_quit() {
    let mut w = window();
    let queue = vec![
        NativeEvent::Quit,
        NativeEvent::MouseMotion { x: 5, y: 6 },
    ];
    let mut it = w.events(IdentityCorrector, queue).unwrap();
    assert_eq!(it.next(), Some(SimulatorEvent::Quit));
    assert_eq!(it.next(), Some(SimulatorEvent::MouseMove { point: Point { x: 5, y: 6 } }));
    assert_eq!(it.next(), None);
}

#[test]
fn empty_queue_drains_to_nothing() {
    let mut w = window();
    let mut it = w.events(IdentityCorrector, Vec::new()).unwrap();
    assert_eq!(it.next(), None);
}

#[test]
fn irrelevant_only_queue_drains_to_nothing() {
    let mut w = window();
    let queue = vec![
        NativeEvent::Unhandled,
        NativeEvent::KeyDown { keycode: None, keymod: 0, repeat: false },
        NativeEvent::Unhandled,
    ];
    let mut it = w.events(IdentityCorrector, queue).unwrap();
    assert_eq!(it.next(), None);
}

#[test]
fn skipped_events_do_not_break_order() {
    let mut w = window();
    let queue = vec![
        NativeEvent::Unhandled,
        NativeEvent::MouseButtonDown { x: 3, y: 4, mouse_btn: MouseButton::Left },
        NativeEvent::KeyUp { keycode: None, keymod: 0, repeat: false },
        NativeEvent::MouseButtonUp { x: 3, y: 4, mouse_btn: MouseButton::Left },
    ];
    let mut it = w.events(IdentityCorrector, queue).unwrap();
    let drained = it.drain_all();
    assert_eq!(
        drained,
        vec![
            SimulatorEvent::MouseButtonDown {
                mouse_btn: MouseButton::Left,
                point: Point { x: 3, y: 4 },
            },
            SimulatorEvent::MouseButtonUp {
                mouse_btn: MouseButton::Left,
                point: Point { x: 3, y: 4 },
            },
        ]
    );
}

#[test]
fn second_draining_sequence_fails_while_first_is_outstanding() {
    let mut w = window();
    let first = w.events(IdentityCorrector, vec![NativeEvent::Quit]).unwrap();
    // the queue is leased: beginning a second sequence must fail at once
    assert!(w.events(IdentityCorrector, Vec::new()).is_none());
    // releasing the lease makes draining available again
    w.release_events(first);
    let mut third = w.events(IdentityCorrector, vec![NativeEvent::Quit]).unwrap();
    assert_eq!(third.next(), Some(SimulatorEvent::Quit));
    w.release_events(third);
}

#[test]
fn touch_scenario_end_to_end() {
    let mut w = SdlWindow::new(Size { width: 320, height: 240 });
    let queue = vec![NativeEvent::FingerDown {
        finger_id: 1,
        x: UnitFraction::new(500_000),
        y: UnitFraction::new(500_000),
        pressure: UnitFraction::new(800_000),
    }];
    let mut it = w.events(IdentityCorrector, queue).unwrap();
    assert_eq!(
        it.next(),
        Some(SimulatorEvent::TouchStarted {
            id: 1,
            point: Point { x: 160, y: 120 },
            pressure: 80,
        })
    );
    assert_eq!(it.next(), None);
}

#[test]
fn touch_motion_and_lift_translate() {
    let mut w = window();
    let queue = vec![
        NativeEvent::FingerMotion {
            finger_id: 2,
            x: UnitFraction::new(0),
            y: UnitFraction::new(1_000_000),
            pressure: UnitFraction::new(250_000),
        },
        NativeEvent::FingerUp {
            finger_id: 2,
            x: UnitFraction::new(0),
            y: UnitFraction::new(1_000_000),
            pressure: UnitFraction::new(0),
        },
    ];
    let mut it = w.events(IdentityCorrector, queue).unwrap();
    assert_eq!(
        it.next(),
        Some(SimulatorEvent::TouchMoved { id: 2, point: Point { x: 0, y: 240 }, pressure: 25 })
    );
    assert_eq!(
        it.next(),
        Some(SimulatorEvent::TouchEnded { id: 2, point: Point { x: 0, y: 240 }, pressure: 0 })
    );
    assert_eq!(it.next(), None);
}
