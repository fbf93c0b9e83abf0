//! The event translator: a pure, stateless map from one native event to
//! zero-or-one normalized events.
//!
//! The rules, in priority order:
//! 1. A native quit signal, or a key-down for the escape key, becomes
//!    [`SimulatorEvent::Quit`], whatever else the event carries.
//! 2. Key events with a resolvable symbolic code become `KeyDown`/`KeyUp`;
//!    an unresolvable code drops the event.
//! 3. Mouse button and motion positions run through the injected corrector.
//! 4. Wheel deltas and direction pass through unchanged.
//! 5. Touch positions are scaled by the logical window size, truncated, and
//!    then corrected like mouse positions; pressure becomes a truncated
//!    percentage.
//! 6. Every other native event kind is dropped.

use crate::corrector::PointCorrector;
use crate::event::KEYCODE_ESCAPE;
use crate::event::MouseButton;
use crate::event::NativeEvent;
use crate::event::SimulatorEvent;
use crate::fraction::UnitFraction;
use crate::fraction::percent_of;
use crate::fraction::scale_spec;
use crate::geometry::Point;
use crate::geometry::Size;
use vstd::prelude::*;

verus! {

/// The logical point a normalized touch position stands for: each axis is
/// the fraction of the matching window extent, truncated to whole pixels.
pub open spec fn scale_pos_spec(x: UnitFraction, y: UnitFraction, size: Size) -> Point {
    Point {
        x: scale_spec(x.value(), size.width as int) as i32,
        y: scale_spec(y.value(), size.height as int) as i32,
    }
}

/// Scales a normalized touch position into the logical coordinate space of
/// a window of extent `size`.
pub fn scale_touch_pos(x: UnitFraction, y: UnitFraction, size: Size) -> (r: Point)
    ensures
        r == scale_pos_spec(x, y, size),
{
    Point { x: x.scale(size.width), y: y.scale(size.height) }
}

/// The raw point a native event positions itself at, before correction:
/// device pixels for mouse events, the scaled touch position for finger
/// events. Events without a position report the origin.
pub open spec fn raw_point_spec(event: NativeEvent, size: Size) -> Point {
    match event {
        NativeEvent::MouseButtonUp { x, y, .. } => Point { x, y },
        NativeEvent::MouseButtonDown { x, y, .. } => Point { x, y },
        NativeEvent::MouseMotion { x, y } => Point { x, y },
        NativeEvent::FingerDown { x, y, .. } => scale_pos_spec(x, y, size),
        NativeEvent::FingerMotion { x, y, .. } => scale_pos_spec(x, y, size),
        NativeEvent::FingerUp { x, y, .. } => scale_pos_spec(x, y, size),
        _ => Point { x: 0, y: 0 },
    }
}

/// Whether the injected corrector is defined on the point the event has to
/// run through it. Events that carry no position place no condition.
pub open spec fn event_in_domain<C: PointCorrector>(
    event: NativeEvent,
    size: Size,
    corrector: C,
) -> bool {
    match event {
        NativeEvent::MouseButtonUp { x, y, .. } => corrector.in_domain(Point { x, y }),
        NativeEvent::MouseButtonDown { x, y, .. } => corrector.in_domain(Point { x, y }),
        NativeEvent::MouseMotion { x, y } => corrector.in_domain(Point { x, y }),
        NativeEvent::FingerDown { x, y, .. } => corrector.in_domain(scale_pos_spec(x, y, size)),
        NativeEvent::FingerMotion { x, y, .. } => corrector.in_domain(scale_pos_spec(x, y, size)),
        NativeEvent::FingerUp { x, y, .. } => corrector.in_domain(scale_pos_spec(x, y, size)),
        _ => true,
    }
}

/// What one native event translates to: `None` when the event is irrelevant
/// or carries an unresolvable key code, otherwise exactly one normalized
/// event with every position corrected into logical coordinates.
pub open spec fn translate_spec<C: PointCorrector>(
    event: NativeEvent,
    size: Size,
    corrector: C,
) -> Option<SimulatorEvent> {
    match event {
        NativeEvent::Quit => Some(SimulatorEvent::Quit),
        NativeEvent::KeyDown { keycode, keymod, repeat } => match keycode {
            Some(k) => if k == KEYCODE_ESCAPE {
                Some(SimulatorEvent::Quit)
            } else {
                Some(SimulatorEvent::KeyDown { keycode: k, keymod, repeat })
            },
            None => None,
        },
        NativeEvent::KeyUp { keycode, keymod, repeat } => match keycode {
            Some(k) => Some(SimulatorEvent::KeyUp { keycode: k, keymod, repeat }),
            None => None,
        },
        NativeEvent::MouseButtonUp { x, y, mouse_btn } => Some(
            SimulatorEvent::MouseButtonUp {
                mouse_btn,
                point: corrector.correct_spec(Point { x, y }),
            },
        ),
        NativeEvent::MouseButtonDown { x, y, mouse_btn } => Some(
            SimulatorEvent::MouseButtonDown {
                mouse_btn,
                point: corrector.correct_spec(Point { x, y }),
            },
        ),
        NativeEvent::MouseMotion { x, y } => Some(
            SimulatorEvent::MouseMove { point: corrector.correct_spec(Point { x, y }) },
        ),
        NativeEvent::MouseWheel { x, y, direction } => Some(
            SimulatorEvent::MouseWheel { scroll_delta: Point { x, y }, direction },
        ),
        NativeEvent::FingerDown { finger_id, x, y, pressure } => Some(
            SimulatorEvent::TouchStarted {
                id: finger_id,
                point: corrector.correct_spec(scale_pos_spec(x, y, size)),
                pressure: percent_of(pressure.value()) as u32,
            },
        ),
        NativeEvent::FingerMotion { finger_id, x, y, pressure } => Some(
            SimulatorEvent::TouchMoved {
                id: finger_id,
                point: corrector.correct_spec(scale_pos_spec(x, y, size)),
                pressure: percent_of(pressure.value()) as u32,
            },
        ),
        NativeEvent::FingerUp { finger_id, x, y, pressure } => Some(
            SimulatorEvent::TouchEnded {
                id: finger_id,
                point: corrector.correct_spec(scale_pos_spec(x, y, size)),
                pressure: percent_of(pressure.value()) as u32,
            },
        ),
        NativeEvent::Unhandled => None,
    }
}

/// Translates one native event for a window of logical extent `size`,
/// correcting every position through `corrector`.
pub fn translate_event<C: PointCorrector>(
    event: &NativeEvent,
    size: Size,
    corrector: &C,
) -> (r: Option<SimulatorEvent>)
    requires
        event_in_domain(*event, size, *corrector),
    ensures
        r == translate_spec(*event, size, *corrector),
{
    match *event {
        NativeEvent::Quit => Some(SimulatorEvent::Quit),
        NativeEvent::KeyDown { keycode, keymod, repeat } => match keycode {
            Some(k) => if k == KEYCODE_ESCAPE {
                Some(SimulatorEvent::Quit)
            } else {
                Some(SimulatorEvent::KeyDown { keycode: k, keymod, repeat })
            },
            None => None,
        },
        NativeEvent::KeyUp { keycode, keymod, repeat } => match keycode {
            Some(k) => Some(SimulatorEvent::KeyUp { keycode: k, keymod, repeat }),
            None => None,
        },
        NativeEvent::MouseButtonUp { x, y, mouse_btn } => {
            let point = corrector.output_to_display(Point { x, y });
            Some(SimulatorEvent::MouseButtonUp { mouse_btn, point })
        },
        NativeEvent::MouseButtonDown { x, y, mouse_btn } => {
            let point = corrector.output_to_display(Point { x, y });
            Some(SimulatorEvent::MouseButtonDown { mouse_btn, point })
        },
        NativeEvent::MouseMotion { x, y } => {
            let point = corrector.output_to_display(Point { x, y });
            Some(SimulatorEvent::MouseMove { point })
        },
        NativeEvent::MouseWheel { x, y, direction } => Some(
            SimulatorEvent::MouseWheel { scroll_delta: Point { x, y }, direction },
        ),
        NativeEvent::FingerDown { finger_id, x, y, pressure } => {
            let point = corrector.output_to_display(scale_touch_pos(x, y, size));
            Some(
                SimulatorEvent::TouchStarted { id: finger_id, point, pressure: pressure.to_percent() },
            )
        },
        NativeEvent::FingerMotion { finger_id, x, y, pressure } => {
            let point = corrector.output_to_display(scale_touch_pos(x, y, size));
            Some(
                SimulatorEvent::TouchMoved { id: finger_id, point, pressure: pressure.to_percent() },
            )
        },
        NativeEvent::FingerUp { finger_id, x, y, pressure } => {
            let point = corrector.output_to_display(scale_touch_pos(x, y, size));
            Some(
                SimulatorEvent::TouchEnded { id: finger_id, point, pressure: pressure.to_percent() },
            )
        },
        NativeEvent::Unhandled => None,
    }
}

/// Every emitted position is the corrector's image of the event's raw
/// point: the property holds for every injected corrector.
pub proof fn lemma_positions_use_corrector<C: PointCorrector>(
    event: NativeEvent,
    size: Size,
    corrector: C,
)
    ensures
        match translate_spec(event, size, corrector) {
            Some(SimulatorEvent::MouseButtonUp { point, .. }) => point == corrector.correct_spec(
                raw_point_spec(event, size),
            ),
            Some(SimulatorEvent::MouseButtonDown { point, .. }) => point == corrector.correct_spec(
                raw_point_spec(event, size),
            ),
            Some(SimulatorEvent::MouseMove { point }) => point == corrector.correct_spec(
                raw_point_spec(event, size),
            ),
            Some(SimulatorEvent::TouchStarted { point, .. }) => point == corrector.correct_spec(
                raw_point_spec(event, size),
            ),
            Some(SimulatorEvent::TouchMoved { point, .. }) => point == corrector.correct_spec(
                raw_point_spec(event, size),
            ),
            Some(SimulatorEvent::TouchEnded { point, .. }) => point == corrector.correct_spec(
                raw_point_spec(event, size),
            ),
            _ => true,
        },
{
}

/// The quit signal and an escape key-down both translate to exactly `Quit`,
/// whatever modifier or repeat state the key event carries.
pub proof fn lemma_quit_priority<C: PointCorrector>(
    keymod: u16,
    repeat: bool,
    size: Size,
    corrector: C,
)
    ensures
        translate_spec(NativeEvent::Quit, size, corrector) == Some(SimulatorEvent::Quit),
        translate_spec(
            NativeEvent::KeyDown { keycode: Some(KEYCODE_ESCAPE), keymod, repeat },
            size,
            corrector,
        ) == Some(SimulatorEvent::Quit),
{
}

/// Irrelevant native events, and key events without a resolvable symbolic
/// code, translate to nothing.
pub proof fn lemma_irrelevant_events_dropped<C: PointCorrector>(
    keymod: u16,
    repeat: bool,
    size: Size,
    corrector: C,
)
    ensures
        translate_spec(NativeEvent::Unhandled, size, corrector) is None,
        translate_spec(
            NativeEvent::KeyDown { keycode: None, keymod, repeat },
            size,
            corrector,
        ) is None,
        translate_spec(
            NativeEvent::KeyUp { keycode: None, keymod, repeat },
            size,
            corrector,
        ) is None,
{
}

} // verus!
