//! Verified core of a display-window adapter.
//!
//! The library renders an application framebuffer into a native window and
//! translates the platform's raw input events into normalized events in the
//! logical coordinate space of the rendered image. The platform calls
//! themselves (window creation, texture upload, event polling) live outside
//! this crate; everything here is the pure decision logic: coordinate
//! correction, touch scaling, event translation, queue draining and the
//! single-writer lease on the native event queue.

pub mod corrector;
pub mod event;
pub mod events_iter;
pub mod fraction;
pub mod geometry;
pub mod translate;
pub mod window;

pub use corrector::AffineCorrector;
pub use corrector::IdentityCorrector;
pub use corrector::OutputSettings;
pub use corrector::PointCorrector;
pub use event::KEYCODE_ESCAPE;
pub use event::MouseButton;
pub use event::MouseWheelDirection;
pub use event::NativeEvent;
pub use event::SimulatorEvent;
pub use events_iter::SimulatorEventsIter;
pub use fraction::UnitFraction;
pub use geometry::Point;
pub use geometry::Size;
pub use translate::scale_touch_pos;
pub use translate::translate_event;
pub use window::FrameError;
pub use window::SdlWindow;
