//! The verified core of the display window.
//!
//! [`SdlWindow`] holds the state the adapter's decisions depend on: the
//! logical size fixed at construction, and the single-writer lease on the
//! native event queue. The native resources themselves — window, renderer,
//! drawable texture, event pump — are owned by the host around this crate,
//! which performs each native call and hands plain values in and out:
//! `update` validates a frame and answers with the upload pitch, and
//! `events` turns the currently queued native events into an exclusive,
//! lazily pulled draining sequence.

use crate::corrector::PointCorrector;
use crate::event::NativeEvent;
use crate::events_iter::SimulatorEventsIter;
use crate::geometry::Size;
use crate::translate::event_in_domain;
use vstd::prelude::*;

verus! {

/// Why a frame was refused by [`SdlWindow::update`].
#[derive(Clone, Copy, Debug, PartialEq, Eq, Structural)]
pub enum FrameError {
    /// The framebuffer's byte length is not `width * height * 3`.
    LayoutMismatch,
}

/// The verified state of one display window: its fixed logical size and
/// the lease on its native event queue.
pub struct SdlWindow {
    size: Size,
    queue_leased: bool,
}

impl SdlWindow {
    /// The logical size fixed at construction.
    pub closed spec fn size_spec(self) -> Size {
        self.size
    }

    /// Whether a draining sequence currently holds the event queue.
    pub closed spec fn queue_leased_spec(self) -> bool {
        self.queue_leased
    }

    /// The byte length every frame must have: 3 bytes per pixel, row-major.
    pub open spec fn frame_len_spec(self) -> int {
        self.size_spec().width * self.size_spec().height * 3
    }

    /// The row pitch of a texture upload: logical width times 3 bytes.
    pub open spec fn frame_stride_spec(self) -> int {
        self.size_spec().width * 3
    }

    /// Creates the core of a window of fixed logical `size`, with its event
    /// queue unleased. Window chrome (title, centering) and the native
    /// resources are acquired by the host.
    pub fn new(size: Size) -> (r: Self)
        ensures
            r.size_spec() == size,
            !r.queue_leased_spec(),
    {
        SdlWindow { size, queue_leased: false }
    }

    /// The logical size fixed at construction.
    pub fn size(&self) -> (r: Size)
        ensures
            r == self.size_spec(),
    {
        self.size
    }

    /// Accepts one rendered frame: checks that `framebuffer` is a
    /// contiguous row-major 3-bytes-per-pixel buffer of exactly the logical
    /// size, and answers with the pitch the host must upload it at. The
    /// window's own state — in particular the event-queue lease — is left
    /// untouched: pushing a frame can never fabricate input events.
    pub fn update(&mut self, framebuffer: &[u8]) -> (r: Result<u64, FrameError>)
        ensures
            *final(self) == *old(self),
            match r {
                Ok(stride) => framebuffer@.len() == old(self).frame_len_spec() && stride == old(
                    self,
                ).frame_stride_spec(),
                Err(e) => framebuffer@.len() != old(self).frame_len_spec() && e
                    == FrameError::LayoutMismatch,
            },
    {
        proof {
            assert((self.size.width as int) * (self.size.height as int) <= 0xFFFFFFFFint
                * 0xFFFFFFFFint) by (nonlinear_arith)
                requires
                    self.size.width <= 0xFFFFFFFFu32,
                    self.size.height <= 0xFFFFFFFFu32,
            ;
        }
        let expected: u128 = (self.size.width as u128) * (self.size.height as u128) * 3;
        if (framebuffer.len() as u128) == expected {
            Ok((self.size.width as u64) * 3)
        } else {
            Err(FrameError::LayoutMismatch)
        }
    }

    /// Begins draining the native event queue. `pending` is the batch of
    /// native events queued at this moment, polled by the host; the
    /// returned sequence drains exactly that batch through the translator,
    /// with every position corrected by `output_settings`. The sequence
    /// holds an exclusive lease on the queue: while one is outstanding,
    /// a second call fails immediately with `None` and changes nothing.
    pub fn events<C: PointCorrector>(
        &mut self,
        output_settings: C,
        pending: Vec<NativeEvent>,
    ) -> (r: Option<SimulatorEventsIter<C>>)
        requires
            forall|i: int|
                0 <= i < pending@.len() ==> event_in_domain(
                    #[trigger] pending@[i],
                    old(self).size_spec(),
                    output_settings,
                ),
        ensures
            final(self).size_spec() == old(self).size_spec(),
            old(self).queue_leased_spec() ==> r is None && *final(self) == *old(self),
            !old(self).queue_leased_spec() ==> final(self).queue_leased_spec() && match r {
                Some(it) => it.wf() && it.remaining() == pending@ && it.size_spec() == old(
                    self,
                ).size_spec() && it.settings_spec() == output_settings,
                None => false,
            },
    {
        if self.queue_leased {
            return None;
        }
        self.queue_leased = true;
        Some(SimulatorEventsIter::new(pending, output_settings, self.size))
    }

    /// Ends a draining sequence, giving the event-queue lease back; the
    /// next `events` call may then begin a fresh sequence.
    pub fn release_events<C: PointCorrector>(&mut self, events: SimulatorEventsIter<C>)
        ensures
            final(self).size_spec() == old(self).size_spec(),
            !final(self).queue_leased_spec(),
    {
        let _ = events;
        self.queue_leased = false;
    }
}

} // verus!
