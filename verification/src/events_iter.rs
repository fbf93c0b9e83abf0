//! Lazily pulled draining of the native event queue.
//!
//! A [`SimulatorEventsIter`] holds the batch of native events that were
//! queued when draining began, together with the window's logical size and
//! the injected corrector. Each pull polls one buffered native event, runs
//! it through the translator, and either emits the normalized event or
//! silently skips it and polls the next, until the batch is exhausted.

use crate::corrector::PointCorrector;
use crate::event::NativeEvent;
use crate::event::SimulatorEvent;
use crate::geometry::Size;
use crate::translate::event_in_domain;
use crate::translate::translate_event;
use crate::translate::translate_spec;
use vstd::prelude::*;

verus! {

/// The sequence a native queue drains to: each event's translation, in
/// queue order, with untranslatable events silently dropped.
pub open spec fn drain_spec<C: PointCorrector>(
    s: Seq<NativeEvent>,
    size: Size,
    corrector: C,
) -> Seq<SimulatorEvent>
    decreases s.len(),
{
    if s.len() == 0 {
        Seq::empty()
    } else {
        match translate_spec(s[0], size, corrector) {
            Some(e) => seq![e] + drain_spec(s.drop_first(), size, corrector),
            None => drain_spec(s.drop_first(), size, corrector),
        }
    }
}

/// The single-pass, finite sequence of normalized events produced by one
/// draining call.
pub struct SimulatorEventsIter<C: PointCorrector> {
    pending: Vec<NativeEvent>,
    cursor: usize,
    output_settings: C,
    size: Size,
}

impl<C: PointCorrector> SimulatorEventsIter<C> {
    /// The logical window size positions are corrected into.
    pub closed spec fn size_spec(self) -> Size {
        self.size
    }

    /// The corrector captured for this draining call.
    pub closed spec fn settings_spec(self) -> C {
        self.output_settings
    }

    /// The native events not yet polled by this sequence.
    pub closed spec fn remaining(self) -> Seq<NativeEvent> {
        self.pending@.skip(self.cursor as int)
    }

    /// The normalized events this sequence has still to produce.
    pub open spec fn upcoming(self) -> Seq<SimulatorEvent> {
        drain_spec(self.remaining(), self.size_spec(), self.settings_spec())
    }

    pub closed spec fn wf(self) -> bool {
        self.cursor <= self.pending@.len() && forall|i: int|
            self.cursor <= i < self.pending@.len() ==> event_in_domain(
                #[trigger] self.pending@[i],
                self.size,
                self.output_settings,
            )
    }

    pub(crate) fn new(pending: Vec<NativeEvent>, output_settings: C, size: Size) -> (r: Self)
        requires
            forall|i: int|
                0 <= i < pending@.len() ==> event_in_domain(
                    #[trigger] pending@[i],
                    size,
                    output_settings,
                ),
        ensures
            r.wf(),
            r.remaining() == pending@,
            r.size_spec() == size,
            r.settings_spec() == output_settings,
    {
        let r = SimulatorEventsIter { pending, cursor: 0, output_settings, size };
        proof {
            assert(r.remaining() =~= r.pending@);
        }
        r
    }

    /// Pulls the next normalized event: polls buffered native events,
    /// skipping untranslatable ones, until one translates or the batch is
    /// exhausted. Emitted events come in queue order; a `None` means the
    /// queue was fully drained.
    pub fn next(&mut self) -> (r: Option<SimulatorEvent>)
        requires
            old(self).wf(),
        ensures
            final(self).wf(),
            final(self).size_spec() == old(self).size_spec(),
            final(self).settings_spec() == old(self).settings_spec(),
            match r {
                Some(e) => old(self).upcoming().len() > 0 && e == old(self).upcoming()[0] && old(
                    self,
                ).upcoming() == seq![e] + final(self).upcoming() && final(self).remaining().len()
                    < old(self).remaining().len(),
                None => old(self).upcoming().len() == 0 && final(self).remaining().len() == 0,
            },
    {
        let ghost orig = *self;
        loop
            invariant
                orig == *old(self),
                self.wf(),
                self.size == orig.size,
                self.output_settings == orig.output_settings,
                self.pending@ == orig.pending@,
                orig.cursor <= self.cursor,
                drain_spec(orig.remaining(), orig.size, orig.output_settings) == drain_spec(
                    self.remaining(),
                    self.size,
                    self.output_settings,
                ),
            decreases self.pending@.len() - self.cursor,
        {
            if self.cursor >= self.pending.len() {
                return None;
            }
            let e = self.pending[self.cursor];
            let ghost rem = self.remaining();
            self.cursor = self.cursor + 1;
            proof {
                assert(rem[0] == e);
                assert(rem.drop_first() =~= self.remaining());
            }
            match translate_event(&e, self.size, &self.output_settings) {
                Some(ev) => {
                    return Some(ev);
                },
                None => {},
            }
        }
    }

    /// Drains the whole sequence into a vector, in order.
    pub fn drain_all(&mut self) -> (r: Vec<SimulatorEvent>)
        requires
            old(self).wf(),
        ensures
            final(self).wf(),
            final(self).size_spec() == old(self).size_spec(),
            final(self).settings_spec() == old(self).settings_spec(),
            r@ == old(self).upcoming(),
            final(self).remaining().len() == 0,
    {
        let ghost orig = *self;
        let mut out: Vec<SimulatorEvent> = Vec::new();
        loop
            invariant
                orig == *old(self),
                self.wf(),
                self.size_spec() == orig.size_spec(),
                self.settings_spec() == orig.settings_spec(),
                orig.upcoming() == out@ + self.upcoming(),
            decreases self.remaining().len(),
        {
            match self.next() {
                Some(e) => {
                    proof {
                        assert((out@ + (seq![e] + self.upcoming())) =~= (out@.push(e)
                            + self.upcoming()));
                    }
                    out.push(e);
                },
                None => {
                    proof {
                        assert(self.upcoming() =~= Seq::<SimulatorEvent>::empty());
                        assert(out@ + self.upcoming() =~= out@);
                    }
                    return out;
                },
            }
        }
    }
}

/// Draining preserves order and is pointwise: when every queued native
/// event translates, the drained sequence is exactly each event's
/// translation, in queue order.
pub proof fn lemma_drain_order_preserving<C: PointCorrector>(
    s: Seq<NativeEvent>,
    size: Size,
    corrector: C,
)
    requires
        forall|i: int| 0 <= i < s.len() ==> translate_spec(#[trigger] s[i], size, corrector) is Some,
    ensures
        drain_spec(s, size, corrector).len() == s.len(),
        forall|i: int|
            0 <= i < s.len() ==> drain_spec(s, size, corrector)[i] == translate_spec(
                #[trigger] s[i],
                size,
                corrector,
            ).unwrap(),
    decreases s.len(),
{
    if s.len() > 0 {
        let rest = s.drop_first();
        lemma_drain_order_preserving(rest, size, corrector);
        assert(translate_spec(s[0], size, corrector) is Some);
        let e = translate_spec(s[0], size, corrector).unwrap();
        assert(drain_spec(s, size, corrector) == seq![e] + drain_spec(rest, size, corrector));
        assert forall|i: int| 0 <= i < s.len() implies drain_spec(s, size, corrector)[i]
            == translate_spec(s[i], size, corrector).unwrap() by {
            if i > 0 {
                assert(rest[i - 1] == s[i]);
                assert(drain_spec(s, size, corrector)[i] == drain_spec(rest, size, corrector)[i
                    - 1]);
            }
        }
    }
}

/// An empty native queue, or one holding only events that translate to
/// nothing, drains to the empty sequence.
pub proof fn lemma_drain_irrelevant_empty<C: PointCorrector>(
    s: Seq<NativeEvent>,
    size: Size,
    corrector: C,
)
    requires
        forall|i: int| 0 <= i < s.len() ==> translate_spec(#[trigger] s[i], size, corrector) is None,
    ensures
        drain_spec(s, size, corrector) == Seq::<SimulatorEvent>::empty(),
    decreases s.len(),
{
    if s.len() > 0 {
        assert(translate_spec(s[0], size, corrector) is None);
        lemma_drain_irrelevant_empty(s.drop_first(), size, corrector);
    }
}

} // verus!
