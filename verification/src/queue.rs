//! The bounded FIFO event queue between the input path and the render
//! path.
//!
//! The queue never blocks: a push onto a full queue silently drops the new
//! event, because losing a control event is preferable to stalling the
//! input path or the audio deadline. Draining removes and returns every
//! queued event in FIFO order.

use vstd::prelude::*;
use crate::midi::MidiEvent;

verus! {

/// Fixed capacity of the event queue, in events.
pub const QUEUE_CAPACITY: usize = 32;

/// The bounded FIFO carrying MIDI events from the input path to the
/// render path.
pub struct EventQueue {
    items: Vec<MidiEvent>,
}

impl View for EventQueue {
    type V = Seq<MidiEvent>;

    closed spec fn view(&self) -> Seq<MidiEvent> {
        self.items@
    }
}

/// The effect of one push: append while there is room, drop the new event
/// when the queue is full.
pub open spec fn spec_queue_push(q: Seq<MidiEvent>, e: MidiEvent) -> Seq<MidiEvent> {
    if q.len() < QUEUE_CAPACITY {
        q.push(e)
    } else {
        q
    }
}

/// The effect of a whole burst of pushes, first event first.
pub open spec fn spec_queue_push_all(q: Seq<MidiEvent>, es: Seq<MidiEvent>) -> Seq<MidiEvent>
    decreases es.len(),
{
    if es.len() == 0 {
        q
    } else {
        spec_queue_push_all(spec_queue_push(q, es[0]), es.drop_first())
    }
}

impl EventQueue {
    /// The queue never holds more than its capacity.
    pub open spec fn wf(self) -> bool {
        self@.len() <= QUEUE_CAPACITY
    }

    /// An empty queue.
    pub fn new() -> (q: EventQueue)
        ensures
            q@ == Seq::<MidiEvent>::empty(),
            q.wf(),
    {
        EventQueue { items: Vec::new() }
    }

    /// How many events are waiting.
    pub fn len(&self) -> (n: usize)
        ensures
            n == self@.len(),
    {
        self.items.len()
    }

    /// Push one event without blocking; on a full queue the event is
    /// silently dropped (see `spec_queue_push`).
    pub fn push(&mut self, e: MidiEvent)
        requires
            old(self).wf(),
        ensures
            final(self)@ == spec_queue_push(old(self)@, e),
            final(self).wf(),
    {
        if self.items.len() < QUEUE_CAPACITY {
            self.items.push(e);
        }
    }

    /// Remove and return all queued events, in the order they were
    /// pushed; the queue is empty afterwards. Non-blocking: an empty
    /// queue yields an empty result.
    pub fn drain(&mut self) -> (out: Vec<MidiEvent>)
        requires
            old(self).wf(),
        ensures
            out@ == old(self)@,
            final(self)@ == Seq::<MidiEvent>::empty(),
            final(self).wf(),
    {
        let mut out: Vec<MidiEvent> = Vec::new();
        let n = self.items.len();
        let mut i: usize = 0;
        while i < n
            invariant
                i <= n,
                n == self.items.len(),
                self.items@ == old(self)@,
                out@ == self.items@.take(i as int),
            decreases n - i,
        {
            out.push(self.items[i]);
            i = i + 1;
        }
        assert(out@ == old(self)@) by {
            assert(out@ == self.items@.take(n as int));
            assert(self.items@.take(n as int) =~= self.items@);
        }
        self.items.clear();
        assert(self.items@ =~= Seq::<MidiEvent>::empty());
        out
    }
}

/// FIFO order: as long as there is room, pushed events line up behind the
/// queue's contents in exactly the order they were pushed, so they drain
/// in that order.
pub proof fn lemma_queue_fifo(q: Seq<MidiEvent>, es: Seq<MidiEvent>)
    requires
        q.len() + es.len() <= QUEUE_CAPACITY,
    ensures
        spec_queue_push_all(q, es) == q + es,
    decreases es.len(),
{
    if es.len() == 0 {
        assert(spec_queue_push_all(q, es) =~= q + es);
    } else {
        lemma_queue_fifo(q.push(es[0]), es.drop_first());
        assert(q.push(es[0]) + es.drop_first() =~= q + es);
    }
}

/// Pushing onto a full queue drops the newest event and leaves the queue
/// unchanged, so its length never exceeds the capacity.
pub proof fn lemma_queue_full_drops(q: Seq<MidiEvent>, e: MidiEvent)
    requires
        q.len() == QUEUE_CAPACITY,
    ensures
        spec_queue_push(q, e) == q,
        spec_queue_push(q, e).len() <= QUEUE_CAPACITY,
{
}

} // verus!
