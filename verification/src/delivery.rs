//! The double-buffered (ping-pong) delivery protocol between the engine
//! and the hardware sink.
//!
//! Two equally sized frame buffers alternate between the engine (filling)
//! and the sink (transmitting). The engine may write a slot only while it
//! owns it; after submitting a filled slot it owns nothing until the sink
//! signals that it finished transmitting the slot it was draining, at
//! which point that slot becomes the engine's. Ownership of each slot is
//! unambiguous at every instant, so a slot is never concurrently written
//! and transmitted.

use vstd::prelude::*;
use crate::engine::{Synth, spec_apply_events, spec_render_iter, spec_frame_at};

verus! {

/// Which of the two buffers a statement is about.
#[derive(Copy, Clone, PartialEq, Eq, Structural, Debug)]
pub enum Slot {
    A,
    B,
}

/// The other buffer of the pair.
pub open spec fn spec_other(s: Slot) -> Slot {
    if s is A {
        Slot::B
    } else {
        Slot::A
    }
}

/// The buffer pair and the ownership state of the protocol.
pub struct AudioDelivery {
    /// Frame storage of slot `A`; allocated once, never resized.
    pub frames_a: Vec<u32>,
    /// Frame storage of slot `B`; allocated once, never resized.
    pub frames_b: Vec<u32>,
    /// The slot the engine fills (owns) while `submitted` is false.
    pub fill_slot: Slot,
    /// True between submitting a filled slot and the sink's completion
    /// signal; while true the engine owns neither slot.
    pub submitted: bool,
}

impl AudioDelivery {
    /// Both slots always hold the same number of frames.
    pub open spec fn wf(self) -> bool {
        self.frames_a@.len() == self.frames_b@.len()
    }

    /// Frames of one block.
    pub open spec fn block_len(self) -> nat {
        self.frames_a@.len()
    }

    /// The frames currently held by a slot.
    pub open spec fn slot_frames(self, s: Slot) -> Seq<u32> {
        if s is A {
            self.frames_a@
        } else {
            self.frames_b@
        }
    }

    /// Whether the engine may write into a slot: only the slot it is
    /// currently filling, and only before it submits.
    pub open spec fn engine_may_write(self, s: Slot) -> bool {
        !self.submitted && self.fill_slot == s
    }

    /// Whether the sink may be transmitting a slot: while the engine
    /// fills, the opposite slot; once the engine has submitted, also the
    /// freshly filled slot, queued behind the one still draining.
    pub open spec fn sink_may_read(self, s: Slot) -> bool {
        if self.submitted {
            true
        } else {
            s != self.fill_slot
        }
    }

    /// A buffer pair of `block_len` zeroed frames; the engine starts by
    /// filling slot `A` while the sink drains the (silent) slot `B`.
    pub fn new(block_len: usize) -> (d: AudioDelivery)
        ensures
            d.wf(),
            d.block_len() == block_len,
            d.fill_slot == Slot::A,
            !d.submitted,
            forall|j: int| 0 <= j < block_len ==> d.frames_a@[j] == 0,
            forall|j: int| 0 <= j < block_len ==> d.frames_b@[j] == 0,
    {
        AudioDelivery {
            frames_a: vec![0u32; block_len],
            frames_b: vec![0u32; block_len],
            fill_slot: Slot::A,
            submitted: false,
        }
    }

    /// Let the engine render one block into the slot it owns. Only that
    /// slot changes: the slot the sink is draining is untouched, which is
    /// the delivery protocol's safety guarantee.
    pub fn render_block(&mut self, synth: &mut Synth)
        requires
            !old(self).submitted,
            old(self).wf(),
            old(synth).wf(),
        ensures
            final(self).fill_slot == old(self).fill_slot,
            final(self).submitted == old(self).submitted,
            final(self).wf(),
            final(self).block_len() == old(self).block_len(),
            final(self).slot_frames(spec_other(old(self).fill_slot)) == old(self).slot_frames(
                spec_other(old(self).fill_slot),
            ),
            final(synth).wf(),
            final(synth).queue@ == Seq::<crate::midi::MidiEvent>::empty(),
            final(synth).state() == spec_render_iter(
                spec_apply_events(old(synth).state(), old(synth).queue@),
                old(self).block_len(),
            ),
            forall|j: int|
                0 <= j < old(self).block_len() ==> final(self).slot_frames(old(self).fill_slot)[j]
                    == spec_frame_at(
                    spec_apply_events(old(synth).state(), old(synth).queue@),
                    j as nat,
                ),
    {
        match self.fill_slot {
            Slot::A => {
                let _ = synth.process(&mut self.frames_a);
            },
            Slot::B => {
                let _ = synth.process(&mut self.frames_b);
            },
        }
    }

    /// Hand the filled slot to the sink: from here until the completion
    /// signal the engine owns no slot and must not write.
    pub fn submit(&mut self)
        requires
            !old(self).submitted,
        ensures
            *final(self) == (AudioDelivery { submitted: true, ..*old(self) }),
    {
        self.submitted = true;
    }

    /// The sink's completion signal: it finished draining the slot it was
    /// transmitting, whose storage now passes to the engine; the slot the
    /// engine last filled is the one the sink drains next.
    pub fn completion(&mut self)
        requires
            old(self).submitted,
        ensures
            *final(self) == (AudioDelivery {
                submitted: false,
                fill_slot: spec_other(old(self).fill_slot),
                ..*old(self)
            }),
    {
        self.submitted = false;
        self.fill_slot = match self.fill_slot {
            Slot::A => Slot::B,
            Slot::B => Slot::A,
        };
    }

    /// The block most recently submitted to the sink.
    pub fn transmit_frames(&self) -> (f: &Vec<u32>)
        requires
            self.submitted,
        ensures
            f@ == self.slot_frames(self.fill_slot),
    {
        match self.fill_slot {
            Slot::A => &self.frames_a,
            Slot::B => &self.frames_b,
        }
    }
}

/// In every reachable protocol state, no slot is both writable by the
/// engine and readable by the sink: ownership is unambiguous at every
/// instant.
pub proof fn lemma_slot_exclusive(d: AudioDelivery, s: Slot)
    ensures
        !(d.engine_may_write(s) && d.sink_may_read(s)),
{
}

} // verus!
