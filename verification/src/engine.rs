//! The synthesis engine: owns the event queue's consumer end, the voice
//! pool and the global parameters, and renders blocks of audio.

use vstd::prelude::*;
use core::ops::ControlFlow;
use crate::midi::{MidiEvent, relevant_status, spec_relevant_status};
use crate::queue::{EventQueue, spec_queue_push};
use crate::pool::{
    VoicePool, MAX_VOICES, spec_note_on_voices, spec_note_on_age, spec_note_off_all,
    spec_frame_voices, spec_frame_word,
};
use crate::params::{SynthParams, spec_control_change, spec_default_params};
use crate::voice::Voice;

verus! {

/// The engine's mathematical state, as the contracts speak of it: the
/// voices, the allocation counter and the global parameters. The event
/// queue stands beside it.
pub struct EngineState {
    pub voices: Seq<Voice>,
    pub age: u32,
    pub params: SynthParams,
}

/// The polyphonic synthesizer: drains its event queue, updates the voice
/// pool, and renders audio frames.
pub struct Synth {
    /// Pending MIDI events, consumed at the start of every render call.
    pub queue: EventQueue,
    /// The polyphony slots and the stealing counter.
    pub pool: VoicePool,
    /// The shared timbre: waveform, ADSR and filter configuration.
    pub params: SynthParams,
}

/// The effect of one MIDI event on the engine state:
/// * Note-On starts a voice, or acts as Note-Off at velocity zero;
/// * Note-Off releases every gated voice playing the note;
/// * Control-Change updates one global parameter;
/// * anything else, and any event with a data byte outside the 7-bit
///   range, is malformed or unsupported and is ignored.
pub open spec fn spec_apply_event(s: EngineState, e: MidiEvent) -> EngineState {
    if 0x90 <= e.status && e.status < 0xA0 {
        if e.data1 <= 127 && e.data2 <= 127 {
            EngineState {
                voices: spec_note_on_voices(s.voices, s.age, e.data1, e.data2, s.params),
                age: spec_note_on_age(s.age, e.data2),
                ..s
            }
        } else {
            s
        }
    } else if 0x80 <= e.status && e.status < 0x90 {
        EngineState { voices: spec_note_off_all(s.voices, e.data1, s.params.release_ms), ..s }
    } else if 0xB0 <= e.status && e.status < 0xC0 {
        if e.data2 <= 127 {
            EngineState { params: spec_control_change(s.params, e.data1, e.data2), ..s }
        } else {
            s
        }
    } else {
        s
    }
}

/// The engine state after a whole burst of events, first event first.
pub open spec fn spec_apply_events(s: EngineState, es: Seq<MidiEvent>) -> EngineState
    decreases es.len(),
{
    if es.len() == 0 {
        s
    } else {
        spec_apply_events(spec_apply_event(s, es[0]), es.drop_first())
    }
}

/// Applying one more event at the end of a burst.
pub proof fn lemma_apply_events_snoc(s: EngineState, es: Seq<MidiEvent>, e: MidiEvent)
    ensures
        spec_apply_events(s, es.push(e)) == spec_apply_event(spec_apply_events(s, es), e),
    decreases es.len(),
{
    if es.len() == 0 {
        assert(es.push(e)[0] == e);
        assert(es.push(e).drop_first() =~= Seq::<MidiEvent>::empty());
        assert(spec_apply_events(s, es.push(e)) == spec_apply_events(
            spec_apply_event(s, e),
            Seq::<MidiEvent>::empty(),
        ));
        assert(spec_apply_events(spec_apply_event(s, e), Seq::<MidiEvent>::empty())
            == spec_apply_event(s, e));
        assert(spec_apply_events(s, es) == s);
    } else {
        assert(es.push(e)[0] == es[0]);
        assert(es.push(e).drop_first() =~= es.drop_first().push(e));
        assert(spec_apply_events(s, es.push(e)) == spec_apply_events(
            spec_apply_event(s, es[0]),
            es.drop_first().push(e),
        ));
        lemma_apply_events_snoc(spec_apply_event(s, es[0]), es.drop_first(), e);
        assert(spec_apply_events(s, es) == spec_apply_events(
            spec_apply_event(s, es[0]),
            es.drop_first(),
        ));
    }
}

/// The engine state after rendering one frame: every voice advances one
/// sample; the parameters and the allocation counter do not change.
pub open spec fn spec_render_state(s: EngineState) -> EngineState {
    EngineState { voices: spec_frame_voices(s.voices, s.params), ..s }
}

/// The engine state after rendering `k` frames.
pub open spec fn spec_render_iter(s: EngineState, k: nat) -> EngineState
    decreases k,
{
    if k == 0 {
        s
    } else {
        spec_render_state(spec_render_iter(s, (k - 1) as nat))
    }
}

/// The frame written at block position `j`, given the state the render
/// loop started from.
pub open spec fn spec_frame_at(s: EngineState, j: nat) -> u32 {
    spec_frame_word(spec_render_iter(s, j).voices, s.params)
}

impl Synth {
    /// The engine state the contracts speak of.
    pub open spec fn state(self) -> EngineState {
        EngineState { voices: self.pool.voices@, age: self.pool.age_counter, params: self.params }
    }

    /// Queue within capacity, pool and parameters well-formed.
    pub open spec fn wf(self) -> bool {
        &&& self.queue.wf()
        &&& self.pool.wf()
        &&& self.params.wf()
    }

    /// A fresh engine: an empty queue, `n_voices` idle voices, the
    /// default parameters.
    pub fn new(n_voices: usize) -> (s: Synth)
        requires
            1 <= n_voices <= MAX_VOICES,
        ensures
            s.wf(),
            s.queue@ == Seq::<MidiEvent>::empty(),
            s.pool.voices@.len() == n_voices,
            forall|i: int|
                0 <= i < n_voices ==> s.pool.voices@[i] == crate::voice::spec_idle_voice(),
            s.pool.age_counter == 0,
            s.params == spec_default_params(),
    {
        Synth { queue: EventQueue::new(), pool: VoicePool::new(n_voices), params: SynthParams::new() }
    }

    /// Producer-side entry: push one event onto the queue, discarding
    /// anything that is not Note-On, Note-Off or Control-Change, so that
    /// irrelevant traffic cannot crowd the queue; a full queue drops the
    /// event.
    pub fn push_event(&mut self, e: MidiEvent)
        requires
            old(self).wf(),
        ensures
            final(self).queue@ == (if spec_relevant_status(e.status) {
                spec_queue_push(old(self).queue@, e)
            } else {
                old(self).queue@
            }),
            final(self).pool == old(self).pool,
            final(self).params == old(self).params,
            final(self).wf(),
    {
        if relevant_status(e.status) {
            self.queue.push(e);
        }
    }

    /// Apply one drained event to pool and parameters (see
    /// `spec_apply_event`).
    fn apply_event(&mut self, e: MidiEvent)
        requires
            old(self).wf(),
        ensures
            final(self).state() == spec_apply_event(old(self).state(), e),
            final(self).queue == old(self).queue,
            final(self).wf(),
    {
        let status = e.status;
        if 0x90 <= status && status < 0xA0 {
            if e.data1 <= 127 && e.data2 <= 127 {
                self.pool.note_on(e.data1, e.data2, &self.params);
            }
        } else if 0x80 <= status && status < 0x90 {
            self.pool.note_off(e.data1, self.params.release_ms);
        } else if 0xB0 <= status && status < 0xC0 {
            if e.data2 <= 127 {
                self.params.control_change(e.data1, e.data2);
            }
        }
    }

    /// Render one block: drain the pending events in FIFO order and apply
    /// each of them, then fill every frame of `buf` with the mixed,
    /// normalized output of all voices. MIDI timing is thereby quantized
    /// to one render call. Always signals the caller to continue: the
    /// render loop is unconditional for the process lifetime.
    pub fn process(&mut self, buf: &mut Vec<u32>) -> (flow: ControlFlow<(), ()>)
        requires
            old(self).wf(),
        ensures
            flow == ControlFlow::<(), ()>::Continue(()),
            final(self).wf(),
            final(self).queue@ == Seq::<MidiEvent>::empty(),
            final(self).state() == spec_render_iter(
                spec_apply_events(old(self).state(), old(self).queue@),
                old(buf)@.len() as nat,
            ),
            final(buf)@.len() == old(buf)@.len(),
            forall|j: int|
                0 <= j < old(buf)@.len() ==> final(buf)@[j] == spec_frame_at(
                    spec_apply_events(old(self).state(), old(self).queue@),
                    j as nat,
                ),
    {
        let ghost s0 = old(self).state();
        let events = self.queue.drain();
        let n_events = events.len();
        let mut i: usize = 0;
        while i < n_events
            invariant
                i <= n_events,
                n_events == events@.len(),
                self.state() == spec_apply_events(s0, events@.take(i as int)),
                self.queue@ == Seq::<MidiEvent>::empty(),
                self.wf(),
            decreases n_events - i,
        {
            let e = events[i];
            proof {
                assert(events@.take(i as int).push(events@[i as int]) =~= events@.take(
                    i as int + 1,
                ));
            }
            let ghost before = self.state();
            self.apply_event(e);
            proof {
                lemma_apply_events_snoc(s0, events@.take(i as int), events@[i as int]);
            }
            i = i + 1;
        }
        proof {
            assert(events@.take(n_events as int) =~= events@);
        }
        let ghost mid = self.state();
        let n = buf.len();
        let mut j: usize = 0;
        while j < n
            invariant
                j <= n,
                buf@.len() == n,
                self.state() == spec_render_iter(mid, j as nat),
                self.params == mid.params,
                self.queue@ == Seq::<MidiEvent>::empty(),
                self.wf(),
                forall|k: int| 0 <= k < j ==> buf@[k] == spec_frame_at(mid, k as nat),
            decreases n - j,
        {
            let w = self.pool.render_frame(&self.params);
            buf.set(j, w);
            j = j + 1;
        }
        ControlFlow::Continue(())
    }
}

} // verus!
