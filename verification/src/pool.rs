//! The voice pool: owns the polyphony slots and assigns notes to them.

use vstd::prelude::*;
use crate::voice::{
    Voice, spec_start_voice, spec_voice_note_off, spec_voice_after, spec_voice_contrib,
    spec_idle_voice,
};
use crate::params::SynthParams;
use crate::midi::{midi_note_to_freq, spec_note_freq_millihz, lemma_note_freq_bound};
use crate::dsp::{
    filter_f, filter_q, spec_filter_f, spec_filter_q, scale_mix_to_sample, spec_scale_sample,
    pack_lr_16, spec_pack_lr_16, FILTER_STATE_BOUND,
};

verus! {

/// Largest pool the mixer arithmetic is sized for.
pub const MAX_VOICES: usize = 1024;

/// A fixed set of voices plus the monotonically increasing allocation
/// counter used by the stealing policy.
pub struct VoicePool {
    /// The polyphony slots; the pool's size never changes.
    pub voices: Vec<Voice>,
    /// Stamped onto a voice at every assignment; wraps on overflow (age
    /// comparisons are not meaningful across a wrap, an accepted edge
    /// case).
    pub age_counter: u32,
}

/// First idle voice at or after position `i`, if any.
pub open spec fn spec_first_inactive_from(vs: Seq<Voice>, i: int) -> Option<int>
    decreases vs.len() - i,
{
    if i < 0 || i >= vs.len() {
        None
    } else if !vs[i].spec_active() {
        Some(i)
    } else {
        spec_first_inactive_from(vs, i + 1)
    }
}

/// Index of the first voice with the smallest age among the first `n`:
/// the voice the allocator steals. Ties go to the lower index.
pub open spec fn spec_steal_upto(vs: Seq<Voice>, n: int) -> int
    decreases n,
{
    if n <= 1 {
        0
    } else {
        let b = spec_steal_upto(vs, n - 1);
        if vs[n - 1].age < vs[b].age {
            n - 1
        } else {
            b
        }
    }
}

/// The slot a note-on lands in: the first idle voice if one exists, else
/// the first oldest voice.
pub open spec fn spec_alloc_index(vs: Seq<Voice>) -> int {
    match spec_first_inactive_from(vs, 0) {
        Some(i) => i,
        None => spec_steal_upto(vs, vs.len() as int),
    }
}

/// Releasing a note releases every voice that plays it and still has its
/// gate open; everything else is untouched.
pub open spec fn spec_note_off_all(vs: Seq<Voice>, note: u8, release_ms: u32) -> Seq<Voice> {
    vs.map_values(
        |v: Voice|
            if v.note == note && v.gate {
                spec_voice_note_off(v, release_ms)
            } else {
                v
            },
    )
}

/// The voices after a note-on: velocity zero releases the note (MIDI
/// convention); otherwise exactly the allocated slot is restarted with
/// the new note.
pub open spec fn spec_note_on_voices(
    vs: Seq<Voice>,
    age: u32,
    note: u8,
    velocity: u8,
    p: SynthParams,
) -> Seq<Voice> {
    if velocity == 0 {
        spec_note_off_all(vs, note, p.release_ms)
    } else {
        let new_age = (((age as int) + 1) % 0x1_0000_0000) as u32;
        let k = spec_alloc_index(vs);
        vs.update(
            k,
            spec_start_voice(
                vs[k],
                note,
                spec_note_freq_millihz(note),
                velocity,
                new_age,
                p.attack_ms,
                p.decay_ms,
                p.sustain_q15,
            ),
        )
    }
}

/// The allocation counter after a note-on: it advances (wrapping) exactly
/// when a voice is assigned.
pub open spec fn spec_note_on_age(age: u32, velocity: u8) -> u32 {
    if velocity == 0 {
        age
    } else {
        (((age as int) + 1) % 0x1_0000_0000) as u32
    }
}

/// Every voice after one rendered sample.
pub open spec fn spec_frame_voices(vs: Seq<Voice>, p: SynthParams) -> Seq<Voice> {
    vs.map_values(
        |v: Voice|
            spec_voice_after(v, p.waveform, spec_filter_f(p.cutoff_q15), spec_filter_q(p.resonance_q15)),
    )
}

/// Sum of the contributions of the first `n` voices for one sample.
pub open spec fn spec_mix_upto(vs: Seq<Voice>, p: SynthParams, n: int) -> int
    decreases n,
{
    if n <= 0 {
        0
    } else {
        spec_mix_upto(vs, p, n - 1) + spec_voice_contrib(
            vs[n - 1],
            p.waveform,
            spec_filter_f(p.cutoff_q15),
            spec_filter_q(p.resonance_q15),
        )
    }
}

/// One output frame: the mix of every voice, normalized by the pool size,
/// scaled into 16 bits with headroom, and duplicated into both stereo
/// channels.
pub open spec fn spec_frame_word(vs: Seq<Voice>, p: SynthParams) -> u32 {
    let s = spec_scale_sample(spec_mix_upto(vs, p, vs.len() as int), vs.len() as int);
    spec_pack_lr_16(s as i16, s as i16)
}

impl VoicePool {
    /// A pool is well-formed when it has at least one voice, no more than
    /// the mixer is sized for, and every voice is well-formed.
    pub open spec fn wf(self) -> bool {
        &&& 1 <= self.voices@.len() <= MAX_VOICES
        &&& forall|i: int| 0 <= i < self.voices@.len() ==> self.voices@[i].wf()
    }

    /// A pool of `n_voices` idle voices.
    pub fn new(n_voices: usize) -> (p: VoicePool)
        requires
            1 <= n_voices <= MAX_VOICES,
        ensures
            p.wf(),
            p.voices@.len() == n_voices,
            forall|i: int| 0 <= i < n_voices ==> p.voices@[i] == spec_idle_voice(),
            p.age_counter == 0,
    {
        let mut voices: Vec<Voice> = Vec::new();
        let mut i: usize = 0;
        while i < n_voices
            invariant
                i <= n_voices,
                voices@.len() == i,
                forall|j: int| 0 <= j < i ==> voices@[j] == spec_idle_voice(),
            decreases n_voices - i,
        {
            voices.push(Voice::new());
            i = i + 1;
        }
        VoicePool { voices, age_counter: 0 }
    }

    /// First idle voice, scanning from the front.
    fn find_inactive(&self) -> (r: Option<usize>)
        ensures
            match r {
                Some(i) => 0 <= i < self.voices@.len() && spec_first_inactive_from(self.voices@, 0)
                    == Some(i as int),
                None => spec_first_inactive_from(self.voices@, 0) is None,
            },
    {
        let n = self.voices.len();
        let mut i: usize = 0;
        while i < n
            invariant
                i <= n,
                n == self.voices@.len(),
                spec_first_inactive_from(self.voices@, 0) == spec_first_inactive_from(
                    self.voices@,
                    i as int,
                ),
            decreases n - i,
        {
            if !self.voices[i].active() {
                return Some(i);
            }
            i = i + 1;
        }
        None
    }

    /// First voice with the smallest age: the steal target.
    fn steal_index(&self) -> (k: usize)
        requires
            self.voices@.len() >= 1,
        ensures
            k < self.voices@.len(),
            k as int == spec_steal_upto(self.voices@, self.voices@.len() as int),
    {
        let n = self.voices.len();
        let mut best: usize = 0;
        let mut i: usize = 1;
        while i < n
            invariant
                1 <= i <= n,
                n == self.voices@.len(),
                best < i,
                best as int == spec_steal_upto(self.voices@, i as int),
            decreases n - i,
        {
            if self.voices[i].age < self.voices[best].age {
                best = i;
            }
            i = i + 1;
        }
        best
    }

    /// Assign a note to a voice (see `spec_note_on_voices`): velocity
    /// zero acts as a note-off; otherwise an idle voice is used if one
    /// exists, else the oldest voice is stolen.
    pub fn note_on(&mut self, note: u8, velocity: u8, p: &SynthParams)
        requires
            old(self).wf(),
            note <= 127,
            velocity <= 127,
            p.wf(),
        ensures
            final(self).voices@ == spec_note_on_voices(
                old(self).voices@,
                old(self).age_counter,
                note,
                velocity,
                *p,
            ),
            final(self).age_counter == spec_note_on_age(old(self).age_counter, velocity),
            final(self).wf(),
    {
        if velocity == 0 {
            self.note_off(note, p.release_ms);
            return ;
        }
        self.age_counter = if self.age_counter == 0xFFFF_FFFF {
            0
        } else {
            self.age_counter + 1
        };
        let k = match self.find_inactive() {
            Some(i) => i,
            None => self.steal_index(),
        };
        let freq = midi_note_to_freq(note);
        proof {
            lemma_note_freq_bound(note);
        }
        let mut v = self.voices[k];
        v.start_with_adsr(
            note,
            freq,
            velocity,
            self.age_counter,
            p.attack_ms,
            p.decay_ms,
            p.sustain_q15,
        );
        self.voices.set(k, v);
    }

    /// Release every gated voice playing `note` (see
    /// `spec_note_off_all`).
    pub fn note_off(&mut self, note: u8, release_ms: u32)
        requires
            old(self).wf(),
            1 <= release_ms <= 3000,
        ensures
            final(self).voices@ == spec_note_off_all(old(self).voices@, note, release_ms),
            final(self).age_counter == old(self).age_counter,
            final(self).wf(),
    {
        let n = self.voices.len();
        let mut i: usize = 0;
        while i < n
            invariant
                i <= n,
                n == self.voices@.len(),
                n == old(self).voices@.len(),
                1 <= release_ms <= 3000,
                self.age_counter == old(self).age_counter,
                forall|j: int| i <= j < n ==> self.voices@[j] == old(self).voices@[j],
                forall|j: int|
                    0 <= j < i ==> self.voices@[j] == (if old(self).voices@[j].note == note
                        && old(self).voices@[j].gate {
                        spec_voice_note_off(old(self).voices@[j], release_ms)
                    } else {
                        old(self).voices@[j]
                    }),
                forall|j: int| 0 <= j < n ==> self.voices@[j].wf(),
            decreases n - i,
        {
            if self.voices[i].note == note && self.voices[i].gate {
                let mut v = self.voices[i];
                v.note_off(release_ms);
                self.voices.set(i, v);
            }
            i = i + 1;
        }
        assert(self.voices@ =~= spec_note_off_all(old(self).voices@, note, release_ms));
    }

    /// Render one sample across all voices and pack it into one stereo
    /// frame (see `spec_frame_word`).
    pub fn render_frame(&mut self, p: &SynthParams) -> (w: u32)
        requires
            old(self).wf(),
            p.wf(),
        ensures
            final(self).voices@ == spec_frame_voices(old(self).voices@, *p),
            final(self).age_counter == old(self).age_counter,
            final(self).wf(),
            w == spec_frame_word(old(self).voices@, *p),
    {
        let f = filter_f(p.cutoff_q15);
        let q = filter_q(p.resonance_q15);
        let n = self.voices.len();
        let mut mix: i64 = 0;
        let mut i: usize = 0;
        while i < n
            invariant
                i <= n,
                n == self.voices@.len(),
                1 <= n <= MAX_VOICES,
                self.age_counter == old(self).age_counter,
                p.wf(),
                f == spec_filter_f(p.cutoff_q15),
                q == spec_filter_q(p.resonance_q15),
                f <= crate::dsp::FILTER_F_MAX,
                q <= 32768,
                forall|j: int| i <= j < n ==> self.voices@[j] == old(self).voices@[j],
                forall|j: int| i <= j < n ==> self.voices@[j].wf(),
                forall|j: int|
                    0 <= j < i ==> self.voices@[j] == spec_voice_after(
                        old(self).voices@[j],
                        p.waveform,
                        f,
                        q,
                    ),
                forall|j: int| 0 <= j < i ==> self.voices@[j].wf(),
                mix as int == spec_mix_upto(old(self).voices@, *p, i as int),
                -((i as int) * (FILTER_STATE_BOUND as int)) <= mix as int <= (i as int) * (
                FILTER_STATE_BOUND as int),
            decreases n - i,
        {
            let mut v = self.voices[i];
            let c = v.tick(&p.waveform, f, q);
            self.voices.set(i, v);
            mix = mix + c;
            i = i + 1;
        }
        let s = scale_mix_to_sample(mix, n);
        let w = pack_lr_16(s, s);
        assert(self.voices@ =~= spec_frame_voices(old(self).voices@, *p));
        w
    }
}

/// The steal target is the first voice with the smallest age: its age is
/// minimal among the first `n` voices, and every voice at a lower index
/// has a strictly larger age (ties go to the lowest index).
pub proof fn lemma_steal_picks_oldest(vs: Seq<Voice>, n: int)
    requires
        1 <= n <= vs.len(),
    ensures
        0 <= spec_steal_upto(vs, n) < n,
        forall|j: int| 0 <= j < n ==> vs[spec_steal_upto(vs, n)].age <= #[trigger] vs[j].age,
        forall|j: int|
            0 <= j < spec_steal_upto(vs, n) ==> #[trigger] vs[j].age > vs[spec_steal_upto(vs, n)].age,
    decreases n,
{
    if n > 1 {
        lemma_steal_picks_oldest(vs, n - 1);
    }
}

/// A note-on with a sounding velocity selects exactly one voice: the
/// allocated slot changes, every other slot is untouched, and the chosen
/// slot plays the new note with its gate held.
pub proof fn lemma_note_on_single_slot(
    vs: Seq<Voice>,
    age: u32,
    note: u8,
    velocity: u8,
    p: SynthParams,
)
    requires
        vs.len() >= 1,
        1 <= velocity,
    ensures
        ({
            let k = spec_alloc_index(vs);
            let vs2 = spec_note_on_voices(vs, age, note, velocity, p);
            &&& 0 <= k < vs.len()
            &&& vs2.len() == vs.len()
            &&& forall|j: int| 0 <= j < vs.len() && j != k ==> vs2[j] == vs[j]
            &&& vs2[k].note == note
            &&& vs2[k].gate
        }),
{
    lemma_first_inactive_in_range(vs, 0);
    lemma_steal_picks_oldest(vs, vs.len() as int);
}

/// A found idle index lies inside the pool.
proof fn lemma_first_inactive_in_range(vs: Seq<Voice>, i: int)
    requires
        0 <= i,
    ensures
        spec_first_inactive_from(vs, i) matches Some(k) ==> i <= k < vs.len(),
    decreases vs.len() - i,
{
    if i < vs.len() && vs[i].spec_active() {
        lemma_first_inactive_in_range(vs, i + 1);
    }
}

/// Releasing the same note twice is the same as releasing it once: the
/// first release closes the gates of every matching voice, so the second
/// changes nothing (no release ramp is applied twice).
pub proof fn lemma_note_off_idempotent(vs: Seq<Voice>, note: u8, release_ms: u32)
    ensures
        spec_note_off_all(spec_note_off_all(vs, note, release_ms), note, release_ms)
            == spec_note_off_all(vs, note, release_ms),
{
    let once = spec_note_off_all(vs, note, release_ms);
    let twice = spec_note_off_all(once, note, release_ms);
    assert forall|i: int| 0 <= i < vs.len() implies twice[i] == once[i] by {
        assert(once[i] == (if vs[i].note == note && vs[i].gate {
            spec_voice_note_off(vs[i], release_ms)
        } else {
            vs[i]
        }));
    }
    assert(twice =~= once);
}

} // verus!
