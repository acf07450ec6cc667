//! Double-buffer ownership: the engine's writes to a slot never overlap
//! the sink's reads of that slot.

use polysynth::delivery::{AudioDelivery, Slot};
use polysynth::engine::Synth;
use polysynth::midi::MidiEvent;

fn may_write(d: &AudioDelivery, s: Slot) -> bool {
    !d.submitted && d.fill_slot == s
}

fn may_read(d: &AudioDelivery, s: Slot) -> bool {
    if d.submitted {
        true
    } else {
        s != d.fill_slot
    }
}

/// Simulate the sink's completion signals with a pseudo-random schedule
/// and check after every transition that no slot is both writable by the
/// engine and readable by the sink.
#[test]
fn ownership_never_overlaps() {
    let mut d = AudioDelivery::new(16);
    let mut synth = Synth::new(2);
    synth.push_event(MidiEvent { status: 0x90, data1: 60, data2: 100 });
    let mut rng: u64 = 0x2545F4914F6CDD1D;
    let mut renders = 0u32;
    for _ in 0..300 {
        rng = rng.wrapping_mul(6364136223846793005).wrapping_add(1442695040888963407);
        match (rng >> 33) % 3 {
            0 => {
                if !d.submitted {
                    // the engine writes only the slot it owns, which the
                    // sink must not be reading
                    assert!(may_write(&d, d.fill_slot));
                    assert!(!may_read(&d, d.fill_slot));
                    d.render_block(&mut synth);
                    renders += 1;
                }
            },
            1 => {
                if !d.submitted {
                    d.submit();
                }
            },
            _ => {
                if d.submitted {
                    d.completion();
                }
            },
        }
        for s in [Slot::A, Slot::B] {
            assert!(!(may_write(&d, s) && may_read(&d, s)));
        }
    }
    assert!(renders > 0);
}

/// While the engine fills one slot, the other slot's frames are untouched
/// down to the last bit.
#[test]
fn filling_never_touches_the_sink_slot() {
    let mut d = AudioDelivery::new(32);
    let mut synth = Synth::new(3);
    synth.push_event(MidiEvent { status: 0x90, data1: 69, data2: 127 });

    // The sink is draining slot B while the engine fills slot A.
    let sentinel = vec![0xDEAD_BEEFu32; 32];
    d.frames_b = sentinel.clone();
    assert_eq!(d.fill_slot, Slot::A);
    d.render_block(&mut synth);
    assert_eq!(d.frames_b, sentinel, "the draining slot must not change");
    assert!(d.frames_a.iter().any(|&w| w != 0), "the filled slot holds audio");

    // Swap roles: now slot A drains while the engine fills slot B.
    d.submit();
    let pending = d.transmit_frames().clone();
    assert_eq!(pending, d.frames_a);
    d.completion();
    assert_eq!(d.fill_slot, Slot::B);
    let held = d.frames_a.clone();
    d.render_block(&mut synth);
    assert_eq!(d.frames_a, held, "the draining slot must not change");
}

/// The protocol alternates slots on each completion signal.
#[test]
fn completion_alternates_slots() {
    let mut d = AudioDelivery::new(4);
    assert_eq!(d.fill_slot, Slot::A);
    d.submit();
    d.completion();
    assert_eq!(d.fill_slot, Slot::B);
    d.submit();
    d.completion();
    assert_eq!(d.fill_slot, Slot::A);
}
