//! FIFO order and drop-on-full behaviour of the event queue.

use polysynth::midi::MidiEvent;
use polysynth::queue::{EventQueue, QUEUE_CAPACITY};
use polysynth::engine::Synth;

fn ev(status: u8, data1: u8, data2: u8) -> MidiEvent {
    MidiEvent { status, data1, data2 }
}

/// Events pushed in order [A, B, C] drain in order [A, B, C].
#[test]
fn drains_in_push_order() {
    let mut q = EventQueue::new();
    let a = ev(0x90, 60, 100);
    let b = ev(0x80, 60, 0);
    let c = ev(0xB0, 21, 64);
    q.push(a);
    q.push(b);
    q.push(c);
    assert_eq!(q.len(), 3);
    let out = q.drain();
    assert_eq!(out, vec![a, b, c]);
    assert_eq!(q.len(), 0);
    assert_eq!(q.drain(), vec![]);
}

/// Pushing beyond capacity drops the newest excess events; the length
/// never exceeds the capacity.
#[test]
fn overflow_drops_newest() {
    let mut q = EventQueue::new();
    for i in 0u8..40u8 {
        q.push(ev(0x90, i, 1));
        assert!(q.len() <= QUEUE_CAPACITY);
    }
    assert_eq!(q.len(), QUEUE_CAPACITY);
    let out = q.drain();
    assert_eq!(out.len(), QUEUE_CAPACITY);
    for (i, e) in out.iter().enumerate() {
        assert_eq!(e.data1, i as u8); // the first 32 survived, in order
    }
}

/// The producer path discards status bytes other than Note-On, Note-Off
/// and Control-Change before they reach the queue.
#[test]
fn irrelevant_status_filtered() {
    let mut s = Synth::new(2);
    s.push_event(ev(0xF8, 0, 0)); // timing clock
    s.push_event(ev(0xFE, 0, 0)); // active sensing
    s.push_event(ev(0xA0, 60, 1)); // poly aftertouch: not handled
    assert_eq!(s.queue.len(), 0);
    s.push_event(ev(0x90, 60, 100));
    s.push_event(ev(0x80, 60, 0));
    s.push_event(ev(0xB0, 22, 10));
    assert_eq!(s.queue.len(), 3);
}
