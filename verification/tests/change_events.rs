use embedded_platform::changes::{changes, Edge};
use embedded_platform::gpio::SimInputPin;
use embedded_platform::poll::{OpPoll, PollCx};
use embedded_platform::wake::WakeBridge;

#[test]
fn a_genuine_edge_is_emitted_with_its_direction() {
    let pin = SimInputPin::new(false, true);
    let mut bridge = WakeBridge::new(1);
    let cx = PollCx::new(1);
    let mut seq = changes(pin, 0);

    // No transition yet: the consumer suspends.
    assert!(matches!(seq.poll_next(&cx, &mut bridge), OpPoll::Pending));

    // External world: the line rises, then the edge interrupt fires and
    // wakes the suspended consumer.
    seq.pin_mut().drive(true);
    assert_eq!(bridge.fire(0), Some(1));

    // The woken consumer re-reads the level exactly once and sees the edge.
    let r = seq.poll_next(&cx, &mut bridge);
    assert!(matches!(r, OpPoll::Ready(Ok(Edge::Rising))));

    // And the matching falling edge afterwards.
    seq.pin_mut().drive(false);
    bridge.fire(0);
    let r = seq.poll_next(&cx, &mut bridge);
    assert!(matches!(r, OpPoll::Ready(Ok(Edge::Falling))));
}

#[test]
fn spurious_fire_emits_no_transition() {
    let pin = SimInputPin::new(true, true);
    let mut bridge = WakeBridge::new(1);
    let cx = PollCx::new(4);
    let mut seq = changes(pin, 0);

    assert!(matches!(seq.poll_next(&cx, &mut bridge), OpPoll::Pending));

    // A fire without a level change: the wake-up is delivered, but the
    // re-read level equals the remembered one, so nothing is emitted.
    assert_eq!(bridge.fire(0), Some(4));
    assert!(matches!(seq.poll_next(&cx, &mut bridge), OpPoll::Pending));

    // Two consecutive identical level reads after a fire: still nothing.
    assert_eq!(bridge.fire(0), Some(4));
    assert!(matches!(seq.poll_next(&cx, &mut bridge), OpPoll::Pending));
}

#[test]
fn edge_fired_inside_the_race_window_is_not_lost() {
    // The consumer last observed a low line.
    let pin = SimInputPin::new(false, true);
    let mut bridge = WakeBridge::new(1);
    let cx = PollCx::new(8);
    let mut seq = changes(pin, 0);
    assert!(matches!(seq.poll_next(&cx, &mut bridge), OpPoll::Pending));

    // Force the edge interrupt synchronously in the dangerous window:
    // after the consumer's level read, around its registration.  Because
    // the poll registers BEFORE it samples, the notifier is already in
    // place and the wake-up is delivered, not dropped: no permanent hang.
    seq.pin_mut().drive(true);
    let woken = bridge.fire(0);
    assert_eq!(woken, Some(8));

    // The woken consumer observes exactly one transition...
    let r = seq.poll_next(&cx, &mut bridge);
    assert!(matches!(r, OpPoll::Ready(Ok(Edge::Rising))));
    // ...and only one: the next poll suspends again.
    assert!(matches!(seq.poll_next(&cx, &mut bridge), OpPoll::Pending));
}

#[test]
fn edges_without_a_waiter_are_coalesced() {
    let pin = SimInputPin::new(false, true);
    let mut bridge = WakeBridge::new(1);
    let cx = PollCx::new(2);
    let mut seq = changes(pin, 0);
    assert!(matches!(seq.poll_next(&cx, &mut bridge), OpPoll::Pending));

    // A burst of edges while suspended: each fire past the first finds an
    // empty slot and is dropped.  Only "at least one edge" survives.
    seq.pin_mut().drive(true);
    assert_eq!(bridge.fire(0), Some(2));
    seq.pin_mut().drive(false);
    assert_eq!(bridge.fire(0), None);
    seq.pin_mut().drive(true);
    assert_eq!(bridge.fire(0), None);

    // The consumer re-reads once: the burst collapses into one transition.
    let r = seq.poll_next(&cx, &mut bridge);
    assert!(matches!(r, OpPoll::Ready(Ok(Edge::Rising))));
}

#[test]
fn abandoning_the_sequence_leaves_a_harmless_stale_notifier() {
    let pin = SimInputPin::new(false, true);
    let mut bridge = WakeBridge::new(1);
    let cx = PollCx::new(6);
    let mut seq = changes(pin, 0);
    assert!(matches!(seq.poll_next(&cx, &mut bridge), OpPoll::Pending));

    // The consumer abandons the sequence while a registration is pending.
    let _pin = seq.into_pin();

    // Firing into the stale registration is a safe no-op wake-up, and
    // afterwards the slot is clear.
    assert_eq!(bridge.fire(0), Some(6));
    assert_eq!(bridge.fire(0), None);
}
