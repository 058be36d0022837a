//! The full startup-to-event scenario: claim a pin, drive it, have a
//! second claim rejected, then watch the line through the change sequence.

use embedded_platform::changes::{changes, Edge};
use embedded_platform::gpio::{SimInputPin, SimOutputPin};
use embedded_platform::poll::{OpPoll, PollCx};
use embedded_platform::registry::{ClaimError, Registry};
use embedded_platform::wake::WakeBridge;

#[test]
fn claim_drive_watch_scenario() {
    // Platform construction: one resource table and one wake bridge for a
    // board with four resources; pin P is resource 2.
    let mut registry = Registry::new(4);
    let mut bridge = WakeBridge::new(4);
    let pin_p: usize = 2;

    // The pin is unclaimed, so the claim succeeds.
    let handle = registry.claim(pin_p).unwrap();
    assert_eq!(handle.id(), pin_p);

    // Drive the pin high: one poll on ready hardware completes.
    let out = SimOutputPin::new(false, true);
    let cx = PollCx::new(21);
    let mut op = embedded_platform::gpio::set(out, true);
    assert!(matches!(op.poll(&cx), OpPoll::Ready(Ok(()))));

    // A second claim of the same pin is a resource conflict.
    assert!(matches!(registry.claim(pin_p), Err(ClaimError::AlreadyClaimed)));

    // Register a waiter on the pin's change sequence.  The watched input
    // side of the line is high now.
    let line = SimInputPin::new(true, true);
    let mut seq = changes(line, pin_p);
    assert!(matches!(seq.poll_next(&cx, &mut bridge), OpPoll::Pending));

    // Simulate the interrupt: the line falls and fire(P) wakes the waiter.
    seq.pin_mut().drive(false);
    assert_eq!(bridge.fire(pin_p), Some(21));

    // The waiter's task resumes and observes exactly one transition, with
    // the new level.
    let r = seq.poll_next(&cx, &mut bridge);
    assert!(matches!(r, OpPoll::Ready(Ok(Edge::Falling))));
    assert!(matches!(seq.poll_next(&cx, &mut bridge), OpPoll::Pending));
}
