use embedded_platform::gpio::{read, SimInputPin, SimOutputPin};
use embedded_platform::poll::{HwError, OpPoll, PollCx};

#[test]
fn set_on_ready_hardware_completes_in_one_poll() {
    let pin = SimOutputPin::new(false, true);
    let cx = PollCx::new(1);
    let mut op = embedded_platform::gpio::set(pin, true);
    let r = op.poll(&cx);
    assert!(matches!(r, OpPoll::Ready(Ok(()))));
}

#[test]
fn set_suspends_then_completes_after_the_wake_up() {
    let pin = SimOutputPin::new(false, false);
    let cx = PollCx::new(9);
    let mut op = embedded_platform::gpio::set(pin, true);
    let mut polls: u32 = 0;

    // The hardware cannot complete yet: the wrapper suspends after parking
    // the task's wake notifier.
    let first = op.poll(&cx);
    polls += 1;
    assert!(matches!(first, OpPoll::Pending));

    // Hardware side: the driver becomes ready and the completion interrupt
    // delivers exactly the parked notifier.
    let woken = op.pin_mut().complete();
    assert_eq!(woken, Some(9));

    // The scheduler re-polls the woken task once; the operation finishes,
    // and a well-behaved driver stops polling here: two polls in total,
    // never one after Ready.
    let second = op.poll(&cx);
    polls += 1;
    assert!(matches!(second, OpPoll::Ready(Ok(()))));
    assert_eq!(polls, 2);
}

#[test]
fn pending_set_commits_nothing_and_repolling_is_safe() {
    let pin = SimOutputPin::new(false, false);
    let cx = PollCx::new(3);
    let mut op = embedded_platform::gpio::set(pin, true);
    assert!(matches!(op.poll(&cx), OpPoll::Pending));
    // Idempotent polling after Pending: safe to poll again; nothing is
    // committed, the notifier is simply re-registered.
    assert!(matches!(op.poll(&cx), OpPoll::Pending));
    // Cancellation: dismantling the wrapper before Ready gives the pin
    // back with nothing committed; a retry uses a fresh wrapper.
    let pin = op.into_pin();
    let mut retry = embedded_platform::gpio::set(pin, true);
    assert!(matches!(retry.poll(&cx), OpPoll::Pending));
}

#[test]
fn read_reports_the_present_level() {
    let pin = SimInputPin::new(true, true);
    let cx = PollCx::new(5);
    let mut op = read(pin);
    let r = op.poll(&cx);
    assert!(matches!(r, OpPoll::Ready(Ok(true))));

    let pin = op.into_pin();
    let mut op = read(pin);
    let r = op.poll(&cx);
    assert!(matches!(r, OpPoll::Ready(Ok(true))));
}

#[test]
fn read_suspends_until_the_observation_completes() {
    let pin = SimInputPin::new(false, false);
    let cx = PollCx::new(11);
    let mut op = read(pin);
    assert!(matches!(op.poll(&cx), OpPoll::Pending));

    assert_eq!(op.pin_mut().complete(), Some(11));
    op.pin_mut().drive(true);

    assert!(matches!(op.poll(&cx), OpPoll::Ready(Ok(true))));
}

#[test]
fn a_hardware_fault_is_passed_through_unchanged() {
    let mut pin = SimOutputPin::new(false, true);
    pin.inject_fault(HwError::BusFault);
    let cx = PollCx::new(7);
    let mut op = embedded_platform::gpio::set(pin, true);
    // The wrapper reports exactly the hardware's failure — it originates
    // none of its own — and the result is terminal for this instance: the
    // finished flag is set, there is no implicit retry.
    assert!(matches!(op.poll(&cx), OpPoll::Ready(Err(HwError::BusFault))));
    assert!(op.done());
}

#[test]
fn a_faulty_observation_reports_the_failure() {
    let mut pin = SimInputPin::new(true, true);
    pin.inject_fault(HwError::Timeout);
    let cx = PollCx::new(8);
    let mut op = read(pin);
    assert!(matches!(op.poll(&cx), OpPoll::Ready(Err(HwError::Timeout))));
    assert!(op.done());
}
