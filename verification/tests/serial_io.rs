use embedded_platform::poll::{HwError, OpPoll, PollCx};
use embedded_platform::serial::{read_byte, write_byte, SimSerial};

#[test]
fn a_written_byte_lands_in_the_transmit_log_once() {
    let port = SimSerial::new(true);
    let cx = PollCx::new(1);
    let mut op = write_byte(port, 0x5a);
    assert!(matches!(op.poll(&cx), OpPoll::Ready(Ok(()))));
}

#[test]
fn writing_suspends_while_the_transmitter_is_busy() {
    let port = SimSerial::new(false);
    let cx = PollCx::new(17);
    let mut op = write_byte(port, 0x42);

    assert!(matches!(op.poll(&cx), OpPoll::Pending));

    // Transmit-ready interrupt: the parked notifier is delivered and the
    // woken task's poll commits the byte exactly once.
    assert_eq!(op.port_mut().drain_tx(), Some(17));
    assert!(matches!(op.poll(&cx), OpPoll::Ready(Ok(()))));
}

#[test]
fn reading_takes_bytes_oldest_first() {
    let mut port = SimSerial::new(true);
    port.deliver(1);
    port.deliver(2);
    let cx = PollCx::new(3);

    let mut op = read_byte(port);
    assert!(matches!(op.poll(&cx), OpPoll::Ready(Ok(1))));
    let port = op.into_port();

    let mut op = read_byte(port);
    assert!(matches!(op.poll(&cx), OpPoll::Ready(Ok(2))));
}

#[test]
fn reading_suspends_on_an_empty_queue() {
    let port = SimSerial::new(true);
    let cx = PollCx::new(23);
    let mut op = read_byte(port);

    assert!(matches!(op.poll(&cx), OpPoll::Pending));

    // A byte arrives: the receive interrupt wakes the task, whose poll
    // then takes exactly that byte.
    assert_eq!(op.port_mut().deliver(0x7f), Some(23));
    assert!(matches!(op.poll(&cx), OpPoll::Ready(Ok(0x7f))));
}

#[test]
fn a_transmit_fault_is_reported_and_nothing_is_logged() {
    let mut port = SimSerial::new(true);
    port.inject_fault(HwError::Timeout);
    let cx = PollCx::new(29);
    let mut op = write_byte(port, 0x42);
    assert!(matches!(op.poll(&cx), OpPoll::Ready(Err(HwError::Timeout))));
    assert!(op.done());
}
