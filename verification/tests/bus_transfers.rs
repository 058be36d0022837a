use embedded_platform::i2c::{i2c_read, i2c_transfer, i2c_write, SimI2cDevice};
use embedded_platform::poll::{HwError, OpPoll, PollCx};
use embedded_platform::spi::{transfer_byte, SimSpi};

#[test]
fn spi_exchange_is_full_duplex() {
    let bus = SimSpi::new(0xa5, true);
    let cx = PollCx::new(1);
    let mut op = transfer_byte(bus, 0x3c);
    assert!(matches!(op.poll(&cx), OpPoll::Ready(Ok(0xa5))));
}

#[test]
fn spi_exchange_suspends_until_the_shift_register_frees() {
    let bus = SimSpi::new(0x11, false);
    let cx = PollCx::new(31);
    let mut op = transfer_byte(bus, 0x22);
    assert!(matches!(op.poll(&cx), OpPoll::Pending));

    assert_eq!(op.bus_mut().complete(), Some(31));
    op.bus_mut().respond_with(0x33);
    assert!(matches!(op.poll(&cx), OpPoll::Ready(Ok(0x33))));
}

#[test]
fn i2c_write_then_read_round_trips_through_the_device() {
    let bus = SimI2cDevice::new(0x48, true);
    let cx = PollCx::new(2);

    let mut op = i2c_write(bus, 0x48, vec![10, 20, 30]);
    assert!(matches!(op.poll(&cx), OpPoll::Ready(Ok(()))));
    let bus = op.into_bus();

    let mut op = i2c_read(bus, 0x48, 3);
    let r = op.poll(&cx);
    match r {
        OpPoll::Ready(Ok(data)) => assert_eq!(data, vec![10, 20, 30]),
        _ => panic!("expected a completed read"),
    }
}

#[test]
fn i2c_short_reads_truncate_and_long_reads_pad_with_zeroes() {
    let bus = SimI2cDevice::new(0x10, true);
    let cx = PollCx::new(4);

    let mut op = i2c_write(bus, 0x10, vec![7, 8]);
    assert!(matches!(op.poll(&cx), OpPoll::Ready(Ok(()))));
    let bus = op.into_bus();

    let mut op = i2c_read(bus, 0x10, 1);
    match op.poll(&cx) {
        OpPoll::Ready(Ok(data)) => assert_eq!(data, vec![7]),
        _ => panic!("expected a completed read"),
    }
    let bus = op.into_bus();

    let mut op = i2c_read(bus, 0x10, 4);
    match op.poll(&cx) {
        OpPoll::Ready(Ok(data)) => assert_eq!(data, vec![7, 8, 0, 0]),
        _ => panic!("expected a completed read"),
    }
}

#[test]
fn i2c_absent_device_nacks_terminally() {
    let bus = SimI2cDevice::new(0x48, true);
    let cx = PollCx::new(5);
    let mut op = i2c_write(bus, 0x49, vec![1]);
    // The hardware-reported failure is surfaced as a terminal result, not
    // retried by the core.
    assert!(matches!(op.poll(&cx), OpPoll::Ready(Err(HwError::Nack))));
}

#[test]
fn i2c_combined_transfer_reads_what_it_just_wrote() {
    let bus = SimI2cDevice::new(0x21, true);
    let cx = PollCx::new(6);
    let mut op = i2c_transfer(bus, 0x21, vec![0xde, 0xad], 3);
    match op.poll(&cx) {
        OpPoll::Ready(Ok(data)) => assert_eq!(data, vec![0xde, 0xad, 0]),
        _ => panic!("expected a completed transfer"),
    }
}

#[test]
fn i2c_transaction_suspends_while_the_bus_is_busy() {
    let bus = SimI2cDevice::new(0x30, false);
    let cx = PollCx::new(41);
    let mut op = i2c_write(bus, 0x30, vec![9]);
    assert!(matches!(op.poll(&cx), OpPoll::Pending));

    assert_eq!(op.bus_mut().complete(), Some(41));
    assert!(matches!(op.poll(&cx), OpPoll::Ready(Ok(()))));
}

#[test]
fn a_spi_fault_is_reported_and_nothing_is_shifted() {
    let mut bus = SimSpi::new(0x5a, true);
    bus.inject_fault(HwError::BusFault);
    let cx = PollCx::new(9);
    let mut op = transfer_byte(bus, 0x11);
    assert!(matches!(op.poll(&cx), OpPoll::Ready(Err(HwError::BusFault))));
    // The failure is terminal for this exchange; a fresh exchange on
    // healed hardware would start from an unchanged shift log.
    assert!(op.done());
}
