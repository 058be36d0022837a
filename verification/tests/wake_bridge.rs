use embedded_platform::wake::{WakeBridge, WakeSlot};

#[test]
fn fire_without_registration_is_a_no_op() {
    let mut slot = WakeSlot::new();
    assert!(!slot.is_armed());
    assert_eq!(slot.fire(), None);
    assert!(!slot.is_armed());
    // The state is intact: a later registration still works.
    slot.register(7);
    assert!(slot.is_armed());
}

#[test]
fn fire_after_register_delivers_exactly_once() {
    let mut slot = WakeSlot::new();
    slot.register(42);
    assert_eq!(slot.fire(), Some(42));
    assert!(!slot.is_armed());
    // A second fire before the next registration is again a no-op.
    assert_eq!(slot.fire(), None);
}

#[test]
fn register_overwrites_the_prior_notifier() {
    let mut slot = WakeSlot::new();
    slot.register(1);
    slot.register(2);
    // Last-registrant-wins: only the latest notifier is delivered.
    assert_eq!(slot.fire(), Some(2));
    assert_eq!(slot.fire(), None);
}

#[test]
fn bridge_keeps_one_slot_per_resource() {
    let mut bridge = WakeBridge::new(3);
    assert_eq!(bridge.len(), 3);
    bridge.register(0, 10);
    bridge.register(2, 30);
    assert_eq!(bridge.fire(1), None);
    assert_eq!(bridge.fire(0), Some(10));
    assert_eq!(bridge.fire(0), None);
    assert_eq!(bridge.fire(2), Some(30));
}
