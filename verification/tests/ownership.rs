use embedded_platform::registry::{ClaimError, Registry};

#[test]
fn first_claim_grants_a_handle() {
    let mut reg = Registry::new(4);
    assert_eq!(reg.len(), 4);
    assert!(!reg.is_claimed(2));
    let handle = reg.claim(2).unwrap();
    assert_eq!(handle.id(), 2);
    assert!(reg.is_claimed(2));
}

#[test]
fn second_claim_is_rejected_while_handle_is_held() {
    let mut reg = Registry::new(3);
    let handle = reg.claim(1).unwrap();
    let again = reg.claim(1);
    assert!(matches!(again, Err(ClaimError::AlreadyClaimed)));
    assert_eq!(handle.id(), 1);
}

#[test]
fn second_claim_is_rejected_after_handle_is_dropped() {
    let mut reg = Registry::new(3);
    let handle = reg.claim(1).unwrap();
    drop(handle);
    // No release operation exists: the flag never reverts.
    let again = reg.claim(1);
    assert!(matches!(again, Err(ClaimError::AlreadyClaimed)));
}

#[test]
fn claims_of_distinct_resources_are_independent() {
    let mut reg = Registry::new(5);
    assert!(reg.claim(0).is_ok());
    assert!(reg.claim(4).is_ok());
    assert!(reg.claim(0).is_err());
    assert!(!reg.is_claimed(3));
    assert!(reg.claim(3).is_ok());
}
