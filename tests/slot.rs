use actix_sqlx_tx::slot::Slot;

#[test]
fn lease_empties_the_slot_until_restored() {
    let mut slot = Slot::new(7u32);
    assert!(slot.is_resident());
    let mut lease = slot.lease().unwrap();
    assert!(!slot.is_resident());
    assert!(slot.lease().is_none());
    *lease.as_mut() += 1;
    slot.restore(lease);
    assert_eq!(slot.get(), Some(&8));
    assert_eq!(slot.into_inner(), Some(8));
}

#[test]
fn new_leased_slot_starts_empty() {
    let (mut slot, lease) = Slot::new_leased("v".to_string());
    assert!(slot.get().is_none());
    assert_eq!(lease.as_ref(), "v");
    assert!(slot.lease().is_none());
    slot.restore(lease);
    assert_eq!(slot.into_inner().as_deref(), Some("v"));
}

#[test]
fn stolen_value_never_returns() {
    let mut slot = Slot::new(vec![1u8, 2]);
    let lease = slot.lease().unwrap();
    assert_eq!(lease.steal(), vec![1, 2]);
    assert!(slot.lease().is_none());
    assert_eq!(slot.into_inner(), None);
}

#[test]
fn slot_dropped_while_leased_yields_nothing() {
    let mut slot = Slot::new(3i64);
    let lease = slot.lease().unwrap();
    assert_eq!(slot.into_inner(), None);
    assert_eq!(lease.steal(), 3);
}
