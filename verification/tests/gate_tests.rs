use rust_scraper::AdmissionGate;

#[test]
fn gate_of_one_serializes() {
    let mut gate = AdmissionGate::new(1);
    assert!(gate.try_acquire());
    assert!(!gate.try_acquire());
    gate.release();
    assert!(gate.try_acquire());
    assert!(!gate.try_acquire());
}

#[test]
fn gate_grants_up_to_bound_and_no_further() {
    let mut gate = AdmissionGate::new(3);
    assert!(gate.try_acquire());
    assert!(gate.try_acquire());
    assert!(gate.try_acquire());
    assert!(!gate.try_acquire());
    assert!(!gate.try_acquire());
}

#[test]
fn gate_slot_freed_by_release_can_be_reacquired() {
    let mut gate = AdmissionGate::new(2);
    assert!(gate.try_acquire());
    assert!(gate.try_acquire());
    assert!(!gate.try_acquire());
    gate.release();
    assert!(gate.try_acquire());
    assert!(!gate.try_acquire());
    gate.release();
    gate.release();
    assert!(gate.try_acquire());
}
