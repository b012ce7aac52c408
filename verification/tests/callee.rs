use posish::callee::{cached_callee, slot_after_fallback, slot_after_init, slot_after_lookup};

#[test]
fn unset_slot_has_no_callee() {
    assert_eq!(cached_callee(0), None);
}

#[test]
fn set_slot_gives_its_callee() {
    assert_eq!(cached_callee(0x7fff_1234), Some(0x7fff_1234));
    assert_eq!(cached_callee(usize::MAX), Some(usize::MAX));
}

#[test]
fn fallback_fills_unset_slot() {
    assert_eq!(slot_after_fallback(0, 0x1000), 0x1000);
}

#[test]
fn fallback_keeps_resolved_slot() {
    assert_eq!(slot_after_fallback(0x2000, 0x1000), 0x2000);
    let once = slot_after_fallback(0, 0x1000);
    assert_eq!(slot_after_fallback(once, 0x3000), 0x1000);
}

#[test]
fn initialized_slot_reads_as_callee() {
    let slot = slot_after_fallback(0, 0x4000);
    assert_eq!(cached_callee(slot), Some(0x4000));
}

#[test]
fn vdso_symbol_replaces_slot() {
    assert_eq!(slot_after_init(0, 0x1000, Some(0x5000)), Some(0x5000));
    assert_eq!(slot_after_init(0x2000, 0x1000, Some(0x5000)), Some(0x5000));
}

#[test]
fn without_vdso_fallback_stays() {
    assert_eq!(slot_after_init(0, 0x1000, None), Some(0x1000));
    assert_eq!(slot_after_init(0x2000, 0x1000, None), Some(0x2000));
}

#[test]
fn null_vdso_symbol_fails_init() {
    assert_eq!(slot_after_init(0, 0x1000, Some(0)), None);
    assert_eq!(slot_after_lookup(0x2000, 0x1000, Some(0)), 0);
}

#[test]
fn second_init_changes_nothing() {
    let once = slot_after_lookup(0, 0x1000, Some(0x5000));
    assert_eq!(slot_after_lookup(once, 0x1000, Some(0x5000)), once);
    let once = slot_after_lookup(0, 0x1000, None);
    assert_eq!(slot_after_lookup(once, 0x1000, None), once);
}
