use drone_stm32::processor::{fpu_cpacr_value, reset_request_value, CriticalSection, InterruptMask};

fn nest(mask: &mut InterruptMask, depth: u32) -> u32 {
    mask.critical(|_cs: &CriticalSection, inner: &mut InterruptMask| {
        assert!(!inner.is_enabled());
        inner.disable();
        if depth > 1 {
            nest(inner, depth - 1) + 1
        } else {
            1
        }
    })
}

#[test]
fn critical_disables_then_restores_enabled() {
    let mut mask = InterruptMask::new(true);
    let r = mask.critical(|_cs: &CriticalSection, inner: &mut InterruptMask| {
        assert_eq!(inner.primask(), 1);
        7
    });
    assert_eq!(r, 7);
    assert!(mask.is_enabled());
    assert_eq!(mask.primask(), 0);
}

#[test]
fn critical_keeps_disabled_disabled() {
    let mut mask = InterruptMask::new(false);
    mask.critical(|_cs: &CriticalSection, _inner: &mut InterruptMask| ());
    assert!(!mask.is_enabled());
}

#[test]
fn nested_critical_sections_restore_the_outer_state() {
    for depth in 1..6 {
        let mut mask = InterruptMask::new(true);
        assert_eq!(nest(&mut mask, depth), depth);
        assert!(mask.is_enabled());
        let mut mask = InterruptMask::new(false);
        assert_eq!(nest(&mut mask, depth), depth);
        assert!(!mask.is_enabled());
    }
}

#[test]
fn fpu_access_values() {
    assert_eq!(fpu_cpacr_value(true), 0x00F0_0000);
    assert_eq!(fpu_cpacr_value(false), 0x0050_0000);
}

#[test]
fn reset_request_carries_the_key() {
    assert_eq!(reset_request_value(), 0x05FA_0004);
}
