//! The processor's global interrupt mask, critical sections, and the values
//! written to the processor's control registers.
use crate::token::{with_field, FieldSpan};
use vstd::prelude::*;

verus! {

/// Proof handed to the body of a critical section: while it is in scope,
/// all maskable interrupts are disabled.
pub struct CriticalSection {
    _private: (),
}

/// The global interrupt-enable state: the inverse of bit 0 of PRIMASK.
pub struct InterruptMask {
    enabled: bool,
}

impl InterruptMask {
    /// Whether maskable interrupts are enabled.
    pub closed spec fn enabled(&self) -> bool {
        self.enabled
    }

    /// The mask in the given state.
    pub fn new(enabled: bool) -> (r: Self)
        ensures
            r.enabled() == enabled,
    {
        InterruptMask { enabled }
    }

    /// Whether maskable interrupts are enabled.
    pub fn is_enabled(&self) -> (r: bool)
        ensures
            r == self.enabled(),
    {
        self.enabled
    }

    /// The value of the PRIMASK register: bit 0 set while interrupts are
    /// disabled.
    pub fn primask(&self) -> (r: u32)
        ensures
            r == (if self.enabled() {
                0u32
            } else {
                1u32
            }),
    {
        if self.enabled {
            0
        } else {
            1
        }
    }

    /// Disables all maskable interrupts. Disabling twice is harmless.
    pub fn disable(&mut self)
        ensures
            !final(self).enabled(),
    {
        self.enabled = false;
    }

    /// Enables maskable interrupts. Not public: inside a critical section it
    /// would break the section's guarantee.
    fn enable(&mut self)
        ensures
            final(self).enabled(),
    {
        self.enabled = true;
    }

    /// Runs `f` with interrupts disabled. On the way out interrupts are
    /// enabled again only if they were enabled on the way in, so a section
    /// nested in another leaves them disabled. Whatever the body does to the
    /// mask, and however deep sections nest, the mask ends as it was before
    /// the outermost section began.
    pub fn critical<F, R>(&mut self, f: F) -> (r: R) where
        F: FnOnce(&CriticalSection, &mut InterruptMask) -> R,

        requires
            forall|cs: &CriticalSection, m: &mut InterruptMask| !m.enabled() ==> f.requires((cs, m)),
        ensures
            final(self).enabled() == old(self).enabled(),
    {
        let pm = self.primask();
        self.disable();
        let cs = CriticalSection { _private: () };
        let r = f(&cs, self);
        if pm == 0 {
            self.enable();
        } else {
            self.disable();
        }
        r
    }
}

/// Value for the coprocessor access control register that enables the FPU
/// (coprocessors 10 and 11, bits 20 to 23): full access, or privileged
/// access only.
pub fn fpu_cpacr_value(full_access: bool) -> (r: u32)
    ensures
        r == (if full_access {
            0xF0_0000u32
        } else {
            0x50_0000u32
        }),
{
    let access: u32 = if full_access {
        0xF
    } else {
        0x5
    };
    assert(0xFu32 << 20u32 == 0xF0_0000u32) by (bit_vector);
    assert(0x5u32 << 20u32 == 0x50_0000u32) by (bit_vector);
    access << 20
}

/// Key that the application interrupt and reset control register demands
/// in its upper half-word for a write to take effect.
pub const VECTKEY: u32 = 0x05FA;

/// Value for the application interrupt and reset control register that
/// requests a system reset: the write key, and the SYSRESETREQ bit.
pub fn reset_request_value() -> (r: u32)
    ensures
        r == with_field(
            with_field(0, FieldSpan { offset: 16, width: 16 }, VECTKEY),
            FieldSpan { offset: 2, width: 1 },
            1,
        ),
        r == 0x05FA_0004u32,
{
    let key: u32 = VECTKEY << 16;
    let r = key | (1u32 << 2);
    assert(r == 0x05FA_0004u32) by (bit_vector)
        requires
            key == 0x05FAu32 << 16u32,
            r == key | (1u32 << 2u32),
    ;
    assert(with_field(
        with_field(0, FieldSpan { offset: 16, width: 16 }, 0x05FA),
        FieldSpan { offset: 2, width: 1 },
        1,
    ) == 0x05FA_0004u32) by (bit_vector);
    r
}

} // verus!
