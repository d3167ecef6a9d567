//! Serial peripheral interface.
use crate::bus::RegisterFile;
use crate::thread::ThreadBinding;
use crate::token::RegToken;
use vstd::prelude::*;

verus! {

/// Position of the SPE (module enable) bit in CR1.
pub const CR1_SPE_BIT: u32 = 6;

/// Position of the TXDMAEN (transmit DMA request enable) bit in CR2.
pub const CR2_TXDMAEN_BIT: u32 = 1;

/// The pieces an SPI instance is composed of.
pub struct SpiItems {
    pub irq: ThreadBinding,
    pub cr1: RegToken,
    pub cr2: RegToken,
    pub crcpr: RegToken,
    pub dr: RegToken,
    pub rxcrcr: RegToken,
    pub sr: RegToken,
    pub txcrcr: RegToken,
}

/// An SPI instance: exactly the register tokens and the interrupt binding
/// it needs, moved as one handle.
pub struct Spi {
    irq: ThreadBinding,
    cr1: RegToken,
    cr2: RegToken,
    crcpr: RegToken,
    dr: RegToken,
    rxcrcr: RegToken,
    sr: RegToken,
    txcrcr: RegToken,
}

/// A control bit that has to be off while the state depending on it is
/// configured.
#[derive(Clone, Copy, Debug, PartialEq, Eq, Structural)]
pub enum ControlFlag {
    /// SPE in CR1.
    Spe,
    /// TXDMAEN in CR2.
    Txdmaen,
}

impl Spi {
    /// The pieces this handle owns.
    pub closed spec fn items(&self) -> SpiItems {
        SpiItems {
            irq: self.irq,
            cr1: self.cr1,
            cr2: self.cr2,
            crcpr: self.crcpr,
            dr: self.dr,
            rxcrcr: self.rxcrcr,
            sr: self.sr,
            txcrcr: self.txcrcr,
        }
    }

    /// The handle that owns exactly `items`.
    pub closed spec fn of_items(items: SpiItems) -> Spi {
        Spi {
            irq: items.irq,
            cr1: items.cr1,
            cr2: items.cr2,
            crcpr: items.crcpr,
            dr: items.dr,
            rxcrcr: items.rxcrcr,
            sr: items.sr,
            txcrcr: items.txcrcr,
        }
    }

    /// Composes an instance from its pieces.
    pub fn compose(items: SpiItems) -> (r: Spi)
        ensures
            r == Spi::of_items(items),
            r.items() == items,
    {
        Spi {
            irq: items.irq,
            cr1: items.cr1,
            cr2: items.cr2,
            crcpr: items.crcpr,
            dr: items.dr,
            rxcrcr: items.rxcrcr,
            sr: items.sr,
            txcrcr: items.txcrcr,
        }
    }

    /// Decomposes the instance into its pieces.
    pub fn decompose(self) -> (r: SpiItems)
        ensures
            r == self.items(),
    {
        SpiItems {
            irq: self.irq,
            cr1: self.cr1,
            cr2: self.cr2,
            crcpr: self.crcpr,
            dr: self.dr,
            rxcrcr: self.rxcrcr,
            sr: self.sr,
            txcrcr: self.txcrcr,
        }
    }

    /// The interrupt binding of the instance.
    pub fn irq(&self) -> (r: ThreadBinding)
        ensures
            r == self.items().irq,
    {
        self.irq
    }

    pub fn cr1(&self) -> (r: &RegToken)
        ensures
            *r == self.items().cr1,
    {
        &self.cr1
    }

    pub fn cr2(&self) -> (r: &RegToken)
        ensures
            *r == self.items().cr2,
    {
        &self.cr2
    }

    pub fn crcpr(&self) -> (r: &RegToken)
        ensures
            *r == self.items().crcpr,
    {
        &self.crcpr
    }

    pub fn dr(&self) -> (r: &RegToken)
        ensures
            *r == self.items().dr,
    {
        &self.dr
    }

    pub fn rxcrcr(&self) -> (r: &RegToken)
        ensures
            *r == self.items().rxcrcr,
    {
        &self.rxcrcr
    }

    pub fn sr(&self) -> (r: &RegToken)
        ensures
            *r == self.items().sr,
    {
        &self.sr
    }

    pub fn txcrcr(&self) -> (r: &RegToken)
        ensures
            *r == self.items().txcrcr,
    {
        &self.txcrcr
    }

    /// Writes a byte to the data register. The frame size must be 8 bits;
    /// the register reads back the byte zero-extended.
    pub fn send_byte(&self, bus: &mut RegisterFile, value: u8)
        requires
            self.items().dr.reg() < old(bus)@.len(),
        ensures
            final(bus)@ == old(bus)@.update(self.items().dr.reg() as int, value as u32),
    {
        self.dr.store_val(bus, value as u32);
    }

    /// Writes a half-word to the data register. The frame size must be 16
    /// bits; the register reads back the half-word zero-extended.
    pub fn send_hword(&self, bus: &mut RegisterFile, value: u16)
        requires
            self.items().dr.reg() < old(bus)@.len(),
        ensures
            final(bus)@ == old(bus)@.update(self.items().dr.reg() as int, value as u32),
    {
        self.dr.store_val(bus, value as u32);
    }

    /// Reads a byte from the data register: its low 8 bits.
    pub fn recv_byte(&self, bus: &RegisterFile) -> (r: u8)
        requires
            self.items().dr.reg() < bus@.len(),
        ensures
            r == bus@[self.items().dr.reg() as int] as u8,
    {
        self.dr.read_val(bus) as u8
    }

    /// Reads a half-word from the data register: its low 16 bits.
    pub fn recv_hword(&self, bus: &RegisterFile) -> (r: u16)
        requires
            self.items().dr.reg() < bus@.len(),
        ensures
            r == bus@[self.items().dr.reg() as int] as u16,
    {
        self.dr.read_val(bus) as u16
    }

    /// The register that holds `flag`.
    pub open spec fn flag_reg(&self, flag: ControlFlag) -> u32 {
        match flag {
            ControlFlag::Spe => self.items().cr1.reg(),
            ControlFlag::Txdmaen => self.items().cr2.reg(),
        }
    }

    /// The bit position of `flag` in its register.
    pub open spec fn flag_bit(flag: ControlFlag) -> u32 {
        match flag {
            ControlFlag::Spe => CR1_SPE_BIT,
            ControlFlag::Txdmaen => CR2_TXDMAEN_BIT,
        }
    }

    /// Stores `value` with `flag` cleared in the flag's register, moves the
    /// handle into `body` with the register bank, then stores `value` with
    /// `flag` set. The body runs while the flag is off; the flag is on again
    /// afterwards, unless the body left the bank without that register.
    pub fn with_flag_cleared_during<F, R>(
        self,
        bus: &mut RegisterFile,
        flag: ControlFlag,
        value: u32,
        body: F,
    ) -> (r: R) where F: FnOnce(Spi, &mut RegisterFile) -> R
        requires
            self.flag_reg(flag) < old(bus)@.len(),
            forall|s: Spi, b: &mut RegisterFile|
                s == self && b@ == old(bus)@.update(
                    self.flag_reg(flag) as int,
                    value & !(1u32 << Self::flag_bit(flag)),
                ) ==> body.requires((s, b)),
        ensures
            self.flag_reg(flag) < final(bus)@.len() ==> final(bus)@[self.flag_reg(flag) as int]
                == value | (1u32 << Self::flag_bit(flag)),
    {
        let (reg, bit) = match flag {
            ControlFlag::Spe => (self.cr1.reg(), CR1_SPE_BIT),
            ControlFlag::Txdmaen => (self.cr2.reg(), CR2_TXDMAEN_BIT),
        };
        bus.store(reg, value & !(1u32 << bit));
        let result = body(self, bus);
        if (reg as usize) < bus.len() {
            bus.store(reg, value | (1u32 << bit));
        }
        result
    }

    /// Moves the handle into `f` while SPE is cleared, then sets SPE.
    pub fn spe_after<F, R>(self, bus: &mut RegisterFile, cr1_val: u32, f: F) -> (r: R) where
        F: FnOnce(Spi, &mut RegisterFile) -> R,

        requires
            self.items().cr1.reg() < old(bus)@.len(),
            forall|s: Spi, b: &mut RegisterFile|
                s == self && b@ == old(bus)@.update(
                    self.items().cr1.reg() as int,
                    cr1_val & !(1u32 << CR1_SPE_BIT),
                ) ==> f.requires((s, b)),
        ensures
            self.items().cr1.reg() < final(bus)@.len() ==> final(bus)@[self.items().cr1.reg() as int]
                == cr1_val | (1u32 << CR1_SPE_BIT),
    {
        self.with_flag_cleared_during(bus, ControlFlag::Spe, cr1_val, f)
    }

    /// Moves the handle into `f` while TXDMAEN is cleared, then sets TXDMAEN.
    pub fn txdmaen_after<F, R>(self, bus: &mut RegisterFile, cr2_val: u32, f: F) -> (r: R) where
        F: FnOnce(Spi, &mut RegisterFile) -> R,

        requires
            self.items().cr2.reg() < old(bus)@.len(),
            forall|s: Spi, b: &mut RegisterFile|
                s == self && b@ == old(bus)@.update(
                    self.items().cr2.reg() as int,
                    cr2_val & !(1u32 << CR2_TXDMAEN_BIT),
                ) ==> f.requires((s, b)),
        ensures
            self.items().cr2.reg() < final(bus)@.len() ==> final(bus)@[self.items().cr2.reg() as int]
                == cr2_val | (1u32 << CR2_TXDMAEN_BIT),
    {
        self.with_flag_cleared_during(bus, ControlFlag::Txdmaen, cr2_val, f)
    }
}

/// Decomposing a composed SPI instance gives back exactly the pieces it was
/// composed from, field for field.
pub proof fn lemma_compose_round_trip(items: SpiItems)
    ensures
        Spi::of_items(items).items() == items,
{
}

} // verus!
