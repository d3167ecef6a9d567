//! Direct memory access channel.
use crate::bus::RegisterFile;
use crate::routine::{decide, Completion, Decision, RoutineFuture};
use crate::thread::ThreadBinding;
use crate::token::{bit_of, RegToken, SharedToken};
use vstd::prelude::*;

verus! {

/// The pieces a DMA channel is composed of.
pub struct DmaItems {
    pub irq: ThreadBinding,
    pub ccr: RegToken,
    pub cmar: RegToken,
    pub cndtr: RegToken,
    pub cpar: RegToken,
    pub ifcr_cgif: SharedToken,
    pub ifcr_chtif: SharedToken,
    pub ifcr_ctcif: SharedToken,
    pub ifcr_cteif: SharedToken,
    pub isr_gif: SharedToken,
    pub isr_htif: SharedToken,
    pub isr_tcif: SharedToken,
    pub isr_teif: SharedToken,
}

/// A DMA channel: exactly the tokens and the interrupt binding the channel
/// needs, moved as one handle.
pub struct Dma {
    irq: ThreadBinding,
    ccr: RegToken,
    cmar: RegToken,
    cndtr: RegToken,
    cpar: RegToken,
    ifcr_cgif: SharedToken,
    ifcr_chtif: SharedToken,
    ifcr_ctcif: SharedToken,
    ifcr_cteif: SharedToken,
    isr_gif: SharedToken,
    isr_htif: SharedToken,
    isr_tcif: SharedToken,
    isr_teif: SharedToken,
}

/// What one run of a channel's completion routine leaves behind.
pub enum Step {
    /// Nothing to report yet: wait for the next interrupt.
    Yield(Dma),
    /// The routine is done, with the handle as its result.
    Done(Result<Dma, Dma>),
}

impl Dma {
    /// The pieces this handle owns.
    pub closed spec fn items(&self) -> DmaItems {
        DmaItems {
            irq: self.irq,
            ccr: self.ccr,
            cmar: self.cmar,
            cndtr: self.cndtr,
            cpar: self.cpar,
            ifcr_cgif: self.ifcr_cgif,
            ifcr_chtif: self.ifcr_chtif,
            ifcr_ctcif: self.ifcr_ctcif,
            ifcr_cteif: self.ifcr_cteif,
            isr_gif: self.isr_gif,
            isr_htif: self.isr_htif,
            isr_tcif: self.isr_tcif,
            isr_teif: self.isr_teif,
        }
    }

    /// The handle that owns exactly `items`.
    pub closed spec fn of_items(items: DmaItems) -> Dma {
        Dma {
            irq: items.irq,
            ccr: items.ccr,
            cmar: items.cmar,
            cndtr: items.cndtr,
            cpar: items.cpar,
            ifcr_cgif: items.ifcr_cgif,
            ifcr_chtif: items.ifcr_chtif,
            ifcr_ctcif: items.ifcr_ctcif,
            ifcr_cteif: items.ifcr_cteif,
            isr_gif: items.isr_gif,
            isr_htif: items.isr_htif,
            isr_tcif: items.isr_tcif,
            isr_teif: items.isr_teif,
        }
    }

    /// Composes a channel from its pieces.
    pub fn compose(items: DmaItems) -> (r: Dma)
        ensures
            r == Dma::of_items(items),
            r.items() == items,
    {
        Dma {
            irq: items.irq,
            ccr: items.ccr,
            cmar: items.cmar,
            cndtr: items.cndtr,
            cpar: items.cpar,
            ifcr_cgif: items.ifcr_cgif,
            ifcr_chtif: items.ifcr_chtif,
            ifcr_ctcif: items.ifcr_ctcif,
            ifcr_cteif: items.ifcr_cteif,
            isr_gif: items.isr_gif,
            isr_htif: items.isr_htif,
            isr_tcif: items.isr_tcif,
            isr_teif: items.isr_teif,
        }
    }

    /// Decomposes the channel into its pieces.
    pub fn decompose(self) -> (r: DmaItems)
        ensures
            r == self.items(),
    {
        DmaItems {
            irq: self.irq,
            ccr: self.ccr,
            cmar: self.cmar,
            cndtr: self.cndtr,
            cpar: self.cpar,
            ifcr_cgif: self.ifcr_cgif,
            ifcr_chtif: self.ifcr_chtif,
            ifcr_ctcif: self.ifcr_ctcif,
            ifcr_cteif: self.ifcr_cteif,
            isr_gif: self.isr_gif,
            isr_htif: self.isr_htif,
            isr_tcif: self.isr_tcif,
            isr_teif: self.isr_teif,
        }
    }

    /// The interrupt binding of the channel.
    pub fn irq(&self) -> (r: ThreadBinding)
        ensures
            r == self.items().irq,
    {
        self.irq
    }

    pub fn ccr(&self) -> (r: &RegToken)
        ensures
            *r == self.items().ccr,
    {
        &self.ccr
    }

    pub fn cmar(&self) -> (r: &RegToken)
        ensures
            *r == self.items().cmar,
    {
        &self.cmar
    }

    pub fn cndtr(&self) -> (r: &RegToken)
        ensures
            *r == self.items().cndtr,
    {
        &self.cndtr
    }

    pub fn cpar(&self) -> (r: &RegToken)
        ensures
            *r == self.items().cpar,
    {
        &self.cpar
    }

    pub fn ifcr_cgif(&self) -> (r: &SharedToken)
        ensures
            *r == self.items().ifcr_cgif,
    {
        &self.ifcr_cgif
    }

    pub fn ifcr_chtif(&self) -> (r: &SharedToken)
        ensures
            *r == self.items().ifcr_chtif,
    {
        &self.ifcr_chtif
    }

    pub fn ifcr_ctcif(&self) -> (r: &SharedToken)
        ensures
            *r == self.items().ifcr_ctcif,
    {
        &self.ifcr_ctcif
    }

    pub fn ifcr_cteif(&self) -> (r: &SharedToken)
        ensures
            *r == self.items().ifcr_cteif,
    {
        &self.ifcr_cteif
    }

    pub fn isr_gif(&self) -> (r: &SharedToken)
        ensures
            *r == self.items().isr_gif,
    {
        &self.isr_gif
    }

    pub fn isr_htif(&self) -> (r: &SharedToken)
        ensures
            *r == self.items().isr_htif,
    {
        &self.isr_htif
    }

    pub fn isr_tcif(&self) -> (r: &SharedToken)
        ensures
            *r == self.items().isr_tcif,
    {
        &self.isr_tcif
    }

    pub fn isr_teif(&self) -> (r: &SharedToken)
        ensures
            *r == self.items().isr_teif,
    {
        &self.isr_teif
    }

    /// Whether the status and clear-flags registers the completion routine
    /// touches are among the first `count` registers.
    pub open spec fn flags_within(&self, count: nat) -> bool {
        &&& self.items().isr_teif.id().reg < count
        &&& self.items().isr_tcif.id().reg < count
        &&& self.items().isr_htif.id().reg < count
        &&& self.items().ifcr_cgif.id().reg < count
    }

    /// The flag that signals the completion `target`.
    pub open spec fn target_flag(&self, target: Completion) -> SharedToken {
        match target {
            Completion::TransferComplete => self.items().isr_tcif,
            Completion::HalfTransfer => self.items().isr_htif,
        }
    }

    /// What the completion routine decides on the register values `regs`.
    pub open spec fn decision(&self, target: Completion, regs: Seq<u32>) -> Decision {
        let teif = self.items().isr_teif;
        let flag = self.target_flag(target);
        Decision::of(
            bit_of(regs[teif.id().reg as int], teif.offset()),
            bit_of(regs[flag.id().reg as int], flag.offset()),
        )
    }

    /// The register values after the routine clears the channel's flags.
    pub open spec fn cleared(&self, regs: Seq<u32>) -> Seq<u32> {
        let cgif = self.items().ifcr_cgif;
        regs.update(cgif.id().reg as int, regs[cgif.id().reg as int] | (1u32 << cgif.offset()))
    }

    /// One run of the completion routine: the error flag is tested first,
    /// then the flag of `target`; on either the channel's flags are cleared
    /// and the handle is handed back as the result.
    pub fn run_routine(self, target: Completion, bus: &mut RegisterFile) -> (r: Step)
        requires
            self.flags_within(old(bus)@.len()),
        ensures
            match self.decision(target, old(bus)@) {
                Decision::Suspend => r == Step::Yield(self) && final(bus)@ == old(bus)@,
                Decision::Fail => r == Step::Done(Err(self)) && final(bus)@ == self.cleared(
                    old(bus)@,
                ),
                Decision::Succeed => r == Step::Done(Ok(self)) && final(bus)@ == self.cleared(
                    old(bus)@,
                ),
            },
    {
        let error = self.isr_teif.read_bit_band(bus);
        let complete = match target {
            Completion::TransferComplete => self.isr_tcif.read_bit_band(bus),
            Completion::HalfTransfer => self.isr_htif.read_bit_band(bus),
        };
        match decide(error, complete) {
            Decision::Suspend => Step::Yield(self),
            Decision::Fail => {
                self.ifcr_cgif.set_bit_band(bus);
                Step::Done(Err(self))
            },
            Decision::Succeed => {
                self.ifcr_cgif.set_bit_band(bus);
                Step::Done(Ok(self))
            },
        }
    }

    /// A future that resolves on the transfer-complete event of the channel.
    pub fn transfer_complete(self) -> (r: RoutineFuture)
        ensures
            r.vector() == self.items().irq.vector(),
            r.target() == Completion::TransferComplete,
            r.is_unpolled_with(self),
    {
        let irq = self.irq;
        RoutineFuture::new(irq, Completion::TransferComplete, self)
    }

    /// A future that resolves on the half-transfer event of the channel.
    pub fn half_transfer(self) -> (r: RoutineFuture)
        ensures
            r.vector() == self.items().irq.vector(),
            r.target() == Completion::HalfTransfer,
            r.is_unpolled_with(self),
    {
        let irq = self.irq;
        RoutineFuture::new(irq, Completion::HalfTransfer, self)
    }
}

/// Decomposing a composed channel gives back exactly the pieces it was
/// composed from, field for field.
pub proof fn lemma_compose_round_trip(items: DmaItems)
    ensures
        Dma::of_items(items).items() == items,
{
}

} // verus!
