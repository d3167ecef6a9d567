//! Interrupt-driven completion: the routine future.
//!
//! A routine future owns a peripheral handle and is tied to the interrupt
//! vector of that peripheral. Its routine runs once when the future is first
//! polled and then once each time the vector fires, until it reports an
//! outcome. The two entry points are kept apart: `poll` is called by whatever
//! drives the caller's control flow, `fire` by the interrupt dispatcher, or by
//! a test harness standing in for it.
use crate::bus::RegisterFile;
use crate::dma::{Dma, Step};
use crate::thread::ThreadBinding;
use vstd::prelude::*;

verus! {

/// Which completion event a DMA routine waits for.
#[derive(Clone, Copy, Debug, PartialEq, Eq, Structural)]
pub enum Completion {
    TransferComplete,
    HalfTransfer,
}

/// What a routine does after reading the status flags.
#[derive(Clone, Copy, Debug, PartialEq, Eq, Structural)]
pub enum Decision {
    /// Neither flag is set: suspend until the next interrupt.
    Suspend,
    /// The error flag is set: resolve with an error.
    Fail,
    /// The completion flag is set and the error flag is not: resolve with
    /// success.
    Succeed,
}

impl Decision {
    /// The decision on an error flag and a completion flag. The error flag is
    /// looked at first.
    pub open spec fn of(error: bool, complete: bool) -> Decision {
        if error {
            Decision::Fail
        } else if complete {
            Decision::Succeed
        } else {
            Decision::Suspend
        }
    }
}

/// Decides on the flags read by one run of a routine.
pub fn decide(error: bool, complete: bool) -> (r: Decision)
    ensures
        r == Decision::of(error, complete),
        error ==> r == Decision::Fail,
{
    if error {
        Decision::Fail
    } else if complete {
        Decision::Succeed
    } else {
        Decision::Suspend
    }
}

/// When the error flag and the completion flag are both set, the routine
/// resolves with an error, never with success.
pub proof fn lemma_error_takes_priority(complete: bool)
    ensures
        Decision::of(true, complete) == Decision::Fail,
        Decision::of(true, complete) != Decision::Succeed,
{
}

/// The answer to a poll.
pub enum FuturePoll<T> {
    Pending,
    Ready(T),
}

/// Where a routine future stands.
pub enum Stage {
    /// Not polled yet; the routine has not run.
    Unpolled(Dma),
    /// The routine ran and asked to wait for the next interrupt.
    Suspended(Dma),
    /// The routine reported its outcome; the next poll hands it out.
    Resolved(Result<Dma, Dma>),
    /// The outcome was handed out. Polling again is a programmer error.
    Finished,
}

/// A future that resolves, with the DMA handle itself, when the routine
/// bound to the handle's interrupt vector sees an error or the awaited
/// completion event. Success and failure both give the handle back, so the
/// caller never loses the hardware unit.
pub struct RoutineFuture {
    vector: u32,
    target: Completion,
    stage: Stage,
}

impl RoutineFuture {
    pub closed spec fn spec_vector(&self) -> u32 {
        self.vector
    }

    pub closed spec fn spec_target(&self) -> Completion {
        self.target
    }

    /// Where the future stands.
    pub closed spec fn stage(&self) -> Stage {
        self.stage
    }

    /// Whether the future has not been polled yet and owns `dma`.
    pub open spec fn is_unpolled_with(&self, dma: Dma) -> bool {
        self.stage() == Stage::Unpolled(dma)
    }

    /// Whether the registers the routine touches are among the first
    /// `count`, for whatever handle the future holds.
    pub open spec fn flags_within(&self, count: nat) -> bool {
        match self.stage() {
            Stage::Unpolled(d) => d.flags_within(count),
            Stage::Suspended(d) => d.flags_within(count),
            _ => true,
        }
    }

    pub(crate) fn new(irq: ThreadBinding, target: Completion, dma: Dma) -> (r: Self)
        ensures
            r.vector() == irq.vector(),
            r.target() == target,
            r.stage() == Stage::Unpolled(dma),
    {
        RoutineFuture { vector: irq.vector(), target, stage: Stage::Unpolled(dma) }
    }

    /// The interrupt vector whose firings drive the routine.
    #[verifier::when_used_as_spec(spec_vector)]
    pub fn vector(&self) -> (r: u32)
        ensures
            r == self.vector(),
    {
        self.vector
    }

    /// The completion event the routine waits for.
    #[verifier::when_used_as_spec(spec_target)]
    pub fn target(&self) -> (r: Completion)
        ensures
            r == self.target(),
    {
        self.target
    }

    /// Whether the outcome has been handed out.
    pub fn is_finished(&self) -> (r: bool)
        ensures
            r == (self.stage() is Finished),
    {
        match self.stage {
            Stage::Finished => true,
            _ => false,
        }
    }

    /// Polls the future. The first poll runs the routine; later polls only
    /// report whether a firing of the vector has resolved it since.
    pub fn poll(&mut self, bus: &mut RegisterFile) -> (r: FuturePoll<Result<Dma, Dma>>)
        requires
            !(old(self).stage() is Finished),
            old(self).flags_within(old(bus)@.len()),
        ensures
            final(self).vector() == old(self).vector(),
            final(self).target() == old(self).target(),
            match old(self).stage() {
                Stage::Unpolled(d) => match d.decision(old(self).target(), old(bus)@) {
                    Decision::Suspend => r is Pending && final(self).stage() == Stage::Suspended(d)
                        && final(bus)@ == old(bus)@,
                    Decision::Fail => r == FuturePoll::Ready(Err::<Dma, Dma>(d)) && final(self).stage() is Finished && final(bus)@ == d.cleared(old(bus)@),
                    Decision::Succeed => r == FuturePoll::Ready(Ok::<Dma, Dma>(d)) && final(self).stage() is Finished && final(bus)@ == d.cleared(old(bus)@),
                },
                Stage::Suspended(d) => r is Pending && final(self).stage() == old(self).stage()
                    && final(bus)@ == old(bus)@,
                Stage::Resolved(res) => r == FuturePoll::Ready(res) && final(self).stage() is Finished
                    && final(bus)@ == old(bus)@,
                Stage::Finished => false,
            },
    {
        let mut stage = Stage::Finished;
        std::mem::swap(&mut stage, &mut self.stage);
        match stage {
            Stage::Unpolled(d) => match d.run_routine(self.target, bus) {
                Step::Yield(d) => {
                    self.stage = Stage::Suspended(d);
                    FuturePoll::Pending
                },
                Step::Done(res) => FuturePoll::Ready(res),
            },
            Stage::Suspended(d) => {
                self.stage = Stage::Suspended(d);
                FuturePoll::Pending
            },
            Stage::Resolved(res) => FuturePoll::Ready(res),
            Stage::Finished => FuturePoll::Pending,
        }
    }

    /// The vector fired: runs the routine again if the future is waiting for
    /// it, and says whether this run resolved the future. In any other stage
    /// the routine is not registered and nothing happens.
    pub fn fire(&mut self, bus: &mut RegisterFile) -> (r: bool)
        requires
            old(self).flags_within(old(bus)@.len()),
        ensures
            final(self).vector() == old(self).vector(),
            final(self).target() == old(self).target(),
            match old(self).stage() {
                Stage::Suspended(d) => match d.decision(old(self).target(), old(bus)@) {
                    Decision::Suspend => !r && final(self).stage() == old(self).stage() && final(bus)@ == old(bus)@,
                    Decision::Fail => r && final(self).stage() == Stage::Resolved(Err(d)) && final(bus)@ == d.cleared(old(bus)@),
                    Decision::Succeed => r && final(self).stage() == Stage::Resolved(Ok(d))
                        && final(bus)@ == d.cleared(old(bus)@),
                },
                _ => !r && final(self).stage() == old(self).stage() && final(bus)@ == old(bus)@,
            },
    {
        let mut stage = Stage::Finished;
        std::mem::swap(&mut stage, &mut self.stage);
        match stage {
            Stage::Suspended(d) => match d.run_routine(self.target, bus) {
                Step::Yield(d) => {
                    self.stage = Stage::Suspended(d);
                    false
                },
                Step::Done(res) => {
                    self.stage = Stage::Resolved(res);
                    true
                },
            },
            other => {
                self.stage = other;
                false
            },
        }
    }

    /// Discards the future and hands back the handle it holds, if any. The
    /// routine is no longer run on firings; hardware state is left as it is
    /// (a transfer in flight keeps running).
    pub fn cancel(self) -> (r: Option<Dma>)
        ensures
            match self.stage() {
                Stage::Unpolled(d) => r == Some(d),
                Stage::Suspended(d) => r == Some(d),
                Stage::Resolved(Ok(d)) => r == Some(d),
                Stage::Resolved(Err(d)) => r == Some(d),
                Stage::Finished => r is None,
            },
    {
        match self.stage {
            Stage::Unpolled(d) => Some(d),
            Stage::Suspended(d) => Some(d),
            Stage::Resolved(Ok(d)) => Some(d),
            Stage::Resolved(Err(d)) => Some(d),
            Stage::Finished => None,
        }
    }
}

} // verus!
