//! The memory-mapped register space that the tokens act on.
use vstd::prelude::*;

verus! {

/// A bank of 32-bit memory-mapped registers, addressed by register number.
///
/// Firmware touches it only through register tokens; a test harness or an
/// interrupt dispatcher stands in for the hardware by loading and storing
/// words directly.
pub struct RegisterFile {
    words: Vec<u32>,
}

impl View for RegisterFile {
    type V = Seq<u32>;

    closed spec fn view(&self) -> Seq<u32> {
        self.words@
    }
}

impl RegisterFile {
    /// A bank of `count` registers, all reading zero.
    pub fn new(count: usize) -> (r: Self)
        ensures
            r@ == Seq::new(count as nat, |i: int| 0u32),
    {
        let mut words: Vec<u32> = Vec::new();
        let mut i: usize = 0;
        while i < count
            invariant
                i <= count,
                words@ == Seq::new(i as nat, |k: int| 0u32),
            decreases count - i,
        {
            words.push(0u32);
            i = i + 1;
            assert(words@ =~= Seq::new(i as nat, |k: int| 0u32));
        }
        RegisterFile { words }
    }

    /// Number of registers in the bank.
    pub fn len(&self) -> (r: usize)
        ensures
            r == self@.len(),
    {
        self.words.len()
    }

    /// Reads register `reg`.
    pub fn load(&self, reg: u32) -> (r: u32)
        requires
            reg < self@.len(),
        ensures
            r == self@[reg as int],
    {
        self.words[reg as usize]
    }

    /// Writes `value` to register `reg`, leaving every other register alone.
    pub fn store(&mut self, reg: u32, value: u32)
        requires
            reg < old(self)@.len(),
        ensures
            final(self)@ == old(self)@.update(reg as int, value),
    {
        self.words.set(reg as usize, value);
    }
}

} // verus!
