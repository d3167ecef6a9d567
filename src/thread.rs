//! Interrupt thread bindings.
use vstd::prelude::*;

verus! {

/// The capability for one interrupt vector: the only way to register the
/// routine run when that vector fires, and so to build a routine future on
/// it. It is a cheap proof value and may be copied; what makes it exclusive
/// is that the vector table hands out a binding for each vector only once.
#[derive(Clone, Copy)]
pub struct ThreadBinding {
    vector: u32,
}

impl ThreadBinding {
    pub closed spec fn spec_vector(&self) -> u32 {
        self.vector
    }

    /// The vector this binding identifies.
    #[verifier::when_used_as_spec(spec_vector)]
    pub fn vector(&self) -> (r: u32)
        ensures
            r == self.vector(),
    {
        self.vector
    }
}

/// The interrupt vectors of a device, and which of them are bound.
pub struct VectorTable {
    bound: Vec<bool>,
}

impl VectorTable {
    /// Whether each vector, by number, has been bound.
    pub closed spec fn bound(&self) -> Seq<bool> {
        self.bound@
    }

    /// A table of `count` vectors, none bound.
    pub fn new(count: usize) -> (r: Self)
        ensures
            r.bound() == Seq::new(count as nat, |i: int| false),
    {
        let mut bound: Vec<bool> = Vec::new();
        let mut i: usize = 0;
        while i < count
            invariant
                i <= count,
                bound@ == Seq::new(i as nat, |k: int| false),
            decreases count - i,
        {
            bound.push(false);
            i = i + 1;
            assert(bound@ =~= Seq::new(i as nat, |k: int| false));
        }
        VectorTable { bound }
    }

    /// Hands out the binding of `vector`, unless it was handed out before or
    /// the device has no such vector.
    pub fn bind(&mut self, vector: u32) -> (r: Option<ThreadBinding>)
        ensures
            r is Some <==> vector < old(self).bound().len() && !old(self).bound()[vector as int],
            r is Some ==> r->Some_0.vector() == vector && final(self).bound() == old(self).bound().update(vector as int, true),
            r is None ==> final(self).bound() == old(self).bound(),
    {
        if (vector as usize) < self.bound.len() && !self.bound[vector as usize] {
            self.bound.set(vector as usize, true);
            Some(ThreadBinding { vector })
        } else {
            None
        }
    }
}

} // verus!
