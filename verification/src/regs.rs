//! The register bank: the bank of 32-bit reset-control registers that the
//! operations read and write, one register per mapped block.
//!
//! The hardware register file is the only mutable state of the controller;
//! this type models it as plain values so that every read-modify-write the
//! operations perform is against a value Verus can reason about. The driver
//! glue that owns real memory-mapped registers mirrors each read and write
//! onto the hardware through the platform's accessors.

use vstd::prelude::*;

use crate::map::NUM_BLOCKS;

verus! {

/// One 32-bit register per register block, indexed by block number.
pub struct RegisterBank {
    regs: Vec<u32>,
}

impl View for RegisterBank {
    type V = Seq<u32>;

    closed spec fn view(&self) -> Seq<u32> {
        self.regs@
    }
}

impl RegisterBank {
    /// Well-formedness: exactly one register per block.
    pub open spec fn wf(&self) -> bool {
        self@.len() == NUM_BLOCKS
    }

    /// A bank with every register cleared.
    pub fn new() -> (r: RegisterBank)
        ensures
            r.wf(),
            forall|b: int| 0 <= b < NUM_BLOCKS ==> r@[b] == 0,
    {
        let mut regs: Vec<u32> = Vec::new();
        for b in 0..NUM_BLOCKS
            invariant
                regs@.len() == b,
                forall|i: int| 0 <= i < b ==> regs@[i] == 0,
        {
            regs.push(0);
        }
        RegisterBank { regs }
    }

    /// A bank whose registers start at the given values: the hardware may be
    /// in any state when the driver attaches, and the driver forces none.
    pub fn from_values(values: [u32; 5]) -> (r: RegisterBank)
        ensures
            r.wf(),
            r@ == values@,
    {
        let mut regs: Vec<u32> = Vec::new();
        for b in 0..5
            invariant
                regs@.len() == b,
                forall|i: int| 0 <= i < b ==> regs@[i] == values@[i],
        {
            regs.push(values[b]);
        }
        proof {
            assert(regs@ =~= values@);
        }
        RegisterBank { regs }
    }

    /// Reads one register.
    pub fn read(&self, block: usize) -> (r: u32)
        requires
            self.wf(),
            block < NUM_BLOCKS,
        ensures
            r == self@[block as int],
    {
        self.regs[block]
    }

    /// Writes one register, leaving every other register unchanged.
    pub fn write(&mut self, block: usize, value: u32)
        requires
            old(self).wf(),
            block < NUM_BLOCKS,
        ensures
            final(self).wf(),
            final(self)@ == old(self)@.update(block as int, value),
    {
        self.regs[block] = value;
    }
}

} // verus!
