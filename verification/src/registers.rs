//! The register file: eight general-purpose registers, the program
//! counter and the condition-code register.

use vstd::prelude::*;
use crate::bits::{flag_for, wadd, FLAG_ZRO};
use crate::host::Host;
use crate::isa::{op_of, OP};
use crate::memory::Memory;

verus! {

/// Address at which execution starts by default.
pub const PC_START: u16 = 0x3000;

/// The mathematical content of the register file.
#[verifier::ext_equal]
pub ghost struct RegModel {
    /// The eight general-purpose registers `R0..R7`.
    pub regs: Seq<u16>,
    /// The program counter.
    pub pc: u16,
    /// The condition-code register, holding exactly one of the flags
    /// `P = 1`, `Z = 2`, `N = 4`.
    pub cond: u16,
}

/// Eight general-purpose 16-bit registers, a program counter and a
/// condition-code register.
pub struct Registers {
    /// The eight general-purpose registers `R0..R7`.
    pub regs: Vec<u16>,
    /// The program counter.
    pub program_count: u16,
    /// The condition-code register.
    pub condition: u16,
}

impl View for Registers {
    type V = RegModel;

    open spec fn view(&self) -> RegModel {
        RegModel { regs: self.regs@, pc: self.program_count, cond: self.condition }
    }
}

impl Registers {
    /// There are eight general registers and the condition register holds
    /// exactly one flag.
    pub open spec fn wf(&self) -> bool {
        &&& self@.regs.len() == 8
        &&& (self@.cond == 1 || self@.cond == 2 || self@.cond == 4)
    }

    /// A register file in its starting state: all general registers zero,
    /// the program counter at `PC_START`, and the zero flag set.
    pub fn new() -> (r: Registers)
        ensures
            r.wf(),
            forall|i: int| 0 <= i < 8 ==> r@.regs[i] == 0,
            r@.pc == PC_START,
            r@.cond == FLAG_ZRO,
    {
        let mut regs: Vec<u16> = Vec::new();
        let mut i: usize = 0;
        while i < 8
            invariant
                i == regs@.len(),
                i <= 8,
                forall|j: int| 0 <= j < i ==> regs@[j] == 0,
            decreases 8 - i,
        {
            regs.push(0);
            i = i + 1;
        }
        Registers { regs, program_count: PC_START, condition: FLAG_ZRO }
    }

    /// Return `R[r & 7]`: selectors are always masked to three bits.
    pub fn get(&self, r: u16) -> (v: u16)
        requires
            self.wf(),
        ensures
            v == self@.regs[(r & 7) as int],
    {
        proof {
            crate::bits::lemma_mask7(r);
        }
        self.regs[(r & 7) as usize]
    }

    /// Assign `R[r & 7] := value` and set the condition register to the
    /// flag of the written value.
    pub fn set(&mut self, r: u16, value: u16)
        requires
            old(self).wf(),
        ensures
            final(self).wf(),
            final(self)@.regs == old(self)@.regs.update((r & 7) as int, value),
            final(self)@.cond == flag_for(value),
            final(self)@.pc == old(self)@.pc,
    {
        proof {
            crate::bits::lemma_mask7(r);
        }
        self.regs[(r & 7) as usize] = value;
        self.condition = if value == 0 {
            2
        } else if value >= 0x8000 {
            4
        } else {
            1
        };
    }

    /// Save a value into `R7` without touching the condition register, as
    /// `JSR` and `TRAP` do when they record the return address.
    pub fn save_r7(&mut self, value: u16)
        requires
            old(self).wf(),
        ensures
            final(self).wf(),
            final(self)@.regs == old(self)@.regs.update(7, value),
            final(self)@.cond == old(self)@.cond,
            final(self)@.pc == old(self)@.pc,
    {
        self.regs[7] = value;
    }

    /// Fetch one instruction: read the word at the program counter,
    /// advance the counter by one with 16-bit wrap, and decode the opcode
    /// field.  Every 4-bit field names an opcode, so the decoded half is
    /// never `None`.
    pub fn next(&mut self, memory: &mut Memory, host: &mut Host) -> (r: (u16, Option<OP>))
        requires
            old(self).wf(),
            old(memory).wf(),
        ensures
            final(self).wf(),
            final(memory).wf(),
            final(self)@.pc == wadd(old(self)@.pc, 1),
            final(self)@.regs == old(self)@.regs,
            final(self)@.cond == old(self)@.cond,
            old(self)@.pc != crate::memory::KEYBOARD_STATUS ==> final(memory)@ == old(
                memory,
            )@ && final(host)@ == old(host)@,
            old(self)@.pc == crate::memory::KEYBOARD_STATUS ==> {
                &&& final(memory)@.polled
                &&& final(host)@.pending == 0
                &&& final(host)@.output == old(host)@.output
                &&& old(host)@.pending != 0 ==> final(memory)@.cells == old(
                    memory,
                )@.cells.update(crate::memory::KEYBOARD_STATUS as int, 0x8000).update(
                    crate::memory::KEYBOARD_DATA as int,
                    old(host)@.pending as u16,
                )
                &&& old(host)@.pending == 0 ==> final(memory)@.cells == old(
                    memory,
                )@.cells.update(crate::memory::KEYBOARD_STATUS as int, 0)
            },
            r.0 == final(memory)@.cells[old(self)@.pc as int],
            r.1 == op_of(r.0 >> 12),
            r.1 is Some,
    {
        let pc = self.program_count;
        self.program_count = self.program_count.wrapping_add(1);
        let instruction = memory.read(pc, host);
        let operation = OP::from_u16(instruction >> 12);
        proof {
            assert((instruction >> 12) < 16) by (bit_vector);
        }
        (instruction, operation)
    }
}

} // verus!
