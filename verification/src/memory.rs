//! The 65 536-word memory with its memory-mapped keyboard registers.
//!
//! A read of the keyboard status register `0xFE00` polls the host for a
//! character: when one is pending the status register is set to `0x8000`
//! and the character is stored in the data register `0xFE02`, otherwise
//! the status register is cleared.  Such a read also raises an
//! out-of-band "keyboard was polled" flag that the run loop inspects; no
//! other read has a side effect.

use vstd::prelude::*;
use crate::host::Host;

verus! {

/// Number of 16-bit words in the address space.
pub const MEMORY_SIZE: usize = 0x10000;

/// Address of the memory-mapped keyboard status register.
pub const KEYBOARD_STATUS: u16 = 0xFE00;

/// Address of the memory-mapped keyboard data register.
pub const KEYBOARD_DATA: u16 = 0xFE02;

/// The mathematical content of the memory: one word per address, plus the
/// keyboard-polled flag.
#[verifier::ext_equal]
pub ghost struct MemModel {
    /// The word stored at each of the 65 536 addresses.
    pub cells: Seq<u16>,
    /// Whether the keyboard status register has been read since the flag
    /// was last taken.
    pub polled: bool,
}

/// A flat array of 65 536 words with the two keyboard registers mapped in.
pub struct Memory {
    /// The word stored at each address.
    pub cells: Vec<u16>,
    /// Whether the keyboard status register has been read since the flag
    /// was last taken.
    pub polled: bool,
}

impl View for Memory {
    type V = MemModel;

    open spec fn view(&self) -> MemModel {
        MemModel { cells: self.cells@, polled: self.polled }
    }
}

impl Memory {
    /// The memory holds a word for every 16-bit address.
    pub open spec fn wf(&self) -> bool {
        self@.cells.len() == MEMORY_SIZE
    }

    /// A memory with every cell zero and the polled flag clear.
    pub fn new() -> (r: Memory)
        ensures
            r.wf(),
            forall|a: int| 0 <= a < MEMORY_SIZE ==> r@.cells[a] == 0,
            !r@.polled,
    {
        let mut cells: Vec<u16> = Vec::new();
        let mut i: usize = 0;
        while i < MEMORY_SIZE
            invariant
                i == cells@.len(),
                i <= MEMORY_SIZE,
                forall|a: int| 0 <= a < i ==> cells@[a] == 0,
            decreases MEMORY_SIZE - i,
        {
            cells.push(0);
            i = i + 1;
        }
        Memory { cells, polled: false }
    }

    /// Read the word at `addr`.  A read of the keyboard status register
    /// first polls the host: a pending character sets the status register
    /// to `0x8000` and places the character in the data register, no
    /// pending character clears the status register; the polled flag is
    /// raised.  Any other read returns the stored word and changes
    /// nothing.
    pub fn read(&mut self, addr: u16, host: &mut Host) -> (r: u16)
        requires
            old(self).wf(),
        ensures
            final(self).wf(),
            r == final(self)@.cells[addr as int],
            addr != KEYBOARD_STATUS ==> final(self)@ == old(self)@ && final(host)@ == old(
                host,
            )@,
            addr == KEYBOARD_STATUS ==> {
                &&& final(self)@.polled
                &&& final(host)@.pending == 0
                &&& final(host)@.output == old(host)@.output
                &&& old(host)@.pending != 0 ==> final(self)@.cells == old(self)@.cells.update(
                    KEYBOARD_STATUS as int,
                    0x8000,
                ).update(KEYBOARD_DATA as int, old(host)@.pending as u16)
                &&& old(host)@.pending == 0 ==> final(self)@.cells == old(self)@.cells.update(
                    KEYBOARD_STATUS as int,
                    0,
                )
            },
    {
        if addr == KEYBOARD_STATUS {
            self.polled = true;
            let c = host.get_char();
            if c != 0 {
                self.cells[KEYBOARD_STATUS as usize] = 0x8000;
                self.cells[KEYBOARD_DATA as usize] = c as u16;
            } else {
                self.cells[KEYBOARD_STATUS as usize] = 0;
            }
        }
        self.cells[addr as usize]
    }

    /// Store `val` at `addr`, unconditionally and with no other effect.
    pub fn write(&mut self, addr: u16, val: u16)
        requires
            old(self).wf(),
        ensures
            final(self).wf(),
            final(self)@.cells == old(self)@.cells.update(addr as int, val),
            final(self)@.polled == old(self)@.polled,
    {
        self.cells[addr as usize] = val;
    }

    /// Take the keyboard-polled flag: report whether the status register
    /// has been read since the last call, and clear the flag.
    pub fn was_polled(&mut self) -> (r: bool)
        ensures
            r == old(self)@.polled,
            !final(self)@.polled,
            final(self)@.cells == old(self)@.cells,
            final(self).wf() == old(self).wf(),
    {
        let p = self.polled;
        self.polled = false;
        p
    }
}

} // verus!
