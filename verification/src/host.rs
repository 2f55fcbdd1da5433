//! The host side of the machine's character I/O, as plain data.
//!
//! The machine consumes characters through `get_char` and emits bytes
//! through `put_char`.  A real host (a terminal loop, a browser embedding)
//! deposits incoming characters with `provide_char` and drains what the
//! machine wrote with `take_output`; the interpreter itself never touches
//! the outside world.

use vstd::prelude::*;

verus! {

/// The mathematical content of a host channel: the character waiting to be
/// read, `0` when there is none, and everything written so far.
#[verifier::ext_equal]
pub ghost struct HostModel {
    /// The pending input character; `0` means none is available.
    pub pending: u8,
    /// Every byte the machine has written, oldest first.
    pub output: Seq<u8>,
}

/// The two-operation character channel between the machine and its host.
pub struct Host {
    /// The pending input character; `0` means none is available.
    pub pending: u8,
    /// Every byte the machine has written, oldest first.
    pub output: Vec<u8>,
}

impl View for Host {
    type V = HostModel;

    open spec fn view(&self) -> HostModel {
        HostModel { pending: self.pending, output: self.output@ }
    }
}

impl Host {
    /// A channel with no pending character and nothing written.
    pub fn new() -> (r: Host)
        ensures
            r@.pending == 0,
            r@.output == Seq::<u8>::empty(),
    {
        Host { pending: 0, output: Vec::new() }
    }

    /// Take the pending character: its value if one is available, `0`
    /// otherwise.  Either way no character is pending afterwards.
    pub fn get_char(&mut self) -> (r: u8)
        ensures
            r == old(self)@.pending,
            final(self)@.pending == 0,
            final(self)@.output == old(self)@.output,
    {
        let c = self.pending;
        self.pending = 0;
        c
    }

    /// Append one byte to the output.
    pub fn put_char(&mut self, c: u8)
        ensures
            final(self)@.output == old(self)@.output.push(c),
            final(self)@.pending == old(self)@.pending,
    {
        self.output.push(c);
    }

    /// Deposit a character for the machine to read; `0` clears the slot.
    pub fn provide_char(&mut self, c: u8)
        ensures
            final(self)@.pending == c,
            final(self)@.output == old(self)@.output,
    {
        self.pending = c;
    }

    /// Drain everything the machine has written, oldest byte first.
    pub fn take_output(&mut self) -> (r: Vec<u8>)
        ensures
            r@ == old(self)@.output,
            final(self)@.output == Seq::<u8>::empty(),
            final(self)@.pending == old(self)@.pending,
    {
        let mut out: Vec<u8> = Vec::new();
        core::mem::swap(&mut out, &mut self.output);
        out
    }
}

} // verus!
