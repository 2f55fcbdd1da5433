//! A verified interpreter for the LC-3 (Little Computer 3) 16-bit
//! instruction-set architecture.
//!
//! The library loads an object image into a 65 536-word memory, then
//! fetches, decodes and executes instructions until the program halts or
//! suspends waiting for keyboard input.  The host exchanges characters with
//! the machine through a plain in-memory channel (`Host`), so every part of
//! the interpreter is ordinary data manipulation and is verified against a
//! mathematical model of the machine (`VmModel`).

use vstd::prelude::*;

pub mod bits;
pub mod host;
pub mod isa;
pub mod loader;
pub mod memory;
pub mod model;
pub mod registers;

use crate::host::Host;
use crate::isa::{OP, STATUS, TRAP};
use crate::memory::Memory;
use crate::model::VmModel;
use crate::registers::Registers;

verus! {

/// Iterate `step_model` at most `fuel` times, stopping at the first step
/// that does not report `Continue`.  A result of `Continue` means the
/// budget ran out with the machine still running.
pub open spec fn run_model(s: VmModel, fuel: nat) -> (VmModel, STATUS)
    decreases fuel,
{
    if fuel == 0 {
        (s, STATUS::Continue)
    } else {
        let r = model::step_model(s);
        if r.1 == STATUS::Continue {
            run_model(r.0, (fuel - 1) as nat)
        } else {
            r
        }
    }
}

/// The virtual machine: a register file, the 65 536-word memory, the host
/// character channel, and the halted latch of the run loop.
pub struct VM {
    /// Set once a run reached `Halted`; loading a fresh image clears it.
    pub halted: bool,
    /// The machine's memory.
    pub memory: Memory,
    /// The machine's register file.
    pub registers: Registers,
    /// The host character channel.
    pub host: Host,
}

impl View for VM {
    type V = VmModel;

    open spec fn view(&self) -> VmModel {
        VmModel {
            regs: self.registers@.regs,
            pc: self.registers@.pc,
            cond: self.registers@.cond,
            cells: self.memory@.cells,
            polled: self.memory@.polled,
            pending: self.host@.pending,
            output: self.host@.output,
        }
    }
}

impl VM {
    /// The register file and the memory have their full shape.
    pub open spec fn wf(&self) -> bool {
        &&& self.memory.wf()
        &&& self.registers.wf()
    }

    /// A machine in its starting state: memory all zero, registers all
    /// zero, the program counter at `0x3000`, the zero flag set, an empty
    /// host channel, and not halted.
    pub fn new() -> (r: VM)
        ensures
            r.wf(),
            !r.halted,
            forall|a: int| 0 <= a < crate::memory::MEMORY_SIZE ==> r@.cells[a] == 0,
            forall|i: int| 0 <= i < 8 ==> r@.regs[i] == 0,
            r@.pc == crate::registers::PC_START,
            r@.cond == crate::bits::FLAG_ZRO,
            !r@.polled,
            r@.pending == 0,
            r@.output == Seq::<u8>::empty(),
    {
        VM { halted: false, memory: Memory::new(), registers: Registers::new(), host: Host::new() }
    }

    fn op_add(&mut self, instr: u16)
        requires
            old(self).wf(),
        ensures
            final(self).wf(),
            final(self).halted == old(self).halted,
            final(self)@ == model::op_add(old(self)@, instr),
    {
        let value = if (instr >> 5) & 1 != 0 {
            bits::sign_extend(instr & 0x1F, 5)
        } else {
            self.registers.get(instr & 7)
        };
        let a = self.registers.get(instr >> 6);
        self.registers.set(instr >> 9, a.wrapping_add(value));
        proof {
            assert(self@ =~= model::op_add(old(self)@, instr));
        }
    }

    fn op_and(&mut self, instr: u16)
        requires
            old(self).wf(),
        ensures
            final(self).wf(),
            final(self).halted == old(self).halted,
            final(self)@ == model::op_and(old(self)@, instr),
    {
        let value = if (instr >> 5) & 1 != 0 {
            bits::sign_extend(instr & 0x1F, 5)
        } else {
            self.registers.get(instr & 7)
        };
        let a = self.registers.get(instr >> 6);
        self.registers.set(instr >> 9, a & value);
        proof {
            assert(self@ =~= model::op_and(old(self)@, instr));
        }
    }

    fn op_not(&mut self, instr: u16)
        requires
            old(self).wf(),
        ensures
            final(self).wf(),
            final(self).halted == old(self).halted,
            final(self)@ == model::op_not(old(self)@, instr),
    {
        let a = self.registers.get(instr >> 6);
        self.registers.set(instr >> 9, !a);
        proof {
            assert(self@ =~= model::op_not(old(self)@, instr));
        }
    }

    fn op_br(&mut self, instr: u16)
        requires
            old(self).wf(),
        ensures
            final(self).wf(),
            final(self).halted == old(self).halted,
            final(self)@ == model::op_br(old(self)@, instr),
    {
        let pc_offset = bits::sign_extend(instr & 0x1FF, 9);
        let cond_flag = (instr >> 9) & 7;
        if (cond_flag & self.registers.condition) != 0 {
            self.registers.program_count = self.registers.program_count.wrapping_add(pc_offset);
        }
        proof {
            assert(self@ =~= model::op_br(old(self)@, instr));
        }
    }

    fn op_jmp(&mut self, instr: u16)
        requires
            old(self).wf(),
        ensures
            final(self).wf(),
            final(self).halted == old(self).halted,
            final(self)@ == model::op_jmp(old(self)@, instr),
    {
        self.registers.program_count = self.registers.get(instr >> 6);
        proof {
            assert(self@ =~= model::op_jmp(old(self)@, instr));
        }
    }

    fn op_jsr(&mut self, instr: u16)
        requires
            old(self).wf(),
        ensures
            final(self).wf(),
            final(self).halted == old(self).halted,
            final(self)@ == model::op_jsr(old(self)@, instr),
    {
        let pc = self.registers.program_count;
        self.registers.save_r7(pc);
        if (instr >> 11) & 1 != 0 {
            let offset = bits::sign_extend(instr & 0x7FF, 11);
            self.registers.program_count = self.registers.program_count.wrapping_add(offset);
        } else {
            self.registers.program_count = self.registers.get(instr >> 6);
        }
        proof {
            assert(self@ =~= model::op_jsr(old(self)@, instr));
        }
    }

    fn op_ld(&mut self, instr: u16)
        requires
            old(self).wf(),
        ensures
            final(self).wf(),
            final(self).halted == old(self).halted,
            final(self)@ == model::op_ld(old(self)@, instr),
    {
        let pc_offset = bits::sign_extend(instr & 0x1FF, 9);
        let address = self.registers.program_count.wrapping_add(pc_offset);
        let w = self.memory.read(address, &mut self.host);
        self.registers.set(instr >> 9, w);
        proof {
            assert(self@ =~= model::op_ld(old(self)@, instr));
        }
    }

    fn op_ldi(&mut self, instr: u16)
        requires
            old(self).wf(),
        ensures
            final(self).wf(),
            final(self).halted == old(self).halted,
            final(self)@ == model::op_ldi(old(self)@, instr),
    {
        let pc_offset = bits::sign_extend(instr & 0x1FF, 9);
        let address = self.memory.read(
            self.registers.program_count.wrapping_add(pc_offset),
            &mut self.host,
        );
        let w = self.memory.read(address, &mut self.host);
        self.registers.set(instr >> 9, w);
        proof {
            assert(self@ =~= model::op_ldi(old(self)@, instr));
        }
    }

    fn op_ldr(&mut self, instr: u16)
        requires
            old(self).wf(),
        ensures
            final(self).wf(),
            final(self).halted == old(self).halted,
            final(self)@ == model::op_ldr(old(self)@, instr),
    {
        let offset = bits::sign_extend(instr & 0x3F, 6);
        let base = self.registers.get(instr >> 6);
        let w = self.memory.read(base.wrapping_add(offset), &mut self.host);
        self.registers.set(instr >> 9, w);
        proof {
            assert(self@ =~= model::op_ldr(old(self)@, instr));
        }
    }

    fn op_lea(&mut self, instr: u16)
        requires
            old(self).wf(),
        ensures
            final(self).wf(),
            final(self).halted == old(self).halted,
            final(self)@ == model::op_lea(old(self)@, instr),
    {
        let pc_offset = bits::sign_extend(instr & 0x1FF, 9);
        let value = self.registers.program_count.wrapping_add(pc_offset);
        self.registers.set(instr >> 9, value);
        proof {
            assert(self@ =~= model::op_lea(old(self)@, instr));
        }
    }

    fn op_st(&mut self, instr: u16)
        requires
            old(self).wf(),
        ensures
            final(self).wf(),
            final(self).halted == old(self).halted,
            final(self)@ == model::op_st(old(self)@, instr),
    {
        let pc_offset = bits::sign_extend(instr & 0x1FF, 9);
        let address = self.registers.program_count.wrapping_add(pc_offset);
        let v = self.registers.get(instr >> 9);
        self.memory.write(address, v);
        proof {
            assert(self@ =~= model::op_st(old(self)@, instr));
        }
    }

    fn op_sti(&mut self, instr: u16)
        requires
            old(self).wf(),
        ensures
            final(self).wf(),
            final(self).halted == old(self).halted,
            final(self)@ == model::op_sti(old(self)@, instr),
    {
        let pc_offset = bits::sign_extend(instr & 0x1FF, 9);
        let address = self.memory.read(
            self.registers.program_count.wrapping_add(pc_offset),
            &mut self.host,
        );
        let v = self.registers.get(instr >> 9);
        self.memory.write(address, v);
        proof {
            assert(self@ =~= model::op_sti(old(self)@, instr));
        }
    }

    fn op_str(&mut self, instr: u16)
        requires
            old(self).wf(),
        ensures
            final(self).wf(),
            final(self).halted == old(self).halted,
            final(self)@ == model::op_str(old(self)@, instr),
    {
        let offset = bits::sign_extend(instr & 0x3F, 6);
        let base = self.registers.get(instr >> 6);
        let v = self.registers.get(instr >> 9);
        self.memory.write(base.wrapping_add(offset), v);
        proof {
            assert(self@ =~= model::op_str(old(self)@, instr));
        }
    }

    fn trap_getc(&mut self) -> (r: STATUS)
        requires
            old(self).wf(),
        ensures
            final(self).wf(),
            final(self).halted == old(self).halted,
            ({
                let t = model::trap_getc(old(self)@);
                final(self)@ == t.0 && r == t.1
            }),
    {
        let c = self.host.get_char();
        if c == 0 {
            self.registers.program_count = self.registers.program_count.wrapping_sub(1);
            proof {
                assert(self@ =~= model::trap_getc(old(self)@).0);
            }
            STATUS::HardInterrupt
        } else {
            let pc = self.registers.program_count;
            self.registers.save_r7(pc);
            self.registers.set(0, c as u16);
            proof {
                assert(self@ =~= model::trap_getc(old(self)@).0);
            }
            STATUS::Continue
        }
    }

    fn trap_in(&mut self) -> (r: STATUS)
        requires
            old(self).wf(),
        ensures
            final(self).wf(),
            final(self).halted == old(self).halted,
            ({
                let t = model::trap_in(old(self)@);
                final(self)@ == t.0 && r == t.1
            }),
    {
        let c = self.host.get_char();
        if c == 0 {
            self.registers.program_count = self.registers.program_count.wrapping_sub(1);
            proof {
                assert(self@ =~= model::trap_in(old(self)@).0);
            }
            STATUS::HardInterrupt
        } else {
            let pc = self.registers.program_count;
            self.registers.save_r7(pc);
            self.host.put_char(c);
            self.registers.set(0, c as u16);
            proof {
                assert(self@ =~= model::trap_in(old(self)@).0);
            }
            STATUS::Continue
        }
    }

    fn trap_puts(&mut self)
        requires
            old(self).wf(),
        ensures
            final(self).wf(),
            final(self).halted == old(self).halted,
            final(self)@ == model::trap_puts(old(self)@, model::get_reg(old(self)@, 0)),
    {
        let mut c = self.registers.get(0);
        loop
            invariant_except_break
                model::trap_puts(old(self)@, model::get_reg(old(self)@, 0)) == model::trap_puts(
                    self@,
                    c,
                ),
            invariant
                self.wf(),
                self.halted == old(self).halted,
            ensures
                self.wf(),
                self.halted == old(self).halted,
                self@ == model::trap_puts(old(self)@, model::get_reg(old(self)@, 0)),
            decreases 0x10000 - c,
        {
            let w = self.memory.read(c, &mut self.host);
            if w == 0 {
                break ;
            }
            self.host.put_char((w & 0xFF) as u8);
            if c == 0xFFFF {
                break ;
            }
            c = c + 1;
        }
    }

    fn trap_putsp(&mut self)
        requires
            old(self).wf(),
        ensures
            final(self).wf(),
            final(self).halted == old(self).halted,
            final(self)@ == model::trap_putsp(old(self)@, model::get_reg(old(self)@, 0)),
    {
        let mut c = self.registers.get(0);
        loop
            invariant_except_break
                model::trap_putsp(old(self)@, model::get_reg(old(self)@, 0)) == model::trap_putsp(
                    self@,
                    c,
                ),
            invariant
                self.wf(),
                self.halted == old(self).halted,
            ensures
                self.wf(),
                self.halted == old(self).halted,
                self@ == model::trap_putsp(old(self)@, model::get_reg(old(self)@, 0)),
            decreases 0x10000 - c,
        {
            let w = self.memory.read(c, &mut self.host);
            if w == 0 {
                break ;
            }
            self.host.put_char((w & 0xFF) as u8);
            if (w >> 8) != 0 {
                self.host.put_char(((w >> 8) & 0xFF) as u8);
            }
            if c == 0xFFFF {
                break ;
            }
            c = c + 1;
        }
    }

    fn op_trap(&mut self, instr: u16) -> (r: STATUS)
        requires
            old(self).wf(),
        ensures
            final(self).wf(),
            final(self).halted == old(self).halted,
            ({
                let t = model::op_trap(old(self)@, instr);
                final(self)@ == t.0 && r == t.1
            }),
    {
        match TRAP::from_u16(instr & 0xFF) {
            Some(TRAP::GETC) => self.trap_getc(),
            Some(TRAP::OUT) => {
                let pc = self.registers.program_count;
                self.registers.save_r7(pc);
                let r0 = self.registers.get(0);
                self.host.put_char((r0 & 0xFF) as u8);
                proof {
                    assert(self@ =~= model::op_trap(old(self)@, instr).0);
                }
                STATUS::Continue
            },
            Some(TRAP::PUTS) => {
                let pc = self.registers.program_count;
                self.registers.save_r7(pc);
                self.trap_puts();
                STATUS::Continue
            },
            Some(TRAP::IN) => self.trap_in(),
            Some(TRAP::PUTSP) => {
                let pc = self.registers.program_count;
                self.registers.save_r7(pc);
                self.trap_putsp();
                STATUS::Continue
            },
            Some(TRAP::HALT) => {
                let pc = self.registers.program_count;
                self.registers.save_r7(pc);
                STATUS::Halted
            },
            None => {
                let pc = self.registers.program_count;
                self.registers.save_r7(pc);
                STATUS::Halted
            },
        }
    }

    fn exec_op(&mut self, op: OP, instr: u16) -> (r: STATUS)
        requires
            old(self).wf(),
        ensures
            final(self).wf(),
            final(self).halted == old(self).halted,
            ({
                let t = model::exec_model(old(self)@, op, instr);
                final(self)@ == t.0 && r == t.1
            }),
    {
        match op {
            OP::BR => {
                self.op_br(instr);
                STATUS::Continue
            },
            OP::ADD => {
                self.op_add(instr);
                STATUS::Continue
            },
            OP::LD => {
                self.op_ld(instr);
                STATUS::Continue
            },
            OP::ST => {
                self.op_st(instr);
                STATUS::Continue
            },
            OP::JSR => {
                self.op_jsr(instr);
                STATUS::Continue
            },
            OP::AND => {
                self.op_and(instr);
                STATUS::Continue
            },
            OP::LDR => {
                self.op_ldr(instr);
                STATUS::Continue
            },
            OP::STR => {
                self.op_str(instr);
                STATUS::Continue
            },
            OP::RTI => STATUS::Halted,
            OP::NOT => {
                self.op_not(instr);
                STATUS::Continue
            },
            OP::LDI => {
                self.op_ldi(instr);
                STATUS::Continue
            },
            OP::STI => {
                self.op_sti(instr);
                STATUS::Continue
            },
            OP::JMP => {
                self.op_jmp(instr);
                STATUS::Continue
            },
            OP::RES => STATUS::Halted,
            OP::LEA => {
                self.op_lea(instr);
                STATUS::Continue
            },
            OP::TRAP => self.op_trap(instr),
        }
    }

    /// Execute one instruction: fetch at the program counter, decode,
    /// execute, and report.  The result and the new state are exactly
    /// those of the machine model's `step_model`.
    pub fn step(&mut self) -> (r: STATUS)
        requires
            old(self).wf(),
        ensures
            final(self).wf(),
            final(self).halted == old(self).halted,
            ({
                let m = model::step_model(old(self)@);
                final(self)@ == m.0 && r == m.1
            }),
    {
        let (instr, op) = self.registers.next(&mut self.memory, &mut self.host);
        let base = match op {
            Some(o) => self.exec_op(o, instr),
            None => STATUS::Halted,
        };
        let polled = self.memory.was_polled();
        let r = match base {
            STATUS::Continue => if polled {
                STATUS::SoftInterrupt
            } else {
                STATUS::Continue
            },
            _ => base,
        };
        proof {
            assert(self@ =~= model::step_model(old(self)@).0);
        }
        r
    }

    /// Load an object image into the machine's memory, point the program
    /// counter at its origin, and clear the halted latch: a freshly
    /// loaded image starts running.  A rejected image changes nothing.
    pub fn load_image(&mut self, image: &[u8]) -> (r: Result<u16, loader::ImageError>)
        requires
            old(self).wf(),
        ensures
            final(self).wf(),
            !loader::image_ok(image@) ==> final(self)@ == old(self)@ && r is Err
                && final(self).halted == old(self).halted,
            image@.len() < 2 ==> r == Result::<u16, loader::ImageError>::Err(
                loader::ImageError::MissingOrigin,
            ),
            image@.len() >= 2 && !loader::image_ok(image@) ==> r == Result::<
                u16,
                loader::ImageError,
            >::Err(loader::ImageError::TruncatedWord),
            loader::image_ok(image@) ==> {
                &&& r == Result::<u16, loader::ImageError>::Ok(loader::image_origin(image@))
                &&& !final(self).halted
                &&& final(self)@.pc == loader::image_origin(image@)
                &&& forall|i: int|
                    0 <= i < loader::image_load_count(image@) ==> final(self)@.cells[
                        loader::image_origin(image@) + i] == loader::image_word(image@, i)
                &&& forall|a: int|
                    0 <= a < crate::memory::MEMORY_SIZE && !(loader::image_origin(image@) <= a
                        < loader::image_origin(image@) + loader::image_load_count(image@))
                        ==> final(self)@.cells[a] == old(self)@.cells[a]
                &&& final(self)@.regs == old(self)@.regs
                &&& final(self)@.cond == old(self)@.cond
                &&& final(self)@.polled == old(self)@.polled
                &&& final(self)@.pending == old(self)@.pending
                &&& final(self)@.output == old(self)@.output
            },
    {
        match loader::read_image(&mut self.memory, image) {
            Ok(addr) => {
                self.registers.program_count = addr;
                self.halted = false;
                Ok(addr)
            },
            Err(e) => Err(e),
        }
    }

    /// Replace the whole machine state with a freshly loaded image: zeroed
    /// memory and registers, the program counter at the image's origin,
    /// and the halted latch cleared.  The host channel is kept.  `false`
    /// reports a rejected image, which leaves the machine untouched.
    pub fn load_wasm(&mut self, image: &[u8]) -> (r: bool)
        requires
            old(self).wf(),
        ensures
            final(self).wf(),
            r == loader::image_ok(image@),
            !r ==> final(self)@ == old(self)@ && final(self).halted == old(self).halted,
            r ==> {
                &&& !final(self).halted
                &&& final(self)@.pc == loader::image_origin(image@)
                &&& final(self)@.cond == crate::bits::FLAG_ZRO
                &&& forall|i: int| 0 <= i < 8 ==> final(self)@.regs[i] == 0
                &&& forall|i: int|
                    0 <= i < loader::image_load_count(image@) ==> final(self)@.cells[
                        loader::image_origin(image@) + i] == loader::image_word(image@, i)
                &&& forall|a: int|
                    0 <= a < crate::memory::MEMORY_SIZE && !(loader::image_origin(image@) <= a
                        < loader::image_origin(image@) + loader::image_load_count(image@))
                        ==> final(self)@.cells[a] == 0
                &&& !final(self)@.polled
                &&& final(self)@.pending == old(self)@.pending
                &&& final(self)@.output == old(self)@.output
            },
    {
        let mut new_memory = Memory::new();
        let mut new_registers = Registers::new();
        match loader::read_image(&mut new_memory, image) {
            Ok(addr) => {
                new_registers.program_count = addr;
            },
            Err(_) => {
                return false;
            },
        }
        self.memory = new_memory;
        self.registers = new_registers;
        self.halted = false;
        true
    }

    /// Run the machine for at most `max_steps` instructions, stopping
    /// early at the first step that does not report `Continue`.  The
    /// result is that step's status — `Continue` itself means the budget
    /// ran out with the machine still running — and `Halted` latches the
    /// `halted` flag.
    pub fn run(&mut self, max_steps: u64) -> (r: STATUS)
        requires
            old(self).wf(),
        ensures
            final(self).wf(),
            old(self).halted ==> final(self)@ == old(self)@ && final(self).halted && r
                == STATUS::Halted,
            !old(self).halted ==> ({
                let m = run_model(old(self)@, max_steps as nat);
                final(self)@ == m.0 && r == m.1 && (final(self).halted <==> m.1
                    == STATUS::Halted)
            }),
    {
        if self.halted {
            return STATUS::Halted;
        }
        let mut fuel: u64 = max_steps;
        let mut result: STATUS = STATUS::Continue;
        while fuel > 0
            invariant_except_break
                self.wf(),
                self.halted == old(self).halted,
                !self.halted,
                result == STATUS::Continue,
                run_model(old(self)@, max_steps as nat) == run_model(self@, fuel as nat),
            ensures
                self.wf(),
                self.halted == old(self).halted,
                ({
                    let m = run_model(old(self)@, max_steps as nat);
                    self@ == m.0 && result == m.1
                }),
            decreases fuel,
        {
            let st = self.step();
            fuel = fuel - 1;
            match st {
                STATUS::Continue => {},
                _ => {
                    result = st;
                    break ;
                },
            }
        }
        if matches!(result, STATUS::Halted) {
            self.halted = true;
        }
        result
    }

    /// Run until the machine halts, suspends, or exhausts `max_steps`.
    /// `true` asks the driver to poll for input and call again — a soft
    /// interrupt or an exhausted budget; `false` means the machine halted
    /// or blocked on input (a hard interrupt).
    pub fn run_wasm(&mut self, max_steps: u64) -> (r: bool)
        requires
            old(self).wf(),
        ensures
            final(self).wf(),
            old(self).halted ==> final(self)@ == old(self)@ && !r && final(self).halted,
            !old(self).halted ==> ({
                let m = run_model(old(self)@, max_steps as nat);
                final(self)@ == m.0 && (r <==> (m.1 == STATUS::SoftInterrupt || m.1
                    == STATUS::Continue)) && (final(self).halted <==> m.1 == STATUS::Halted)
            }),
    {
        let st = self.run(max_steps);
        match st {
            STATUS::SoftInterrupt => true,
            STATUS::Continue => true,
            _ => false,
        }
    }
}

} // verus!
