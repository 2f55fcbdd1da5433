//! The mathematical model of the machine and of one execution step.
//!
//! `VmModel` is the whole observable state: registers, memory, the
//! keyboard-polled flag and the host channel.  `step_model` is the
//! transition the executable `VM::step` is proved to implement, one spec
//! function per opcode and trap routine.

use vstd::prelude::*;
use crate::bits::{flag_for, sext, wadd, wsub};
use crate::isa::{op_of, trap_of, OP, STATUS, TRAP};
use crate::memory::{KEYBOARD_DATA, KEYBOARD_STATUS, MEMORY_SIZE};

verus! {

/// The observable state of the machine: the register file, the memory,
/// the keyboard-polled flag and the host channel.
#[verifier::ext_equal]
pub ghost struct VmModel {
    /// The eight general-purpose registers `R0..R7`.
    pub regs: Seq<u16>,
    /// The program counter.
    pub pc: u16,
    /// The condition-code register.
    pub cond: u16,
    /// The word stored at each of the 65 536 addresses.
    pub cells: Seq<u16>,
    /// Whether the keyboard status register was read this step.
    pub polled: bool,
    /// The host's pending input character; `0` means none.
    pub pending: u8,
    /// Every byte written to the host, oldest first.
    pub output: Seq<u8>,
}

/// A state with all registers in place and a word for every address.
pub open spec fn wf_model(s: VmModel) -> bool {
    &&& s.regs.len() == 8
    &&& s.cells.len() == MEMORY_SIZE
    &&& (s.cond == 1 || s.cond == 2 || s.cond == 4)
}

/// The register selected by the low three bits of `r`.
pub open spec fn get_reg(s: VmModel, r: u16) -> u16 {
    s.regs[(r & 7) as int]
}

/// Write `value` to the register selected by `r` and set the condition
/// register to the flag of the written value.
pub open spec fn set_reg(s: VmModel, r: u16, value: u16) -> VmModel {
    VmModel { regs: s.regs.update((r & 7) as int, value), cond: flag_for(value), ..s }
}

/// Read the word at `addr`: the poll of the keyboard status register and
/// its effect on the two keyboard registers, the polled flag, and the
/// value that comes back.
pub open spec fn mem_read(s: VmModel, addr: u16) -> (VmModel, u16) {
    if addr == KEYBOARD_STATUS {
        let s1 = if s.pending != 0 {
            VmModel {
                cells: s.cells.update(KEYBOARD_STATUS as int, 0x8000).update(
                    KEYBOARD_DATA as int,
                    s.pending as u16,
                ),
                polled: true,
                pending: 0,
                ..s
            }
        } else {
            VmModel { cells: s.cells.update(KEYBOARD_STATUS as int, 0), polled: true, ..s }
        };
        (s1, s1.cells[addr as int])
    } else {
        (s, s.cells[addr as int])
    }
}

/// Store `val` at `addr`; writes have no memory-mapped side effect.
pub open spec fn mem_write(s: VmModel, addr: u16, val: u16) -> VmModel {
    VmModel { cells: s.cells.update(addr as int, val), ..s }
}

/// Append one byte to the host output.
pub open spec fn put_byte(s: VmModel, b: u8) -> VmModel {
    VmModel { output: s.output.push(b), ..s }
}

/// Fetch: read the word at the program counter and advance the counter by
/// one, modulo 2^16.
pub open spec fn fetch(s: VmModel) -> (VmModel, u16) {
    mem_read(VmModel { pc: wadd(s.pc, 1), ..s }, s.pc)
}

/// `ADD`: the destination register receives the wrapping sum of `SR1` and
/// either `SR2` or the sign-extended 5-bit immediate.
pub open spec fn op_add(s: VmModel, instr: u16) -> VmModel {
    let value = if (instr >> 5) & 1 != 0 {
        sext(instr & 0x1F, 5)
    } else {
        get_reg(s, instr & 7)
    };
    set_reg(s, instr >> 9, wadd(get_reg(s, instr >> 6), value))
}

/// `AND`: as `ADD`, with bitwise conjunction in place of the sum.
pub open spec fn op_and(s: VmModel, instr: u16) -> VmModel {
    let value = if (instr >> 5) & 1 != 0 {
        sext(instr & 0x1F, 5)
    } else {
        get_reg(s, instr & 7)
    };
    set_reg(s, instr >> 9, get_reg(s, instr >> 6) & value)
}

/// `NOT`: the destination register receives the complement of the source.
pub open spec fn op_not(s: VmModel, instr: u16) -> VmModel {
    set_reg(s, instr >> 9, !get_reg(s, instr >> 6))
}

/// `BR`: when the instruction's `nzp` mask meets the condition register,
/// the program counter moves by the sign-extended 9-bit offset.
pub open spec fn op_br(s: VmModel, instr: u16) -> VmModel {
    if ((instr >> 9) & 7) & s.cond != 0 {
        VmModel { pc: wadd(s.pc, sext(instr & 0x1FF, 9)), ..s }
    } else {
        s
    }
}

/// `JMP`: the program counter receives the base register (`RET` is `JMP
/// R7`).
pub open spec fn op_jmp(s: VmModel, instr: u16) -> VmModel {
    VmModel { pc: get_reg(s, instr >> 6), ..s }
}

/// `JSR`: `R7` receives the return address; the long form moves the
/// program counter by the sign-extended 11-bit offset, the short form
/// jumps to the base register (read after `R7` was saved).
pub open spec fn op_jsr(s: VmModel, instr: u16) -> VmModel {
    let s1 = VmModel { regs: s.regs.update(7, s.pc), ..s };
    if (instr >> 11) & 1 != 0 {
        VmModel { pc: wadd(s1.pc, sext(instr & 0x7FF, 11)), ..s1 }
    } else {
        VmModel { pc: get_reg(s1, instr >> 6), ..s1 }
    }
}

/// `LD`: load from the program counter plus the 9-bit offset.
pub open spec fn op_ld(s: VmModel, instr: u16) -> VmModel {
    let r = mem_read(s, wadd(s.pc, sext(instr & 0x1FF, 9)));
    set_reg(r.0, instr >> 9, r.1)
}

/// `LDI`: load through the word found at the program counter plus the
/// 9-bit offset.
pub open spec fn op_ldi(s: VmModel, instr: u16) -> VmModel {
    let r1 = mem_read(s, wadd(s.pc, sext(instr & 0x1FF, 9)));
    let r2 = mem_read(r1.0, r1.1);
    set_reg(r2.0, instr >> 9, r2.1)
}

/// `LDR`: load from the base register plus the 6-bit offset.
pub open spec fn op_ldr(s: VmModel, instr: u16) -> VmModel {
    let r = mem_read(s, wadd(get_reg(s, instr >> 6), sext(instr & 0x3F, 6)));
    set_reg(r.0, instr >> 9, r.1)
}

/// `LEA`: the destination register receives the program counter plus the
/// 9-bit offset; the condition codes follow the written value.
pub open spec fn op_lea(s: VmModel, instr: u16) -> VmModel {
    set_reg(s, instr >> 9, wadd(s.pc, sext(instr & 0x1FF, 9)))
}

/// `ST`: store the source register at the program counter plus the 9-bit
/// offset.
pub open spec fn op_st(s: VmModel, instr: u16) -> VmModel {
    mem_write(s, wadd(s.pc, sext(instr & 0x1FF, 9)), get_reg(s, instr >> 9))
}

/// `STI`: store through the word found at the program counter plus the
/// 9-bit offset.
pub open spec fn op_sti(s: VmModel, instr: u16) -> VmModel {
    let r = mem_read(s, wadd(s.pc, sext(instr & 0x1FF, 9)));
    mem_write(r.0, r.1, get_reg(r.0, instr >> 9))
}

/// `STR`: store the source register at the base register plus the 6-bit
/// offset.
pub open spec fn op_str(s: VmModel, instr: u16) -> VmModel {
    mem_write(s, wadd(get_reg(s, instr >> 6), sext(instr & 0x3F, 6)), get_reg(s, instr >> 9))
}

/// `GETC`: take the pending character.  None pending rolls the program
/// counter back onto the trap and suspends, with no other change — the
/// suspension is atomic, so not even the `R7` return-address save of a
/// completed trap is visible.  Otherwise `R7` records the return address
/// and `R0` receives the character.
pub open spec fn trap_getc(s: VmModel) -> (VmModel, STATUS) {
    let c = s.pending;
    if c == 0 {
        (VmModel { pc: wsub(s.pc, 1), ..s }, STATUS::HardInterrupt)
    } else {
        let s1 = VmModel { regs: s.regs.update(7, s.pc), pending: 0, ..s };
        (set_reg(s1, 0, c as u16), STATUS::Continue)
    }
}

/// `IN`: as `GETC`, and a read character is echoed to the host before it
/// lands in `R0`.
pub open spec fn trap_in(s: VmModel) -> (VmModel, STATUS) {
    let c = s.pending;
    if c == 0 {
        (VmModel { pc: wsub(s.pc, 1), ..s }, STATUS::HardInterrupt)
    } else {
        let s1 = VmModel { regs: s.regs.update(7, s.pc), pending: 0, ..s };
        (set_reg(put_byte(s1, c), 0, c as u16), STATUS::Continue)
    }
}

/// `PUTS`: walk the words from `addr`, writing the low byte of each, and
/// stop at the first zero word or at the end of the address space.
pub open spec fn trap_puts(s: VmModel, addr: u16) -> VmModel
    decreases 0x10000 - addr,
{
    let r = mem_read(s, addr);
    if r.1 == 0 {
        r.0
    } else {
        let s2 = put_byte(r.0, (r.1 & 0xFF) as u8);
        if addr == 0xFFFF {
            s2
        } else {
            trap_puts(s2, (addr + 1) as u16)
        }
    }
}

/// `PUTSP`: walk the words from `addr`, writing the low byte of each and
/// then the high byte when it is not zero, and stop at the first zero
/// word or at the end of the address space.
pub open spec fn trap_putsp(s: VmModel, addr: u16) -> VmModel
    decreases 0x10000 - addr,
{
    let r = mem_read(s, addr);
    if r.1 == 0 {
        r.0
    } else {
        let s2 = put_byte(r.0, (r.1 & 0xFF) as u8);
        let s3 = if (r.1 >> 8) != 0 {
            put_byte(s2, ((r.1 >> 8) & 0xFF) as u8)
        } else {
            s2
        };
        if addr == 0xFFFF {
            s3
        } else {
            trap_putsp(s3, (addr + 1) as u16)
        }
    }
}

/// `TRAP`: dispatch on the low eight bits, saving the return address in
/// `R7`.  The two input traps defer the save until they know they will
/// not suspend, so a suspension leaves every register untouched; the
/// other vectors, an unknown one included, save it at once.
pub open spec fn op_trap(s: VmModel, instr: u16) -> (VmModel, STATUS) {
    let s1 = VmModel { regs: s.regs.update(7, s.pc), ..s };
    match trap_of(instr & 0xFF) {
        Some(TRAP::GETC) => trap_getc(s),
        Some(TRAP::OUT) => (put_byte(s1, (get_reg(s1, 0) & 0xFF) as u8), STATUS::Continue),
        Some(TRAP::PUTS) => (trap_puts(s1, get_reg(s1, 0)), STATUS::Continue),
        Some(TRAP::IN) => trap_in(s),
        Some(TRAP::PUTSP) => (trap_putsp(s1, get_reg(s1, 0)), STATUS::Continue),
        Some(TRAP::HALT) => (s1, STATUS::Halted),
        None => (s1, STATUS::Halted),
    }
}

/// Execute one decoded instruction on the post-fetch state.  `RTI` and
/// the reserved opcode are faults and halt the machine.
pub open spec fn exec_model(s: VmModel, op: OP, instr: u16) -> (VmModel, STATUS) {
    match op {
        OP::BR => (op_br(s, instr), STATUS::Continue),
        OP::ADD => (op_add(s, instr), STATUS::Continue),
        OP::LD => (op_ld(s, instr), STATUS::Continue),
        OP::ST => (op_st(s, instr), STATUS::Continue),
        OP::JSR => (op_jsr(s, instr), STATUS::Continue),
        OP::AND => (op_and(s, instr), STATUS::Continue),
        OP::LDR => (op_ldr(s, instr), STATUS::Continue),
        OP::STR => (op_str(s, instr), STATUS::Continue),
        OP::RTI => (s, STATUS::Halted),
        OP::NOT => (op_not(s, instr), STATUS::Continue),
        OP::LDI => (op_ldi(s, instr), STATUS::Continue),
        OP::STI => (op_sti(s, instr), STATUS::Continue),
        OP::JMP => (op_jmp(s, instr), STATUS::Continue),
        OP::RES => (s, STATUS::Halted),
        OP::LEA => (op_lea(s, instr), STATUS::Continue),
        OP::TRAP => op_trap(s, instr),
    }
}

/// Reading preserves the shape of the state: register count, memory
/// size, and the one-hot condition register.
pub proof fn lemma_mem_read_preserves_wf(s: VmModel, addr: u16)
    requires
        wf_model(s),
    ensures
        wf_model(mem_read(s, addr).0),
        mem_read(s, addr).0.regs == s.regs,
        mem_read(s, addr).0.pc == s.pc,
        mem_read(s, addr).0.cond == s.cond,
        mem_read(s, addr).0.output == s.output,
{
}

/// The word-string trap walks memory and writes output; it never touches
/// the registers, and the state keeps its shape.
pub proof fn lemma_trap_puts_preserves_wf(s: VmModel, addr: u16)
    requires
        wf_model(s),
    ensures
        wf_model(trap_puts(s, addr)),
        trap_puts(s, addr).regs == s.regs,
        trap_puts(s, addr).pc == s.pc,
        trap_puts(s, addr).cond == s.cond,
    decreases 0x10000 - addr,
{
    lemma_mem_read_preserves_wf(s, addr);
    let r = mem_read(s, addr);
    if r.1 != 0 && addr != 0xFFFF {
        lemma_trap_puts_preserves_wf(put_byte(r.0, (r.1 & 0xFF) as u8), (addr + 1) as u16);
    }
}

/// The byte-string trap walks memory and writes output; it never touches
/// the registers, and the state keeps its shape.
pub proof fn lemma_trap_putsp_preserves_wf(s: VmModel, addr: u16)
    requires
        wf_model(s),
    ensures
        wf_model(trap_putsp(s, addr)),
        trap_putsp(s, addr).regs == s.regs,
        trap_putsp(s, addr).pc == s.pc,
        trap_putsp(s, addr).cond == s.cond,
    decreases 0x10000 - addr,
{
    lemma_mem_read_preserves_wf(s, addr);
    let r = mem_read(s, addr);
    if r.1 != 0 && addr != 0xFFFF {
        let s2 = put_byte(r.0, (r.1 & 0xFF) as u8);
        let s3 = if (r.1 >> 8) != 0 {
            put_byte(s2, ((r.1 >> 8) & 0xFF) as u8)
        } else {
            s2
        };
        lemma_trap_putsp_preserves_wf(s3, (addr + 1) as u16);
    }
}

/// Every step keeps the machine well formed: eight registers, a word for
/// every address, and exactly one condition flag set.  With
/// `lemma_flag_one_hot` this is the invariant that after every
/// instruction the condition register holds exactly one of `N`, `Z`, `P`.
pub proof fn lemma_step_preserves_wf(s: VmModel)
    requires
        wf_model(s),
    ensures
        wf_model(step_model(s).0),
{
    let f = fetch(s);
    lemma_mem_read_preserves_wf(VmModel { pc: wadd(s.pc, 1), ..s }, s.pc);
    match op_of(f.1 >> 12) {
        Some(op) => {
            match op {
                OP::TRAP => {
                    let s1 = VmModel { regs: f.0.regs.update(7, f.0.pc), ..f.0 };
                    match trap_of(f.1 & 0xFF) {
                        Some(TRAP::PUTS) => {
                            lemma_trap_puts_preserves_wf(s1, get_reg(s1, 0));
                        },
                        Some(TRAP::PUTSP) => {
                            lemma_trap_putsp_preserves_wf(s1, get_reg(s1, 0));
                        },
                        _ => {
                            crate::bits::lemma_mask7(0);
                        },
                    }
                },
                OP::LDI => {
                    let r1 = mem_read(f.0, wadd(f.0.pc, sext(f.1 & 0x1FF, 9)));
                    lemma_mem_read_preserves_wf(f.0, wadd(f.0.pc, sext(f.1 & 0x1FF, 9)));
                    lemma_mem_read_preserves_wf(r1.0, r1.1);
                    crate::bits::lemma_mask7(f.1 >> 9);
                },
                OP::LD => {
                    lemma_mem_read_preserves_wf(f.0, wadd(f.0.pc, sext(f.1 & 0x1FF, 9)));
                    crate::bits::lemma_mask7(f.1 >> 9);
                },
                OP::LDR => {
                    lemma_mem_read_preserves_wf(
                        f.0,
                        wadd(get_reg(f.0, f.1 >> 6), sext(f.1 & 0x3F, 6)),
                    );
                    crate::bits::lemma_mask7(f.1 >> 9);
                },
                OP::STI => {
                    lemma_mem_read_preserves_wf(f.0, wadd(f.0.pc, sext(f.1 & 0x1FF, 9)));
                },
                OP::ADD => {
                    crate::bits::lemma_mask7(f.1 >> 9);
                },
                OP::AND => {
                    crate::bits::lemma_mask7(f.1 >> 9);
                },
                OP::NOT => {
                    crate::bits::lemma_mask7(f.1 >> 9);
                },
                OP::LEA => {
                    crate::bits::lemma_mask7(f.1 >> 9);
                },
                _ => {},
            }
        },
        None => {},
    }
}

/// Writing a word and then reading the same address returns that word,
/// for every address outside the two keyboard registers.
pub proof fn lemma_write_then_read(s: VmModel, addr: u16, val: u16)
    requires
        wf_model(s),
        addr != KEYBOARD_STATUS,
        addr != KEYBOARD_DATA,
    ensures
        mem_read(mem_write(s, addr, val), addr).1 == val,
{
}

/// Fetch advances the program counter by exactly one, modulo 2^16.
pub proof fn lemma_fetch_advances_pc(s: VmModel)
    ensures
        fetch(s).0.pc == wadd(s.pc, 1),
{
}

/// Control flow lands exactly where the instruction points, and the next
/// fetch reads from there: a taken branch moves the post-fetch counter by
/// the sign-extended 9-bit offset and an untaken one leaves it alone; a
/// jump loads the base register; a subroutine call takes the 11-bit
/// offset in its long form and, in its short form, the base register as
/// it stands after `R7` received the return address.
pub proof fn lemma_control_flow_targets(s: VmModel, instr: u16)
    ensures
        ((instr >> 9) & 7) & s.cond != 0 ==> op_br(s, instr).pc == wadd(
            s.pc,
            sext(instr & 0x1FF, 9),
        ),
        ((instr >> 9) & 7) & s.cond == 0 ==> op_br(s, instr).pc == s.pc,
        op_jmp(s, instr).pc == get_reg(s, instr >> 6),
        (instr >> 11) & 1 != 0 ==> op_jsr(s, instr).pc == wadd(s.pc, sext(instr & 0x7FF, 11)),
        (instr >> 11) & 1 == 0 ==> op_jsr(s, instr).pc == get_reg(
            (VmModel { regs: s.regs.update(7, s.pc), ..s }),
            instr >> 6,
        ),
{
}

/// Register-form `ADD` is commutative: two instructions with the same
/// destination and their two source registers exchanged produce the same
/// state.
pub proof fn lemma_add_register_commutative(s: VmModel, i1: u16, i2: u16)
    requires
        wf_model(s),
        (i1 >> 5) & 1 == 0,
        (i2 >> 5) & 1 == 0,
        (i1 >> 9) & 7 == (i2 >> 9) & 7,
        (i1 >> 6) & 7 == i2 & 7,
        i1 & 7 == (i2 >> 6) & 7,
    ensures
        op_add(s, i1) == op_add(s, i2),
{
    crate::bits::lemma_mask7_idempotent(i1 >> 6);
    crate::bits::lemma_mask7_idempotent(i1 & 7);
    crate::bits::lemma_mask7_idempotent(i2 >> 6);
    crate::bits::lemma_mask7_idempotent(i2 & 7);
    crate::bits::lemma_mask7_idempotent(i1 >> 9);
    crate::bits::lemma_mask7_idempotent(i2 >> 9);
    crate::bits::lemma_wadd_commutative(get_reg(s, i1 >> 6), get_reg(s, i1 & 7));
    assert(op_add(s, i1) =~= op_add(s, i2));
}

/// `NOT R; NOT R` restores the register file, and the condition codes
/// end up reflecting the restored value.
pub proof fn lemma_not_twice(s: VmModel, instr: u16)
    requires
        wf_model(s),
        (instr >> 9) & 7 == (instr >> 6) & 7,
    ensures
        op_not(op_not(s, instr), instr) == (VmModel {
            cond: flag_for(get_reg(s, instr >> 9)),
            ..s
        }),
{
    crate::bits::lemma_mask7(instr >> 9);
    crate::bits::lemma_not_involution(get_reg(s, instr >> 9));
    assert(op_not(op_not(s, instr), instr).regs =~= s.regs);
    assert(op_not(op_not(s, instr), instr) =~= (VmModel {
        cond: flag_for(get_reg(s, instr >> 9)),
        ..s
    }));
}

/// One whole step: fetch, decode, execute, then report.  A step that
/// would otherwise continue reports a soft interrupt when it polled the
/// keyboard status register; the polled flag is taken either way.
pub open spec fn step_model(s: VmModel) -> (VmModel, STATUS) {
    let f = fetch(s);
    let r = match op_of(f.1 >> 12) {
        Some(op) => exec_model(f.0, op, f.1),
        None => (f.0, STATUS::Halted),
    };
    let status = if r.1 == STATUS::Continue && r.0.polled {
        STATUS::SoftInterrupt
    } else {
        r.1
    };
    (VmModel { polled: false, ..r.0 }, status)
}

} // verus!
