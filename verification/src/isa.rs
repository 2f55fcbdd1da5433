//! Opcodes, trap vectors and the step status of the machine.

use vstd::prelude::*;

verus! {

/// The sixteen LC-3 opcodes, selected by bits 15..12 of an instruction.
#[derive(Clone, Copy, PartialEq, Eq, Structural, Debug)]
pub enum OP {
    /// Conditional branch.
    BR,
    /// Addition, register or immediate form.
    ADD,
    /// Load, PC-relative.
    LD,
    /// Store, PC-relative.
    ST,
    /// Jump to subroutine.
    JSR,
    /// Bitwise and, register or immediate form.
    AND,
    /// Load, base register plus offset.
    LDR,
    /// Store, base register plus offset.
    STR,
    /// Return from interrupt; executing it is a fault.
    RTI,
    /// Bitwise complement.
    NOT,
    /// Load indirect.
    LDI,
    /// Store indirect.
    STI,
    /// Unconditional jump.
    JMP,
    /// Reserved; executing it is a fault.
    RES,
    /// Load effective address.
    LEA,
    /// Trap service call.
    TRAP,
}

/// The six trap service routines.
#[derive(Clone, Copy, PartialEq, Eq, Structural, Debug)]
pub enum TRAP {
    /// Read one character, no echo.
    GETC,
    /// Write one character.
    OUT,
    /// Write a word string, one character per word.
    PUTS,
    /// Read one character, echoed.
    IN,
    /// Write a byte string, two characters per word.
    PUTSP,
    /// Halt the program.
    HALT,
}

/// What a single step of the machine reports to its driver.
#[derive(Clone, Copy, PartialEq, Eq, Structural, Debug)]
pub enum STATUS {
    /// The program reached a terminal state: a halt trap or a fault.
    Halted,
    /// The step completed and the next one may follow at once.
    Continue,
    /// The step polled the keyboard status register; a host that feeds
    /// characters in asynchronously may want to inject one now.
    SoftInterrupt,
    /// A trap needed a character and none was available; the program
    /// counter points at the trap again, so execution can resume once the
    /// host has provided input.
    HardInterrupt,
}

/// The opcode selected by a 4-bit field, if any.
pub open spec fn op_of(v: u16) -> Option<OP> {
    if v == 0 {
        Some(OP::BR)
    } else if v == 1 {
        Some(OP::ADD)
    } else if v == 2 {
        Some(OP::LD)
    } else if v == 3 {
        Some(OP::ST)
    } else if v == 4 {
        Some(OP::JSR)
    } else if v == 5 {
        Some(OP::AND)
    } else if v == 6 {
        Some(OP::LDR)
    } else if v == 7 {
        Some(OP::STR)
    } else if v == 8 {
        Some(OP::RTI)
    } else if v == 9 {
        Some(OP::NOT)
    } else if v == 10 {
        Some(OP::LDI)
    } else if v == 11 {
        Some(OP::STI)
    } else if v == 12 {
        Some(OP::JMP)
    } else if v == 13 {
        Some(OP::RES)
    } else if v == 14 {
        Some(OP::LEA)
    } else if v == 15 {
        Some(OP::TRAP)
    } else {
        None
    }
}

/// The trap routine selected by an 8-bit vector, if any.
pub open spec fn trap_of(v: u16) -> Option<TRAP> {
    if v == 0x20 {
        Some(TRAP::GETC)
    } else if v == 0x21 {
        Some(TRAP::OUT)
    } else if v == 0x22 {
        Some(TRAP::PUTS)
    } else if v == 0x23 {
        Some(TRAP::IN)
    } else if v == 0x24 {
        Some(TRAP::PUTSP)
    } else if v == 0x25 {
        Some(TRAP::HALT)
    } else {
        None
    }
}

impl OP {
    /// Decode an opcode field.  Every 4-bit value names an opcode, so the
    /// result is `None` only for inputs above 15.
    pub fn from_u16(v: u16) -> (r: Option<OP>)
        ensures
            r == op_of(v),
    {
        match v {
            0 => Some(OP::BR),
            1 => Some(OP::ADD),
            2 => Some(OP::LD),
            3 => Some(OP::ST),
            4 => Some(OP::JSR),
            5 => Some(OP::AND),
            6 => Some(OP::LDR),
            7 => Some(OP::STR),
            8 => Some(OP::RTI),
            9 => Some(OP::NOT),
            10 => Some(OP::LDI),
            11 => Some(OP::STI),
            12 => Some(OP::JMP),
            13 => Some(OP::RES),
            14 => Some(OP::LEA),
            15 => Some(OP::TRAP),
            _ => None,
        }
    }
}

impl TRAP {
    /// Decode a trap vector.
    pub fn from_u16(v: u16) -> (r: Option<TRAP>)
        ensures
            r == trap_of(v),
    {
        match v {
            0x20 => Some(TRAP::GETC),
            0x21 => Some(TRAP::OUT),
            0x22 => Some(TRAP::PUTS),
            0x23 => Some(TRAP::IN),
            0x24 => Some(TRAP::PUTSP),
            0x25 => Some(TRAP::HALT),
            _ => None,
        }
    }
}

} // verus!
