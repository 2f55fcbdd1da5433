use lc3_vm::isa::STATUS;
use lc3_vm::memory::Memory;
use lc3_vm::host::Host;
use lc3_vm::VM;

#[test]
fn fresh_machine_defaults() {
    let vm = VM::new();
    assert!(!vm.halted);
    assert_eq!(vm.registers.program_count, 0x3000);
    assert_eq!(vm.registers.condition, 2);
    for r in 0..8u16 {
        assert_eq!(vm.registers.get(r), 0);
    }
    assert_eq!(vm.memory.cells[0x3000], 0);
}

#[test]
fn register_write_sets_exactly_one_flag() {
    let mut vm = VM::new();
    vm.registers.set(3, 0);
    assert_eq!(vm.registers.condition, 2);
    vm.registers.set(3, 0x7FFF);
    assert_eq!(vm.registers.condition, 1);
    vm.registers.set(3, 0x8000);
    assert_eq!(vm.registers.condition, 4);
    vm.registers.set(3, 0xFFFF);
    assert_eq!(vm.registers.condition, 4);
}

#[test]
fn memory_write_then_read_round_trips() {
    let mut memory = Memory::new();
    let mut host = Host::new();
    for &a in &[0x0000u16, 0x1234, 0x3000, 0xFDFF, 0xFE01, 0xFE04, 0xFFFF] {
        memory.write(a, 0xBEEF);
        assert_eq!(memory.read(a, &mut host), 0xBEEF);
    }
}

#[test]
fn keyboard_poll_with_pending_character() {
    let mut memory = Memory::new();
    let mut host = Host::new();
    host.provide_char(0x41);
    assert_eq!(memory.read(0xFE00, &mut host), 0x8000);
    assert!(memory.was_polled());
    assert!(!memory.was_polled());
    assert_eq!(memory.read(0xFE02, &mut host), 0x0041);
    assert!(!memory.was_polled());
}

#[test]
fn keyboard_poll_without_pending_character() {
    let mut memory = Memory::new();
    let mut host = Host::new();
    memory.write(0xFE00, 0x8000);
    assert_eq!(memory.read(0xFE00, &mut host), 0x0000);
    assert!(memory.was_polled());
}

#[test]
fn arithmetic_wraps_and_halts() {
    // ADD R0, R0, #1 then HALT, with R0 starting at 0xFFFF.
    let mut vm = VM::new();
    assert!(vm.load_wasm(&[0x30, 0x00, 0x10, 0x21, 0xF0, 0x25]));
    vm.registers.set(0, 0xFFFF);
    let st = vm.run(1000);
    assert!(st == STATUS::Halted);
    assert!(vm.halted);
    assert_eq!(vm.registers.get(0), 0x0000);
    assert_eq!(vm.registers.condition, 2);
}

#[test]
fn conditional_branch_skips_the_add() {
    // AND R0, R0, #0; BRz +3; HALT; ADD R0, R0, #1; HALT; HALT.
    // The branch offset counts from the post-fetch program counter
    // 0x3002, so the taken branch lands on the trailing HALT at 0x3005
    // and the ADD never runs.
    let mut vm = VM::new();
    assert!(vm.load_wasm(
        &[0x30, 0x00, 0x50, 0x20, 0x04, 0x03, 0xF0, 0x25, 0x10, 0x21, 0xF0, 0x25, 0xF0, 0x25]
    ));
    let st = vm.run(1000);
    assert!(st == STATUS::Halted);
    assert_eq!(vm.registers.get(0), 0x0000);
    assert_eq!(vm.registers.program_count, 0x3006);
}

#[test]
fn untaken_branch_falls_through() {
    // AND R0, R0, #0 sets Z; BRp +3 is not taken; the next word halts.
    let mut vm = VM::new();
    assert!(vm.load_wasm(&[0x30, 0x00, 0x50, 0x20, 0x02, 0x03, 0xF0, 0x25]));
    let st = vm.run(1000);
    assert!(st == STATUS::Halted);
    assert_eq!(vm.registers.program_count, 0x3003);
}

#[test]
fn ldi_loads_through_memory() {
    // LDI R1, with PC + offset = 0x3100, M[0x3100] = 0x4000, M[0x4000] = 0x00AB.
    let mut vm = VM::new();
    vm.memory.write(0x3100, 0x4000);
    vm.memory.write(0x4000, 0x00AB);
    vm.memory.write(0x3000, 0xA2FF);
    let st = vm.step();
    assert!(st == STATUS::Continue);
    assert_eq!(vm.registers.get(1), 0x00AB);
    assert_eq!(vm.registers.condition, 1);
}

#[test]
fn puts_emits_the_word_string() {
    let mut vm = VM::new();
    vm.memory.write(0x4000, 0x0048);
    vm.memory.write(0x4001, 0x0069);
    vm.memory.write(0x4002, 0x0000);
    vm.registers.set(0, 0x4000);
    vm.memory.write(0x3000, 0xF022);
    let st = vm.step();
    assert!(st == STATUS::Continue);
    assert_eq!(vm.host.take_output(), vec![0x48, 0x69]);
    assert_eq!(vm.host.take_output(), Vec::<u8>::new());
}

#[test]
fn putsp_emits_two_bytes_per_word() {
    // "Hi": low byte first, then the nonzero high byte.
    let mut vm = VM::new();
    vm.memory.write(0x4000, 0x6948);
    vm.memory.write(0x4001, 0x0021);
    vm.memory.write(0x4002, 0x0000);
    vm.registers.set(0, 0x4000);
    vm.memory.write(0x3000, 0xF024);
    let st = vm.step();
    assert!(st == STATUS::Continue);
    assert_eq!(vm.host.take_output(), vec![0x48, 0x69, 0x21]);
}

#[test]
fn out_writes_the_low_byte_of_r0() {
    let mut vm = VM::new();
    vm.registers.set(0, 0x1241);
    vm.memory.write(0x3000, 0xF021);
    let st = vm.step();
    assert!(st == STATUS::Continue);
    assert_eq!(vm.host.take_output(), vec![0x41]);
}

#[test]
fn getc_suspends_and_resumes() {
    let mut vm = VM::new();
    vm.registers.set(7, 0x1234);
    vm.memory.write(0x3000, 0xF020);
    let st = vm.step();
    assert!(st == STATUS::HardInterrupt);
    assert_eq!(vm.registers.program_count, 0x3000);
    assert_eq!(vm.registers.get(0), 0x0000);
    // Suspension is atomic: not even the return-address save is visible.
    assert_eq!(vm.registers.get(7), 0x1234);
    vm.host.provide_char(0x41);
    let st = vm.step();
    assert!(st == STATUS::Continue);
    assert_eq!(vm.registers.get(0), 0x0041);
    assert_eq!(vm.registers.condition, 1);
    assert_eq!(vm.registers.program_count, 0x3001);
    // The completed trap saved its return address.
    assert_eq!(vm.registers.get(7), 0x3001);
}

#[test]
fn trap_in_echoes_the_character() {
    let mut vm = VM::new();
    vm.memory.write(0x3000, 0xF023);
    vm.host.provide_char(0x42);
    let st = vm.step();
    assert!(st == STATUS::Continue);
    assert_eq!(vm.registers.get(0), 0x0042);
    assert_eq!(vm.host.take_output(), vec![0x42]);
}

#[test]
fn unknown_trap_halts() {
    let mut vm = VM::new();
    vm.memory.write(0x3000, 0xF0FF);
    let st = vm.step();
    assert!(st == STATUS::Halted);
}

#[test]
fn reserved_opcodes_halt() {
    let mut vm = VM::new();
    vm.memory.write(0x3000, 0x8000);
    assert!(vm.step() == STATUS::Halted);
    let mut vm = VM::new();
    vm.memory.write(0x3000, 0xD000);
    assert!(vm.step() == STATUS::Halted);
}

#[test]
fn trap_saves_return_address_in_r7() {
    let mut vm = VM::new();
    vm.memory.write(0x3000, 0xF0FF);
    vm.step();
    assert_eq!(vm.registers.get(7), 0x3001);
}

#[test]
fn not_twice_restores_the_register() {
    let mut vm = VM::new();
    vm.registers.set(1, 0x1234);
    // NOT R1, R1 twice.
    vm.memory.write(0x3000, 0x927F);
    vm.memory.write(0x3001, 0x927F);
    vm.step();
    assert_eq!(vm.registers.get(1), 0xEDCB);
    assert_eq!(vm.registers.condition, 4);
    vm.step();
    assert_eq!(vm.registers.get(1), 0x1234);
    assert_eq!(vm.registers.condition, 1);
}

#[test]
fn add_register_form_is_commutative() {
    let mut vm = VM::new();
    vm.registers.set(0, 0x9000);
    vm.registers.set(1, 0x8005);
    // ADD R2, R0, R1.
    vm.memory.write(0x3000, 0x1401);
    vm.step();
    let first = vm.registers.get(2);
    let mut vm = VM::new();
    vm.registers.set(0, 0x9000);
    vm.registers.set(1, 0x8005);
    // ADD R2, R1, R0.
    vm.memory.write(0x3000, 0x1440);
    vm.step();
    assert_eq!(vm.registers.get(2), first);
    assert_eq!(first, 0x1005);
}

#[test]
fn jsr_saves_return_address_and_jumps() {
    let mut vm = VM::new();
    // JSR +0x10.
    vm.memory.write(0x3000, 0x4810);
    vm.step();
    assert_eq!(vm.registers.get(7), 0x3001);
    assert_eq!(vm.registers.program_count, 0x3011);
}

#[test]
fn jmp_moves_the_program_counter() {
    let mut vm = VM::new();
    vm.registers.set(3, 0x5000);
    // JMP R3.
    vm.memory.write(0x3000, 0xC0C0);
    vm.step();
    assert_eq!(vm.registers.program_count, 0x5000);
}

#[test]
fn store_and_load_through_registers() {
    let mut vm = VM::new();
    vm.registers.set(1, 0x4321);
    // ST R1, +5: stores at 0x3001 + 5.
    vm.memory.write(0x3000, 0x3205);
    vm.step();
    assert_eq!(vm.memory.cells[0x3006], 0x4321);
    // LD R2, +4: loads from 0x3002 + 4.
    vm.memory.write(0x3001, 0x2404);
    vm.step();
    assert_eq!(vm.registers.get(2), 0x4321);
    assert_eq!(vm.registers.condition, 1);
}

#[test]
fn lea_loads_the_address_and_updates_the_flags() {
    let mut vm = VM::new();
    // LEA R1, +2: R1 receives the post-fetch program counter plus two.
    vm.memory.write(0x3000, 0xE202);
    vm.step();
    assert_eq!(vm.registers.get(1), 0x3003);
    assert_eq!(vm.registers.condition, 1);
}

#[test]
fn sti_stores_through_memory() {
    let mut vm = VM::new();
    vm.memory.write(0x3100, 0x4000);
    vm.registers.set(1, 0x5555);
    // STI R1, with PC + offset = 0x3100.
    vm.memory.write(0x3000, 0xB2FF);
    vm.step();
    assert_eq!(vm.memory.cells[0x4000], 0x5555);
}

#[test]
fn str_stores_at_base_plus_offset() {
    let mut vm = VM::new();
    vm.registers.set(1, 0xABCD);
    vm.registers.set(2, 0x4000);
    // STR R1, R2, #3.
    vm.memory.write(0x3000, 0x7283);
    vm.step();
    assert_eq!(vm.memory.cells[0x4003], 0xABCD);
}

#[test]
fn fetch_wraps_the_program_counter() {
    let mut vm = VM::new();
    vm.registers.program_count = 0xFFFF;
    // The zero word decodes as BR with no flags: a no-op.
    let st = vm.step();
    assert!(st == STATUS::Continue);
    assert_eq!(vm.registers.program_count, 0x0000);
}

#[test]
fn polling_read_reports_a_soft_interrupt() {
    let mut vm = VM::new();
    vm.registers.set(1, 0xFE00);
    // LDR R0, R1, #0 reads the keyboard status register.
    vm.memory.write(0x3000, 0x6040);
    vm.host.provide_char(0x5A);
    let st = vm.step();
    assert!(st == STATUS::SoftInterrupt);
    assert_eq!(vm.registers.get(0), 0x8000);
    assert_eq!(vm.memory.cells[0xFE02], 0x005A);
}

#[test]
fn run_wasm_reports_polls_and_halts() {
    let mut vm = VM::new();
    // AND R0, R0, #0; HALT.
    assert!(vm.load_wasm(&[0x30, 0x00, 0x50, 0x20, 0xF0, 0x25]));
    assert!(!vm.run_wasm(1000));
    assert!(vm.halted);
    // A halted machine stays halted.
    assert!(!vm.run_wasm(1000));
    // An endless loop of no-op branches exhausts the budget instead.
    let mut vm = VM::new();
    assert!(vm.load_wasm(&[0x30, 0x00, 0x00, 0x00]));
    assert!(vm.run_wasm(10));
    assert!(!vm.halted);
}

#[test]
fn run_stops_at_a_hard_interrupt() {
    let mut vm = VM::new();
    assert!(vm.load_wasm(&[0x30, 0x00, 0xF0, 0x20]));
    let st = vm.run(1000);
    assert!(st == STATUS::HardInterrupt);
    assert!(!vm.halted);
    assert_eq!(vm.registers.program_count, 0x3000);
}

#[test]
fn load_image_keeps_registers_and_memory_outside_the_image() {
    let mut vm = VM::new();
    vm.registers.set(3, 0x7777);
    vm.memory.write(0x2000, 0x1111);
    vm.halted = true;
    let r = vm.load_image(&[0x30, 0x00, 0xAB, 0xCD]);
    assert_eq!(r, Ok(0x3000));
    // A freshly loaded image starts running again.
    assert!(!vm.halted);
    assert_eq!(vm.registers.program_count, 0x3000);
    assert_eq!(vm.registers.get(3), 0x7777);
    assert_eq!(vm.memory.cells[0x2000], 0x1111);
    assert_eq!(vm.memory.cells[0x3000], 0xABCD);
}

#[test]
fn load_wasm_resets_the_machine() {
    let mut vm = VM::new();
    vm.registers.set(3, 0x7777);
    vm.memory.write(0x2000, 0x1111);
    vm.halted = true;
    assert!(vm.load_wasm(&[0x40, 0x00, 0xAB, 0xCD]));
    assert!(!vm.halted);
    assert_eq!(vm.registers.program_count, 0x4000);
    assert_eq!(vm.registers.get(3), 0);
    assert_eq!(vm.memory.cells[0x2000], 0);
    assert_eq!(vm.memory.cells[0x4000], 0xABCD);
    // A bad image leaves everything alone.
    assert!(!vm.load_wasm(&[0x50]));
    assert_eq!(vm.registers.program_count, 0x4000);
}
