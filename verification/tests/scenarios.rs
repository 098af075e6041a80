//! Whole-machine scenarios: programs run from a cartridge image.
use rusty_boy::cpu::CPU;
use rusty_boy::error::{IllegalOpcode, LoadError};
use rusty_boy::gameboy::{GBMode, Gameboy};
use rusty_boy::header::{compute_checksum, Header};
use rusty_boy::keypad::{Key, KeyEvent};
use rusty_boy::registers::Flag;

/// A 32 KiB image without a controller, with `program` at the entry point
/// `0100` and a valid header checksum.
fn image(program: &[u8]) -> Vec<u8> {
    let mut rom = vec![0u8; 0x8000];
    assert!(program.len() <= 0x34);
    rom[0x100..0x100 + program.len()].copy_from_slice(program);
    rom[0x134..0x13a].copy_from_slice(b"TETRIS");
    rom[0x14d] = compute_checksum(&rom);
    rom
}

/// A machine that runs `program` from work RAM at `C000`.
fn machine(program: &[u8]) -> CPU {
    let mut cpu = CPU::new();
    for (i, byte) in program.iter().enumerate() {
        cpu.memory.write(0xc000 + i as u16, *byte);
    }
    cpu.registers.pc = 0xc000;
    cpu
}

#[test]
fn post_boot_register_state() {
    let gameboy = Gameboy::new(&image(&[])).unwrap();
    let registers = &gameboy.cpu.registers;
    assert_eq!(registers.af(), 0x01b0);
    assert_eq!(registers.bc(), 0x0013);
    assert_eq!(registers.de(), 0x00d8);
    assert_eq!(registers.hl(), 0x014d);
    assert_eq!(registers.sp, 0xfffe);
    assert_eq!(registers.pc, 0x0100);
}

#[test]
fn add_immediate_sets_half_carry() {
    let mut gameboy = Gameboy::new(&image(&[0xc6, 0x01])).unwrap();
    gameboy.cpu.registers.a = 0x0f;
    let cycles = gameboy.step();
    assert_eq!(cycles, 8);
    let registers = &gameboy.cpu.registers;
    assert_eq!(registers.a, 0x10);
    assert_eq!(registers.get_flag(Flag::Zero), false);
    assert_eq!(registers.get_flag(Flag::Sub), false);
    assert_eq!(registers.get_flag(Flag::HalfCarry), true);
    assert_eq!(registers.get_flag(Flag::Carry), false);
    assert_eq!(registers.pc, 0x0102);
}

#[test]
fn daa_after_decimal_addition() {
    let mut gameboy = Gameboy::new(&image(&[0x80, 0x27])).unwrap();
    gameboy.cpu.registers.a = 0x45;
    gameboy.cpu.registers.b = 0x38;
    assert_eq!(gameboy.step(), 4);
    assert_eq!(gameboy.cpu.registers.a, 0x7d);
    assert_eq!(gameboy.step(), 4);
    let registers = &gameboy.cpu.registers;
    assert_eq!(registers.a, 0x83);
    assert_eq!(registers.get_flag(Flag::Carry), false);
    assert_eq!(registers.get_flag(Flag::Zero), false);
    assert_eq!(registers.get_flag(Flag::Sub), false);
    assert_eq!(registers.get_flag(Flag::HalfCarry), false);
}

#[test]
fn daa_after_decimal_subtraction() {
    let mut cpu = machine(&[0x90, 0x27]);
    cpu.registers.a = 0x42;
    cpu.registers.b = 0x15;
    cpu.step();
    assert_eq!(cpu.registers.a, 0x2d);
    cpu.step();
    assert_eq!(cpu.registers.a, 0x27);
    assert_eq!(cpu.registers.get_flag(Flag::Sub), true);
    assert_eq!(cpu.registers.get_flag(Flag::Carry), false);
}

#[test]
fn daa_carries_into_the_next_digit() {
    let mut cpu = machine(&[0x80, 0x27]);
    cpu.registers.a = 0x99;
    cpu.registers.b = 0x01;
    cpu.step();
    cpu.step();
    assert_eq!(cpu.registers.a, 0x00);
    assert_eq!(cpu.registers.get_flag(Flag::Zero), true);
    assert_eq!(cpu.registers.get_flag(Flag::Carry), true);
}

#[test]
fn conditional_jump_not_taken() {
    let mut gameboy = Gameboy::new(&image(&[0x28, 0x05])).unwrap();
    gameboy.cpu.registers.set_flag(Flag::Zero, false);
    assert_eq!(gameboy.step(), 8);
    assert_eq!(gameboy.cpu.registers.pc, 0x102);
}

#[test]
fn conditional_jump_taken() {
    let mut gameboy = Gameboy::new(&image(&[0x28, 0x05])).unwrap();
    gameboy.cpu.registers.set_flag(Flag::Zero, true);
    assert_eq!(gameboy.step(), 12);
    assert_eq!(gameboy.cpu.registers.pc, 0x107);
}

#[test]
fn relative_jump_backwards() {
    let mut cpu = machine(&[0x00, 0x00, 0x18, 0xfc]);
    cpu.step();
    cpu.step();
    assert_eq!(cpu.step(), 12);
    assert_eq!(cpu.registers.pc, 0xc000);
}

#[test]
fn conditional_call_and_return_timings() {
    // CALL NZ, C010 ; at C010: RET NZ
    let mut cpu = machine(&[0xc4, 0x10, 0xc0]);
    cpu.memory.write(0xc010, 0xc0);
    cpu.registers.set_flag(Flag::Zero, false);
    assert_eq!(cpu.step(), 24);
    assert_eq!(cpu.registers.pc, 0xc010);
    assert_eq!(cpu.registers.sp, 0xfffc);
    assert_eq!(cpu.memory.read_word(0xfffc), 0xc003);
    assert_eq!(cpu.step(), 20);
    assert_eq!(cpu.registers.pc, 0xc003);
    assert_eq!(cpu.registers.sp, 0xfffe);

    let mut cpu = machine(&[0xc4, 0x10, 0xc0, 0xc0]);
    cpu.registers.set_flag(Flag::Zero, true);
    assert_eq!(cpu.step(), 12);
    assert_eq!(cpu.registers.pc, 0xc003);
    assert_eq!(cpu.step(), 8);
    assert_eq!(cpu.registers.pc, 0xc004);
}

#[test]
fn conditional_absolute_jump_timings() {
    let mut cpu = machine(&[0xda, 0x34, 0x12]);
    cpu.registers.set_flag(Flag::Carry, true);
    assert_eq!(cpu.step(), 16);
    assert_eq!(cpu.registers.pc, 0x1234);
    let mut cpu = machine(&[0xda, 0x34, 0x12]);
    cpu.registers.set_flag(Flag::Carry, false);
    assert_eq!(cpu.step(), 12);
    assert_eq!(cpu.registers.pc, 0xc003);
}

#[test]
fn interrupt_dispatch() {
    let mut cpu = CPU::new();
    cpu.ime = true;
    cpu.memory.interrupt_enable = 0x01;
    cpu.memory.interrupt_flags = 0x01;
    cpu.registers.pc = 0x200;
    cpu.registers.sp = 0xfffe;
    let cycles = cpu.step();
    assert_eq!(cycles, 20);
    assert_eq!(cpu.registers.sp, 0xfffc);
    assert_eq!(cpu.memory.read(0xfffc), 0x00);
    assert_eq!(cpu.memory.read(0xfffd), 0x02);
    assert_eq!(cpu.registers.pc, 0x40);
    assert_eq!(cpu.ime, false);
    assert_eq!(cpu.memory.interrupt_flags & 0x01, 0);
}

#[test]
fn interrupt_priority_is_the_lowest_bit() {
    let mut cpu = CPU::new();
    cpu.ime = true;
    cpu.memory.interrupt_enable = 0x1f;
    cpu.memory.interrupt_flags = 0x14;
    cpu.step();
    assert_eq!(cpu.registers.pc, 0x50);
    assert_eq!(cpu.memory.interrupt_flags & 0x1f, 0x10);
    cpu.ime = true;
    cpu.step();
    assert_eq!(cpu.registers.pc, 0x60);
    assert_eq!(cpu.memory.interrupt_flags & 0x1f, 0x00);
}

#[test]
fn masked_interrupt_is_not_taken() {
    let mut cpu = machine(&[0x00]);
    cpu.ime = true;
    cpu.memory.interrupt_enable = 0x02;
    cpu.memory.interrupt_flags = 0x01;
    assert_eq!(cpu.step(), 4);
    assert_eq!(cpu.registers.pc, 0xc001);
}

#[test]
fn push_then_pop_is_identity() {
    // PUSH BC ; POP BC ; PUSH AF ; POP AF
    let mut cpu = machine(&[0xc5, 0xc1, 0xf5, 0xf1]);
    cpu.registers.set_bc(0xbeef);
    cpu.registers.set_af(0x12f0);
    assert_eq!(cpu.step(), 16);
    assert_eq!(cpu.registers.sp, 0xfffc);
    assert_eq!(cpu.step(), 12);
    assert_eq!(cpu.registers.bc(), 0xbeef);
    assert_eq!(cpu.registers.sp, 0xfffe);
    cpu.step();
    cpu.step();
    assert_eq!(cpu.registers.af(), 0x12f0);
    assert_eq!(cpu.registers.sp, 0xfffe);
}

#[test]
fn pop_af_masks_the_low_nibble_of_f() {
    // LD BC, 12FF ; PUSH BC ; POP AF
    let mut cpu = machine(&[0x01, 0xff, 0x12, 0xc5, 0xf1]);
    cpu.step();
    cpu.step();
    cpu.step();
    assert_eq!(cpu.registers.a, 0x12);
    assert_eq!(cpu.registers.f, 0xf0);
    assert_eq!(cpu.registers.af(), 0x12f0);
}

#[test]
fn xor_a_clears_the_accumulator() {
    let mut cpu = machine(&[0xaf]);
    cpu.registers.a = 0x5a;
    assert_eq!(cpu.step(), 4);
    assert_eq!(cpu.registers.a, 0);
    assert_eq!(cpu.registers.get_flag(Flag::Zero), true);
    assert_eq!(cpu.registers.get_flag(Flag::Sub), false);
    assert_eq!(cpu.registers.get_flag(Flag::HalfCarry), false);
    assert_eq!(cpu.registers.get_flag(Flag::Carry), false);
}

#[test]
fn cpl_twice_is_identity() {
    let mut cpu = machine(&[0x2f, 0x2f]);
    cpu.registers.a = 0x35;
    cpu.registers.set_af(0x3590);
    cpu.step();
    assert_eq!(cpu.registers.a, 0xca);
    assert_eq!(cpu.registers.f, 0xf0);
    cpu.step();
    assert_eq!(cpu.registers.a, 0x35);
    assert_eq!(cpu.registers.f, 0xf0);
}

#[test]
fn di_ei_nop_leaves_ime_set() {
    let mut cpu = machine(&[0xf3, 0xfb, 0x00]);
    cpu.ime = true;
    cpu.step();
    assert_eq!(cpu.ime, false);
    cpu.step();
    assert_eq!(cpu.ime, false);
    cpu.step();
    assert_eq!(cpu.ime, true);
}

#[test]
fn ei_then_di_leaves_ime_clear() {
    let mut cpu = machine(&[0xfb, 0xf3, 0x00]);
    cpu.step();
    cpu.step();
    cpu.step();
    assert_eq!(cpu.ime, false);
}

#[test]
fn interrupt_waits_for_the_instruction_after_ei() {
    // EI ; INC B ; INC B, with VBlank pending all along.
    let mut cpu = machine(&[0xfb, 0x04, 0x04]);
    cpu.memory.interrupt_enable = 0x01;
    cpu.memory.interrupt_flags = 0x01;
    cpu.registers.b = 0;
    cpu.step();
    cpu.step();
    assert_eq!(cpu.registers.b, 1);
    assert_eq!(cpu.step(), 20);
    assert_eq!(cpu.registers.pc, 0x40);
    assert_eq!(cpu.registers.b, 1);
    assert_eq!(cpu.memory.read_word(cpu.registers.sp), 0xc002);
}

#[test]
fn reti_sets_ime_at_once() {
    let mut cpu = machine(&[0xd9]);
    cpu.registers.sp = 0xfffc;
    cpu.memory.write_word(0xfffc, 0xc123);
    assert_eq!(cpu.step(), 16);
    assert_eq!(cpu.registers.pc, 0xc123);
    assert_eq!(cpu.ime, true);
}

#[test]
fn halt_waits_for_an_interrupt() {
    let mut cpu = machine(&[0x76, 0x04]);
    cpu.ime = false;
    cpu.memory.interrupt_enable = 0x04;
    cpu.step();
    assert_eq!(cpu.halted, true);
    assert_eq!(cpu.step(), 4);
    assert_eq!(cpu.step(), 4);
    assert_eq!(cpu.registers.pc, 0xc001);
    cpu.memory.interrupt_flags = 0x04;
    cpu.registers.b = 0;
    cpu.step();
    assert_eq!(cpu.halted, false);
    assert_eq!(cpu.registers.b, 1);
    assert_eq!(cpu.registers.pc, 0xc002);
}

#[test]
fn halt_bug_repeats_the_next_byte() {
    // HALT ; INC B, with IME clear and an interrupt pending: INC B runs twice.
    let mut cpu = machine(&[0x76, 0x04, 0x00]);
    cpu.ime = false;
    cpu.memory.interrupt_enable = 0x01;
    cpu.memory.interrupt_flags = 0x01;
    cpu.registers.b = 0;
    cpu.step();
    assert_eq!(cpu.halted, false);
    assert_eq!(cpu.halt_bug, true);
    cpu.step();
    assert_eq!(cpu.registers.b, 1);
    assert_eq!(cpu.registers.pc, 0xc001);
    cpu.step();
    assert_eq!(cpu.registers.b, 2);
    assert_eq!(cpu.registers.pc, 0xc002);
}

#[test]
fn illegal_opcode_stops_the_processor() {
    for opcode in [0xd3u8, 0xdb, 0xdd, 0xe3, 0xe4, 0xeb, 0xec, 0xed, 0xf4, 0xfc, 0xfd] {
        let mut cpu = machine(&[0x00, opcode, 0x04]);
        cpu.step();
        assert_eq!(cpu.fault, None);
        cpu.step();
        assert_eq!(cpu.fault, Some(IllegalOpcode { opcode, pc: 0xc001 }));
        assert_eq!(cpu.registers.pc, 0xc001);
        let b = cpu.registers.b;
        assert_eq!(cpu.step(), 4);
        assert_eq!(cpu.registers.pc, 0xc001);
        assert_eq!(cpu.registers.b, b);
    }
}

#[test]
fn processor_writes_words_low_byte_first() {
    let mut cpu = CPU::new();
    cpu.write_word(0xc010, 0xbeef);
    assert_eq!(cpu.read_byte(0xc010), 0xef);
    assert_eq!(cpu.read_byte(0xc011), 0xbe);
    cpu.registers.pc = 0xc010;
    assert_eq!(cpu.read_word(), 0xbeef);
}

#[test]
fn reset_restores_the_registers() {
    let mut cpu = machine(&[0xd3]);
    cpu.step();
    cpu.registers.a = 0x77;
    cpu.reset();
    assert_eq!(cpu.fault, None);
    assert_eq!(cpu.registers.af(), 0x01b0);
    assert_eq!(cpu.registers.pc, 0x0100);
    assert_eq!(cpu.memory.read(0xc000), 0xd3);
}

#[test]
fn stop_resets_the_divider() {
    let mut cpu = machine(&[0x00, 0x00, 0x10, 0x00]);
    for _ in 0..200 {
        cpu.memory.step(4);
    }
    assert!(cpu.memory.read(0xff04) != 0);
    cpu.registers.pc = 0xc002;
    cpu.step();
    assert_eq!(cpu.registers.pc, 0xc004);
    assert_eq!(cpu.memory.read(0xff04), 0);
}

#[test]
fn loads_through_hl_move_hl() {
    // LD (HL+), A ; LD (HL-), A ; LD A, (HL+)
    let mut cpu = machine(&[0x22, 0x32, 0x2a]);
    cpu.registers.set_hl(0xc100);
    cpu.registers.a = 0x42;
    assert_eq!(cpu.step(), 8);
    assert_eq!(cpu.memory.read(0xc100), 0x42);
    assert_eq!(cpu.registers.hl(), 0xc101);
    cpu.registers.a = 0x43;
    cpu.step();
    assert_eq!(cpu.memory.read(0xc101), 0x43);
    assert_eq!(cpu.registers.hl(), 0xc100);
    cpu.step();
    assert_eq!(cpu.registers.a, 0x42);
    assert_eq!(cpu.registers.hl(), 0xc101);
}

#[test]
fn high_page_loads() {
    // LDH (80), A ; LD C, 81 ; LD (C), A ; LDH A, (81) ; LD A, (C)
    let mut cpu = machine(&[0xe0, 0x80, 0x0e, 0x81, 0xe2, 0xf0, 0x80, 0xf2]);
    cpu.registers.a = 0x99;
    assert_eq!(cpu.step(), 12);
    assert_eq!(cpu.memory.read(0xff80), 0x99);
    cpu.step();
    cpu.registers.a = 0x77;
    assert_eq!(cpu.step(), 8);
    assert_eq!(cpu.memory.read(0xff81), 0x77);
    assert_eq!(cpu.step(), 12);
    assert_eq!(cpu.registers.a, 0x99);
    assert_eq!(cpu.step(), 8);
    assert_eq!(cpu.registers.a, 0x77);
}

#[test]
fn sixteen_bit_loads() {
    // LD SP, D000 ; LD (C200), SP ; LD HL, SP+FE ; LD SP, HL ; ADD SP, 02
    let mut cpu = machine(&[0x31, 0x00, 0xd0, 0x08, 0x00, 0xc2, 0xf8, 0xfe, 0xf9, 0xe8, 0x02]);
    assert_eq!(cpu.step(), 12);
    assert_eq!(cpu.registers.sp, 0xd000);
    assert_eq!(cpu.step(), 20);
    assert_eq!(cpu.memory.read_word(0xc200), 0xd000);
    assert_eq!(cpu.step(), 12);
    assert_eq!(cpu.registers.hl(), 0xcffe);
    assert_eq!(cpu.registers.get_flag(Flag::Zero), false);
    assert_eq!(cpu.registers.get_flag(Flag::HalfCarry), false);
    assert_eq!(cpu.registers.get_flag(Flag::Carry), false);
    assert_eq!(cpu.step(), 8);
    assert_eq!(cpu.registers.sp, 0xcffe);
    assert_eq!(cpu.step(), 16);
    assert_eq!(cpu.registers.sp, 0xd000);
    assert_eq!(cpu.registers.get_flag(Flag::HalfCarry), true);
    assert_eq!(cpu.registers.get_flag(Flag::Carry), true);
}

#[test]
fn adc_and_sbc_use_the_carry_in_every_flag() {
    // ADC A, 0F with carry: 0 + 0F + 1 = 10, half carry set.
    let mut cpu = machine(&[0xce, 0x0f, 0xde, 0x00]);
    cpu.registers.a = 0x00;
    cpu.registers.set_flag(Flag::Carry, true);
    assert_eq!(cpu.step(), 8);
    assert_eq!(cpu.registers.a, 0x10);
    assert_eq!(cpu.registers.get_flag(Flag::HalfCarry), true);
    assert_eq!(cpu.registers.get_flag(Flag::Carry), false);
    // SBC A, 00 with carry: 00 - 00 - 1 = FF, both borrows set.
    cpu.registers.a = 0x00;
    cpu.registers.set_flag(Flag::Carry, true);
    cpu.step();
    assert_eq!(cpu.registers.a, 0xff);
    assert_eq!(cpu.registers.get_flag(Flag::Sub), true);
    assert_eq!(cpu.registers.get_flag(Flag::HalfCarry), true);
    assert_eq!(cpu.registers.get_flag(Flag::Carry), true);
}

#[test]
fn accumulator_rotations_clear_zero() {
    // RLCA ; RLA ; RRCA ; RRA with A = 0.
    let mut cpu = machine(&[0x07, 0x17, 0x0f, 0x1f]);
    cpu.registers.a = 0;
    cpu.registers.set_flag(Flag::Carry, false);
    for _ in 0..4 {
        assert_eq!(cpu.step(), 4);
        assert_eq!(cpu.registers.a, 0);
        assert_eq!(cpu.registers.get_flag(Flag::Zero), false);
        assert_eq!(cpu.registers.get_flag(Flag::Carry), false);
    }
    let mut cpu = machine(&[0x07]);
    cpu.registers.a = 0x81;
    cpu.step();
    assert_eq!(cpu.registers.a, 0x03);
    assert_eq!(cpu.registers.get_flag(Flag::Carry), true);
}

#[test]
fn prefixed_instructions_and_their_timings() {
    // SWAP B ; BIT 7, (HL) ; SET 0, (HL) ; RES 0, (HL) ; SRL A
    let mut cpu = machine(&[0xcb, 0x30, 0xcb, 0x7e, 0xcb, 0xc6, 0xcb, 0x86, 0xcb, 0x3f]);
    cpu.registers.b = 0xa5;
    cpu.registers.set_hl(0xc100);
    cpu.memory.write(0xc100, 0x80);
    assert_eq!(cpu.step(), 8);
    assert_eq!(cpu.registers.b, 0x5a);
    assert_eq!(cpu.step(), 12);
    assert_eq!(cpu.registers.get_flag(Flag::Zero), false);
    assert_eq!(cpu.registers.get_flag(Flag::HalfCarry), true);
    assert_eq!(cpu.step(), 16);
    assert_eq!(cpu.memory.read(0xc100), 0x81);
    assert_eq!(cpu.step(), 16);
    assert_eq!(cpu.memory.read(0xc100), 0x80);
    cpu.registers.a = 0x01;
    assert_eq!(cpu.step(), 8);
    assert_eq!(cpu.registers.a, 0x00);
    assert_eq!(cpu.registers.get_flag(Flag::Zero), true);
    assert_eq!(cpu.registers.get_flag(Flag::Carry), true);
    assert_eq!(cpu.registers.pc, 0xc00a);
}

#[test]
fn rst_jumps_to_its_vector() {
    for (opcode, target) in [(0xc7u8, 0x00u16), (0xcf, 0x08), (0xd7, 0x10), (0xdf, 0x18),
        (0xe7, 0x20), (0xef, 0x28), (0xf7, 0x30), (0xff, 0x38)] {
        let mut cpu = machine(&[opcode]);
        assert_eq!(cpu.step(), 16);
        assert_eq!(cpu.registers.pc, target);
        assert_eq!(cpu.memory.read_word(cpu.registers.sp), 0xc001);
    }
}

#[test]
fn scf_ccf_and_increments() {
    // SCF ; CCF ; INC (HL) ; DEC (HL) ; INC BC ; DEC SP ; ADD HL, BC
    let mut cpu = machine(&[0x37, 0x3f, 0x34, 0x35, 0x03, 0x3b, 0x09]);
    cpu.registers.set_hl(0xc100);
    cpu.memory.write(0xc100, 0xff);
    cpu.step();
    assert_eq!(cpu.registers.get_flag(Flag::Carry), true);
    cpu.step();
    assert_eq!(cpu.registers.get_flag(Flag::Carry), false);
    assert_eq!(cpu.step(), 12);
    assert_eq!(cpu.memory.read(0xc100), 0x00);
    assert_eq!(cpu.registers.get_flag(Flag::Zero), true);
    assert_eq!(cpu.registers.get_flag(Flag::HalfCarry), true);
    assert_eq!(cpu.step(), 12);
    assert_eq!(cpu.memory.read(0xc100), 0xff);
    assert_eq!(cpu.registers.get_flag(Flag::Sub), true);
    cpu.registers.set_bc(0xffff);
    assert_eq!(cpu.step(), 8);
    assert_eq!(cpu.registers.bc(), 0x0000);
    cpu.registers.sp = 0x0000;
    assert_eq!(cpu.step(), 8);
    assert_eq!(cpu.registers.sp, 0xffff);
    cpu.registers.set_bc(0x0f00);
    cpu.registers.set_hl(0x0100);
    cpu.registers.set_flag(Flag::Zero, true);
    assert_eq!(cpu.step(), 8);
    assert_eq!(cpu.registers.hl(), 0x1000);
    assert_eq!(cpu.registers.get_flag(Flag::Zero), true);
    assert_eq!(cpu.registers.get_flag(Flag::HalfCarry), true);
    assert_eq!(cpu.registers.get_flag(Flag::Carry), false);
}

#[test]
fn low_nibble_of_f_stays_clear() {
    let program: Vec<u8> = vec![0x80, 0x90, 0xa0, 0xb0, 0xa8, 0xb8, 0x27, 0x2f, 0x37, 0x3f, 0x04,
        0x05, 0x09, 0x07, 0x17, 0xcb, 0x10, 0xcb, 0x40, 0xf5, 0xf1];
    let mut cpu = machine(&program);
    cpu.registers.a = 0x9c;
    cpu.registers.b = 0x7f;
    for _ in 0..19 {
        cpu.step();
        assert_eq!(cpu.registers.f & 0x0f, 0);
    }
}

#[test]
fn frame_runs_70224_cycles() {
    // JR -2: a loop of 12 cycles.
    let mut gameboy = Gameboy::new(&image(&[0x18, 0xfe])).unwrap();
    let cycles = gameboy.update();
    assert_eq!(cycles, 70224);
    assert_eq!(gameboy.cpu.registers.pc, 0x100);
    // The display has run through exactly one frame and requested VBlank.
    assert_eq!(gameboy.cpu.memory.read(0xff44), 0);
    assert_eq!(gameboy.cpu.memory.interrupt_flags & 0x01, 0x01);
    let screen = gameboy.step_frame();
    assert_eq!(screen.len(), 160 * 144);
    assert!(screen.iter().all(|shade| *shade <= 3));
}

#[test]
fn frame_overshoots_by_less_than_one_step() {
    // CALL 0100 forever: steps of 24 cycles.
    let mut gameboy = Gameboy::new(&image(&[0x31, 0x00, 0xe0, 0xcd, 0x03, 0x01])).unwrap();
    let cycles = gameboy.update();
    assert!(cycles >= 70224 && cycles < 70224 + 24);
    assert_eq!(cycles, 12 + 24 * 2926);
}

#[test]
fn key_events_reach_the_joypad() {
    let mut gameboy = Gameboy::new(&image(&[0x18, 0xfe])).unwrap();
    gameboy.cpu.memory.write(0xff00, 0x20);
    gameboy.handle_key(KeyEvent::Press(Key::Left));
    assert_eq!(gameboy.cpu.memory.read(0xff00) & 0x0f, 0x0d);
    assert_eq!(gameboy.cpu.memory.keypad.interrupt, 0x10);
    gameboy.step();
    assert_eq!(gameboy.cpu.memory.interrupt_flags & 0x10, 0x10);
    gameboy.handle_key(KeyEvent::Release(Key::Left));
    assert_eq!(gameboy.cpu.memory.read(0xff00) & 0x0f, 0x0f);
}

#[test]
fn header_fields() {
    let mut rom = image(&[]);
    rom[0x143] = 0x80;
    rom[0x147] = 0x00;
    rom[0x14e] = 0x12;
    rom[0x14f] = 0x34;
    let header = Header::load_rom(&rom).unwrap();
    assert_eq!(header.title(), "TETRIS");
    assert_eq!(header.manufacturer_code(), "");
    assert_eq!(header.cgb_flag(), 0x80);
    assert_eq!(header.cartridge_type(), 0x00);
    assert_eq!(header.global_checksum, 0x1234);
    let gameboy = Gameboy::new(&rom).unwrap();
    assert_eq!(gameboy.header().title(), "TETRIS");
    assert_eq!(gameboy.mode(), GBMode::CGB);
}

#[test]
fn header_title_without_padding() {
    let mut rom = image(&[]);
    rom[0x134..0x144].copy_from_slice(b"ABCDEFGHIJKLMNOP");
    rom[0x144] = b'0';
    rom[0x145] = b'1';
    let header = Header::load_rom(&rom).unwrap();
    assert_eq!(header.title(), "ABCDEFGHIJKLMNOP");
    assert_eq!(header.manufacturer_code(), "LMNO");
    assert_eq!(header.cgb_flag(), b'P');
    assert_eq!(header.new_licensee_code, 0x3031);
    assert_eq!(header.entry_point, rom[0x100..0x104]);
    assert_eq!(header.nintendo_logo.len(), 48);
}

#[test]
fn header_checksum_formula() {
    let rom = vec![0u8; 0x8000];
    // Twenty-five bytes of zero: 0 - 25 * 1 modulo 256.
    assert_eq!(compute_checksum(&rom), 0xe7);
    let rom = image(&[]);
    let sum: u32 = b"TETRIS".iter().map(|b| *b as u32).sum();
    assert_eq!(compute_checksum(&rom) as u32, (0x10000 - 25 - sum) % 256);
    let header = Header::load_rom(&rom).unwrap();
    assert!(header.is_valid(&rom));
    let mut bad = rom.clone();
    bad[0x14d] ^= 0xff;
    let header = Header::load_rom(&bad).unwrap();
    assert!(!header.is_valid(&bad));
}

#[test]
fn load_errors() {
    assert_eq!(Gameboy::new(&vec![0u8; 0x14f]).err(), Some(LoadError::InvalidRomSize));
    assert_eq!(Header::load_rom(&vec![0u8; 0x14f]).err(), Some(LoadError::InvalidRomSize));
    // Declared as 64 KiB, but 32 KiB long.
    let mut rom = image(&[]);
    rom[0x148] = 0x01;
    assert_eq!(Gameboy::new(&rom).err(), Some(LoadError::InvalidRomSize));
    // An unknown ROM-size code.
    let mut rom = image(&[]);
    rom[0x148] = 0x09;
    assert_eq!(Gameboy::new(&rom).err(), Some(LoadError::InvalidRomSize));
    // An unknown RAM-size code.
    let mut rom = image(&[]);
    rom[0x149] = 0x06;
    assert_eq!(Gameboy::new(&rom).err(), Some(LoadError::InvalidRomSize));
    // A controller that is not implemented.
    let mut rom = image(&[]);
    rom[0x147] = 0xfc;
    assert_eq!(Gameboy::new(&rom).err(), Some(LoadError::UnsupportedMbc));
    // A bad checksum is an error only on request.
    let mut rom = image(&[]);
    rom[0x14d] ^= 0x01;
    assert!(Gameboy::new(&rom).is_ok());
    assert!(Gameboy::load(&rom, false).is_ok());
    assert_eq!(Gameboy::load(&rom, true).err(), Some(LoadError::BadHeaderChecksum));
    assert!(Gameboy::load(&image(&[]), true).is_ok());
}

/// An image with the header of the cartridge that the two tests below
/// name: title `TETRIS`, no controller, 32 KiB, no RAM.
fn tetris_header_image() -> Vec<u8> {
    let mut rom = vec![0u8; 0x8000];
    rom[0x100..0x104].copy_from_slice(&[0x00, 0xc3, 0x50, 0x01]);
    rom[0x134..0x13a].copy_from_slice(b"TETRIS");
    rom[0x14b] = 0x01;
    rom[0x14d] = compute_checksum(&rom);
    rom
}

#[test]
fn header_test_header() {
    let gb = Gameboy::new(&tetris_header_image()).unwrap();

    let header = gb.header();

    assert_eq!(header.title(), "TETRIS");
    assert_eq!(header.manufacturer_code(), "");
    assert_eq!(header.cgb_flag(), 0x00);
}

#[test]
fn test_init_test_header() {
    let gb = Gameboy::new(&tetris_header_image()).unwrap();

    let header = gb.header();

    assert_eq!(header.title(), "TETRIS");
    assert_eq!(header.manufacturer_code(), "");
    assert_eq!(header.cgb_flag(), 0x00);
}
