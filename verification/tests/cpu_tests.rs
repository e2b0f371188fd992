use nes_core::cpu::{AddressingModes, CPU6502, CPUFunctions, OperationCodes, FLAGS6502};
use nes_core::nes::{DataActions, NesData};

/// A console with a one-bank cartridge whose program bytes and reset
/// vector are patched in; the vector's 0xFFFC/0xFFFD live at bank offsets
/// 0x3FFC/0x3FFD under the single-bank mirror.
fn console_with(prg_patches: &[(usize, u8)]) -> NesData {
    let mut rom = vec![0x4E, 0x45, 0x53, 0x1A, 1, 0, 0, 0, 0, 0, 0, 0, 0, 0, 0, 0];
    for _ in 0..0x4000 {
        rom.push(0);
    }
    for &(off, b) in prg_patches {
        rom[16 + off] = b;
    }
    let mut nes = NesData::new();
    nes.insert_cartridge(rom).unwrap();
    nes
}

#[test]
fn lda_immediate_scenario() {
    // LDA #$05 at 0x8000, reset vector pointing there
    let mut nes = console_with(&[(0, 0xA9), (1, 0x05), (0x3FFC, 0x00), (0x3FFD, 0x80)]);
    let mut cpu = CPU6502::new();
    cpu.reset(&mut nes);
    assert_eq!(cpu.pc, 0x8000);
    assert_eq!(cpu.stkp, 0xFD);
    assert_eq!(cpu.cycles, 8);
    for _ in 0..8 {
        cpu.clock(&mut nes);
    }
    assert_eq!(cpu.cycles, 0);
    cpu.clock(&mut nes);
    assert_eq!(cpu.a, 0x05);
    assert_eq!(cpu.get_flag(FLAGS6502::Z), 0);
    assert_eq!(cpu.get_flag(FLAGS6502::N), 0);
    assert_eq!(cpu.pc, 0x8002);
    // remaining cycles latched to the entry's base of 2, then counted down
    assert_eq!(cpu.cycles, 2);
    cpu.clock(&mut nes);
    assert_eq!(cpu.cycles, 1);
    cpu.clock(&mut nes);
    assert_eq!(cpu.cycles, 0);
}

#[test]
fn asl_accumulator_scenario() {
    // ASL on the accumulator with input 0b1000_0001
    let mut nes = NesData::new();
    let mut cpu = CPU6502::new();
    cpu.a = 0b1000_0001;
    cpu.curr_opcode = 0x0A;
    cpu.IMP();
    cpu.ASL(&mut nes);
    assert_eq!(cpu.get_flag(FLAGS6502::C), 1);
    assert_eq!(cpu.a, 0b0000_0010);
    assert_eq!(cpu.get_flag(FLAGS6502::Z), 0);
    assert_eq!(cpu.get_flag(FLAGS6502::N), 0);
}

#[test]
fn brk_scenario() {
    // BRK pushes the counter high byte, low byte, then the status, and
    // loads the counter from the 0xFFFE vector
    let mut nes = console_with(&[(0x3FFE, 0xCD), (0x3FFF, 0xAB)]);
    let mut cpu = CPU6502::new();
    cpu.pc = 0x1234;
    cpu.stkp = 0xFD;
    cpu.status = 0x20;
    cpu.BRK(&mut nes);
    assert_eq!(cpu.get_flag(FLAGS6502::B), 1);
    assert_eq!(nes.cpu_read(0x01FD, true), 0x12);
    assert_eq!(nes.cpu_read(0x01FC, true), 0x34);
    assert_eq!(nes.cpu_read(0x01FB, true), 0x30);
    assert_eq!(cpu.stkp, 0xFA);
    assert_eq!(cpu.pc, 0xABCD);
}

#[test]
fn flag_roundtrip_all_flags() {
    let flags = [
        FLAGS6502::C,
        FLAGS6502::Z,
        FLAGS6502::I,
        FLAGS6502::D,
        FLAGS6502::B,
        FLAGS6502::U,
        FLAGS6502::V,
        FLAGS6502::N,
    ];
    let mut cpu = CPU6502::new();
    for f in flags {
        // independent of the other flags' prior state
        for start in [0x00u8, 0xFF, 0x55, 0xAA] {
            cpu.status = start;
            cpu.set_flag(f, true);
            assert_eq!(cpu.get_flag(f), 1);
            for g in flags {
                if g.mask() != f.mask() {
                    let before = if start & g.mask() != 0 { 1 } else { 0 };
                    assert_eq!(cpu.get_flag(g), before);
                }
            }
            cpu.status = start;
            cpu.set_flag(f, false);
            assert_eq!(cpu.get_flag(f), 0);
            for g in flags {
                if g.mask() != f.mask() {
                    let before = if start & g.mask() != 0 { 1 } else { 0 };
                    assert_eq!(cpu.get_flag(g), before);
                }
            }
        }
    }
}

#[test]
fn page_cross_bonus_cycle() {
    // LDX #$FF; LDA $8001,X -> the indexed address 0x8100 crosses the
    // page, and LDA pays for it: both indicators are 1, so the AND adds
    // one bonus cycle to the base of 4
    let mut nes = console_with(&[
        (0, 0xA2),
        (1, 0xFF),
        (2, 0xBD),
        (3, 0x01),
        (4, 0x80),
        (0x100, 0x3C),
        (0x3FFC, 0x00),
        (0x3FFD, 0x80),
    ]);
    let mut cpu = CPU6502::new();
    cpu.reset(&mut nes);
    for _ in 0..8 {
        cpu.clock(&mut nes);
    }
    cpu.clock(&mut nes);
    assert_eq!(cpu.x, 0xFF);
    assert_eq!(cpu.cycles, 2);
    cpu.clock(&mut nes);
    cpu.clock(&mut nes);
    cpu.clock(&mut nes);
    assert_eq!(cpu.a, 0x3C);
    assert_eq!(cpu.cycles, 5);
}

#[test]
fn no_bonus_cycle_without_page_cross() {
    // LDX #$01; LDA $8001,X -> 0x8002 stays on the page: base 4 cycles
    let mut nes = console_with(&[
        (0, 0xA2),
        (1, 0x01),
        (2, 0xBD),
        (3, 0x01),
        (4, 0x80),
        (0x3FFC, 0x00),
        (0x3FFD, 0x80),
    ]);
    let mut cpu = CPU6502::new();
    cpu.reset(&mut nes);
    for _ in 0..8 {
        cpu.clock(&mut nes);
    }
    cpu.clock(&mut nes);
    assert_eq!(cpu.x, 0x01);
    cpu.clock(&mut nes);
    cpu.clock(&mut nes);
    cpu.clock(&mut nes);
    assert_eq!(cpu.cycles, 4);
}

#[test]
fn adc_sets_overflow_and_negative() {
    // 0x50 + 0x50 = 0xA0: a positive sum that lands negative
    let mut nes = NesData::new();
    let mut cpu = CPU6502::new();
    nes.cpu_write(0x0010, 0x50);
    cpu.curr_opcode = 0x69;
    cpu.addr_abs = 0x0010;
    cpu.a = 0x50;
    cpu.ADC(&mut nes);
    assert_eq!(cpu.a, 0xA0);
    assert_eq!(cpu.get_flag(FLAGS6502::V), 1);
    assert_eq!(cpu.get_flag(FLAGS6502::N), 1);
    assert_eq!(cpu.get_flag(FLAGS6502::C), 0);
    assert_eq!(cpu.get_flag(FLAGS6502::Z), 0);
}

#[test]
fn adc_wraps_and_carries() {
    let mut nes = NesData::new();
    let mut cpu = CPU6502::new();
    nes.cpu_write(0x0010, 0x01);
    cpu.curr_opcode = 0x69;
    cpu.addr_abs = 0x0010;
    cpu.a = 0xFF;
    cpu.ADC(&mut nes);
    assert_eq!(cpu.a, 0x00);
    assert_eq!(cpu.get_flag(FLAGS6502::C), 1);
    assert_eq!(cpu.get_flag(FLAGS6502::Z), 1);
    assert_eq!(cpu.get_flag(FLAGS6502::V), 0);
}

#[test]
fn sbc_subtracts_with_borrow_semantics() {
    // 0x10 - 0x05 with the carry set (no pending borrow) gives 0x0B
    let mut nes = NesData::new();
    let mut cpu = CPU6502::new();
    nes.cpu_write(0x0010, 0x05);
    cpu.curr_opcode = 0xE9;
    cpu.addr_abs = 0x0010;
    cpu.a = 0x10;
    cpu.set_flag(FLAGS6502::C, true);
    cpu.SBC(&mut nes);
    assert_eq!(cpu.a, 0x0B);
    assert_eq!(cpu.get_flag(FLAGS6502::C), 1);
    assert_eq!(cpu.get_flag(FLAGS6502::Z), 0);
}

#[test]
fn cmp_flags() {
    let mut nes = NesData::new();
    let mut cpu = CPU6502::new();
    nes.cpu_write(0x0010, 0x10);
    cpu.curr_opcode = 0xC9;
    cpu.addr_abs = 0x0010;
    cpu.a = 0x20;
    cpu.CMP(&mut nes);
    assert_eq!(cpu.get_flag(FLAGS6502::C), 1);
    assert_eq!(cpu.get_flag(FLAGS6502::Z), 0);
    assert_eq!(cpu.get_flag(FLAGS6502::N), 0);
    cpu.a = 0x10;
    cpu.CMP(&mut nes);
    assert_eq!(cpu.get_flag(FLAGS6502::C), 1);
    assert_eq!(cpu.get_flag(FLAGS6502::Z), 1);
    cpu.a = 0x05;
    cpu.CMP(&mut nes);
    assert_eq!(cpu.get_flag(FLAGS6502::C), 0);
    assert_eq!(cpu.get_flag(FLAGS6502::N), 1);
}

#[test]
fn branch_adds_cycles() {
    let mut cpu = CPU6502::new();
    // taken, same page: one extra cycle
    cpu.set_flag(FLAGS6502::Z, true);
    cpu.pc = 0x8005;
    cpu.addr_rel = 0x0005;
    cpu.cycles = 2;
    cpu.BEQ();
    assert_eq!(cpu.pc, 0x800A);
    assert_eq!(cpu.cycles, 3);
    // taken, page crossed: two extra cycles
    cpu.pc = 0x80F8;
    cpu.addr_rel = 0x0010;
    cpu.cycles = 2;
    cpu.BEQ();
    assert_eq!(cpu.pc, 0x8108);
    assert_eq!(cpu.cycles, 4);
    // not taken: nothing moves
    cpu.set_flag(FLAGS6502::Z, false);
    cpu.pc = 0x8005;
    cpu.cycles = 2;
    cpu.BEQ();
    assert_eq!(cpu.pc, 0x8005);
    assert_eq!(cpu.cycles, 2);
}

#[test]
fn relative_mode_sign_extends() {
    let mut nes = NesData::new();
    let mut cpu = CPU6502::new();
    nes.cpu_write(0x0040, 0xFB);
    cpu.pc = 0x0040;
    cpu.REL(&mut nes);
    assert_eq!(cpu.addr_rel, 0xFFFB);
    // a branch by -5
    cpu.set_flag(FLAGS6502::C, true);
    cpu.pc = 0x8010;
    cpu.cycles = 2;
    cpu.BCS();
    assert_eq!(cpu.pc, 0x800B);
}

#[test]
fn stack_push_pull_roundtrip() {
    let mut nes = NesData::new();
    let mut cpu = CPU6502::new();
    cpu.stkp = 0xFD;
    cpu.a = 0x77;
    cpu.PHA(&mut nes);
    assert_eq!(cpu.stkp, 0xFC);
    assert_eq!(nes.cpu_read(0x01FD, true), 0x77);
    cpu.a = 0x00;
    cpu.PLA(&mut nes);
    assert_eq!(cpu.a, 0x77);
    assert_eq!(cpu.stkp, 0xFD);
    assert_eq!(cpu.get_flag(FLAGS6502::Z), 0);
}

#[test]
fn php_pushes_break_then_clears_it() {
    let mut nes = NesData::new();
    let mut cpu = CPU6502::new();
    cpu.stkp = 0xFD;
    cpu.status = 0x20;
    cpu.PHP(&mut nes);
    assert_eq!(nes.cpu_read(0x01FD, true), 0x30);
    assert_eq!(cpu.get_flag(FLAGS6502::B), 0);
    assert_eq!(cpu.get_flag(FLAGS6502::U), 0);
    cpu.PLP(&mut nes);
    assert_eq!(cpu.status, 0x30);
}

#[test]
fn jsr_rts_roundtrip() {
    let mut nes = NesData::new();
    let mut cpu = CPU6502::new();
    cpu.stkp = 0xFD;
    cpu.pc = 0x0205;
    cpu.addr_abs = 0x0300;
    cpu.JSR(&mut nes);
    assert_eq!(cpu.pc, 0x0300);
    assert_eq!(cpu.stkp, 0xFB);
    cpu.RTS(&mut nes);
    assert_eq!(cpu.pc, 0x0205);
    assert_eq!(cpu.stkp, 0xFD);
}

#[test]
fn inc_dec_memory() {
    let mut nes = NesData::new();
    let mut cpu = CPU6502::new();
    nes.cpu_write(0x0020, 0xFF);
    cpu.curr_opcode = 0xE6;
    cpu.addr_abs = 0x0020;
    cpu.INC(&mut nes);
    assert_eq!(nes.cpu_read(0x0020, true), 0x00);
    assert_eq!(cpu.get_flag(FLAGS6502::Z), 1);
    cpu.curr_opcode = 0xC6;
    cpu.DEC(&mut nes);
    assert_eq!(nes.cpu_read(0x0020, true), 0xFF);
    assert_eq!(cpu.get_flag(FLAGS6502::N), 1);
}

#[test]
fn rotate_through_carry() {
    let mut nes = NesData::new();
    let mut cpu = CPU6502::new();
    cpu.curr_opcode = 0x2A;
    cpu.a = 0x80;
    cpu.set_flag(FLAGS6502::C, true);
    cpu.IMP();
    cpu.ROL(&mut nes);
    assert_eq!(cpu.a, 0x01);
    assert_eq!(cpu.get_flag(FLAGS6502::C), 1);
    cpu.curr_opcode = 0x6A;
    cpu.a = 0x01;
    cpu.set_flag(FLAGS6502::C, true);
    cpu.IMP();
    cpu.ROR(&mut nes);
    assert_eq!(cpu.a, 0x80);
    assert_eq!(cpu.get_flag(FLAGS6502::C), 1);
    assert_eq!(cpu.get_flag(FLAGS6502::N), 1);
}

#[test]
fn transfers_and_register_wraparound() {
    let mut cpu = CPU6502::new();
    cpu.a = 0xA5;
    cpu.TAX();
    assert_eq!(cpu.x, 0xA5);
    assert_eq!(cpu.get_flag(FLAGS6502::N), 1);
    cpu.x = 0xFF;
    cpu.INX();
    assert_eq!(cpu.x, 0);
    assert_eq!(cpu.get_flag(FLAGS6502::Z), 1);
    cpu.x = 0;
    cpu.DEX();
    assert_eq!(cpu.x, 0xFF);
    cpu.x = 0x13;
    cpu.TXS();
    assert_eq!(cpu.stkp, 0x13);
    cpu.TSX();
    assert_eq!(cpu.x, 0x13);
}

#[test]
fn bit_reads_operand_top_bits() {
    let mut nes = NesData::new();
    let mut cpu = CPU6502::new();
    nes.cpu_write(0x0030, 0xC0);
    cpu.curr_opcode = 0x24;
    cpu.addr_abs = 0x0030;
    cpu.a = 0x0F;
    cpu.BIT(&mut nes);
    assert_eq!(cpu.get_flag(FLAGS6502::Z), 1);
    assert_eq!(cpu.get_flag(FLAGS6502::N), 1);
    assert_eq!(cpu.get_flag(FLAGS6502::V), 1);
}

#[test]
fn interrupt_respects_disable_flag() {
    let mut nes = console_with(&[(0x3FFE, 0x60), (0x3FFF, 0x80)]);
    let mut cpu = CPU6502::new();
    cpu.pc = 0x4455;
    cpu.stkp = 0xFD;
    cpu.set_flag(FLAGS6502::I, true);
    let before_pc = cpu.pc;
    cpu.interupt_req(&mut nes);
    assert_eq!(cpu.pc, before_pc);
    assert_eq!(cpu.stkp, 0xFD);
    cpu.set_flag(FLAGS6502::I, false);
    cpu.interupt_req(&mut nes);
    assert_eq!(cpu.pc, 0x8060);
    assert_eq!(cpu.stkp, 0xFA);
    assert_eq!(cpu.cycles, 7);
    assert_eq!(cpu.get_flag(FLAGS6502::I), 1);
    assert_eq!(nes.cpu_read(0x01FD, true), 0x44);
    assert_eq!(nes.cpu_read(0x01FC, true), 0x55);
}

#[test]
fn nmi_is_unconditional() {
    let mut nes = console_with(&[(0x3FFA, 0x10), (0x3FFB, 0x90)]);
    let mut cpu = CPU6502::new();
    cpu.pc = 0x1234;
    cpu.stkp = 0xFD;
    cpu.set_flag(FLAGS6502::I, true);
    cpu.non_maskable_interupt_req(&mut nes);
    assert_eq!(cpu.pc, 0x9010);
    assert_eq!(cpu.cycles, 8);
    assert_eq!(cpu.stkp, 0xFA);
    // the pushed status has Break cleared and Unused set
    assert_eq!(nes.cpu_read(0x01FB, true) & 0x30, 0x20);
}

#[test]
fn power_differs_from_reset() {
    let mut nes = console_with(&[(0x3FFC, 0x00), (0x3FFD, 0x80)]);
    let mut cpu = CPU6502::new();
    cpu.power(&mut nes);
    assert_eq!(cpu.pc, 0x8000);
    assert_eq!(cpu.stkp, 0x00);
    assert_eq!(cpu.cycles, 3);
    assert_eq!(cpu.status, 0x20);
}

#[test]
fn fetch_data_honours_addressing_mode() {
    let mut nes = NesData::new();
    let mut cpu = CPU6502::new();
    nes.cpu_write(0x0042, 0x99);
    cpu.curr_opcode = 0xA5;  // zero-page load: not implied
    cpu.addr_abs = 0x0042;
    assert_eq!(cpu.fetch_data(&mut nes), 0x99);
    cpu.curr_opcode = 0xEA;  // implied no-op: the latch stays
    cpu.fetched_data = 0x17;
    assert_eq!(cpu.fetch_data(&mut nes), 0x17);
}

#[test]
fn undefined_opcode_is_harmless() {
    // opcode 0x02 is outside the documented set: zero base cycles, no
    // state change beyond the fetch bookkeeping
    let mut nes = console_with(&[(0, 0x02), (0x3FFC, 0x00), (0x3FFD, 0x80)]);
    let mut cpu = CPU6502::new();
    cpu.reset(&mut nes);
    for _ in 0..8 {
        cpu.clock(&mut nes);
    }
    cpu.clock(&mut nes);
    assert_eq!(cpu.cycles, 0);
    assert_eq!(cpu.a, 0);
    assert_eq!(cpu.pc, 0x8001);
}

#[test]
fn jmp_indirect_page_boundary_quirk() {
    let mut nes = NesData::new();
    let mut cpu = CPU6502::new();
    // pointer 0x02FF: low byte from 0x02FF, high byte from 0x0200
    nes.cpu_write(0x0040, 0xFF);
    nes.cpu_write(0x0041, 0x02);
    nes.cpu_write(0x02FF, 0x34);
    nes.cpu_write(0x0200, 0x12);
    nes.cpu_write(0x0300, 0x56);
    cpu.pc = 0x0040;
    cpu.IND(&mut nes);
    assert_eq!(cpu.addr_abs, 0x1234);
    // an ordinary pointer reads the next cell
    nes.cpu_write(0x0050, 0xFE);
    nes.cpu_write(0x0051, 0x02);
    nes.cpu_write(0x02FE, 0x78);
    cpu.pc = 0x0050;
    cpu.IND(&mut nes);
    assert_eq!(cpu.addr_abs, 0x3478);
}
