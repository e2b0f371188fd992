//! The 6502 processor core: registers and flags, the thirteen addressing
//! mode resolvers, the operation handlers, and the cycle-stepped
//! fetch-decode-execute state machine.
use vstd::prelude::*;

use crate::instruction::{get_lookup_list, spec_instruction, AddrMode, Mnemonic, INSTRUCTION};
use crate::nes::{nes_cpu_read, nes_cpu_write, DataActions, NesData, NesView};
use crate::ppu::{spec_ppu_read, spec_ppu_write, PPU};

verus! {

/// The 6502 processor's registers and per-instruction scratch state.
pub struct CPU6502 {
    /// Accumulator: byte-wide, works with the arithmetic unit and the
    /// status register for carrying and overflow detection.
    pub a: u8,
    /// Index register X.
    pub x: u8,
    /// Index register Y.
    pub y: u8,
    /// Stack pointer: byte-wide, wraps mod 256; the stack lives in page
    /// 0x0100.
    pub stkp: u8,
    /// Program counter: 16-bit, advanced by fetch, interrupts, and the
    /// jump and branch instructions.
    pub pc: u16,
    /// Status register: the eight processor flags packed in one byte.
    pub status: u8,
    /// The operand byte fetched for the current operation.
    pub fetched_data: u8,
    /// Absolute address latch of the current operation.
    pub addr_abs: u16,
    /// Relative address latch, used by the branch instructions.
    pub addr_rel: u16,
    /// The opcode currently executing.
    pub curr_opcode: u8,
    /// Clock cycles left before the current instruction finishes. A new
    /// instruction is fetched only when this reaches 0.
    pub cycles: u8,
    /// The 256-entry instruction lookup table.
    pub lookup: Vec<INSTRUCTION>,
}

/// The eight status flags.
#[derive(Clone, Copy, PartialEq, Eq, Structural, Debug)]
pub enum FLAGS6502 {
    /// Carry.
    C,
    /// Zero.
    Z,
    /// Interrupt disable.
    I,
    /// Decimal mode.
    D,
    /// Break.
    B,
    /// Unused.
    U,
    /// Overflow.
    V,
    /// Negative.
    N,
}

/// The bit each flag occupies in the status byte.
pub open spec fn flag_mask(f: FLAGS6502) -> u8 {
    match f {
        FLAGS6502::C => 0x01,
        FLAGS6502::Z => 0x02,
        FLAGS6502::I => 0x04,
        FLAGS6502::D => 0x08,
        FLAGS6502::B => 0x10,
        FLAGS6502::U => 0x20,
        FLAGS6502::V => 0x40,
        FLAGS6502::N => 0x80,
    }
}

/// The status byte after setting or clearing one flag.
pub open spec fn spec_set_flag(s: u8, f: FLAGS6502, v: bool) -> u8 {
    if v {
        s | flag_mask(f)
    } else {
        s & !flag_mask(f)
    }
}

/// Reads one flag out of a status byte: 1 when set, 0 when clear.
pub open spec fn spec_get_flag(s: u8, f: FLAGS6502) -> u8 {
    if s & flag_mask(f) != 0 {
        1
    } else {
        0
    }
}

/// The status byte after the Zero and Negative flags are updated from a
/// result byte, in that order: Zero when the byte is 0, Negative when its
/// high bit is set.
pub open spec fn spec_zn(s: u8, val: u8) -> u8 {
    spec_set_flag(spec_set_flag(s, FLAGS6502::Z, val == 0), FLAGS6502::N, val & 0x80 != 0)
}

impl FLAGS6502 {
    /// The bit this flag occupies in the status byte.
    pub fn mask(self) -> (r: u8)
        ensures
            r == flag_mask(self),
    {
        match self {
            FLAGS6502::C => 0x01,
            FLAGS6502::Z => 0x02,
            FLAGS6502::I => 0x04,
            FLAGS6502::D => 0x08,
            FLAGS6502::B => 0x10,
            FLAGS6502::U => 0x20,
            FLAGS6502::V => 0x40,
            FLAGS6502::N => 0x80,
        }
    }
}

/// A set status bit reads back as 1, a cleared one as 0.
proof fn lemma_flag_bit_set(s: u8, m: u8)
    by (bit_vector)
    requires
        m == 1 || m == 2 || m == 4 || m == 8 || m == 16 || m == 32 || m == 64 || m == 128,
    ensures
        (s | m) & m != 0,
        (s & !m) & m == 0,
{
}

/// Setting or clearing one status bit leaves every other bit unchanged.
proof fn lemma_flag_bit_other(s: u8, m: u8, m2: u8)
    by (bit_vector)
    requires
        m == 1 || m == 2 || m == 4 || m == 8 || m == 16 || m == 32 || m == 64 || m == 128,
        m2 == 1 || m2 == 2 || m2 == 4 || m2 == 8 || m2 == 16 || m2 == 32 || m2 == 64 || m2 == 128,
        m != m2,
    ensures
        ((s | m) & m2) == (s & m2),
        ((s & !m) & m2) == (s & m2),
{
}

/// The masks of two distinct flags are distinct powers of two.
proof fn lemma_flag_mask_cases(f: FLAGS6502, g: FLAGS6502)
    ensures
        flag_mask(f) == 1 || flag_mask(f) == 2 || flag_mask(f) == 4 || flag_mask(f) == 8
            || flag_mask(f) == 16 || flag_mask(f) == 32 || flag_mask(f) == 64 || flag_mask(f)
            == 128,
        f != g ==> flag_mask(f) != flag_mask(g),
{
}

/// Flag round-trip: setting a flag and reading it back gives exactly the
/// value that was set, and the write leaves every other flag as it was —
/// the flags are independent bits, whatever the prior state of the byte.
pub proof fn lemma_flag_roundtrip(s: u8, f: FLAGS6502, g: FLAGS6502, v: bool)
    ensures
        spec_get_flag(spec_set_flag(s, f, true), f) == 1,
        spec_get_flag(spec_set_flag(s, f, false), f) == 0,
        f != g ==> spec_get_flag(spec_set_flag(s, f, v), g) == spec_get_flag(s, g),
{
    lemma_flag_mask_cases(f, g);
    lemma_flag_mask_cases(g, f);
    lemma_flag_bit_set(s, flag_mask(f));
    if f != g {
        lemma_flag_bit_other(s, flag_mask(f), flag_mask(g));
    }
}

/// The conjunction of two extra-cycle indicators is at most each of them;
/// the indicators are 0 or 1, so their AND is too.
proof fn lemma_and_bound(x: u8, y: u8)
    by (bit_vector)
    ensures
        (x & y) <= y,
        (x & y) <= x,
{
}

/// Every instruction's base cycle count is at most 7, so the cycle
/// counter never wraps while an instruction's cycles are summed.
pub proof fn lemma_cycle_bound(op: u8)
    ensures
        spec_instruction(op).cycles <= 7,
{
}

/// The 16-bit vector stored little-endian at `base`: low byte at `base`,
/// high byte right above it.
pub open spec fn spec_vector(v: NesView, base: u16) -> u16 {
    (nes_cpu_read(v, (base + 1) as u16) * 0x100 + nes_cpu_read(v, base)) as u16
}

/// The operand byte an operation works on: the already-latched byte for
/// implied addressing, the byte at the absolute address latch otherwise.
pub open spec fn spec_fetched(cpu: CPU6502, v: NesView) -> u8 {
    if spec_instruction(cpu.curr_opcode).addr_mode == AddrMode::IMP {
        cpu.fetched_data
    } else {
        nes_cpu_read(v, cpu.addr_abs)
    }
}

/// The processor and bus after an interrupt is serviced: push the program
/// counter high byte, low byte, then the status byte (Break cleared,
/// Unused set, InterruptDisable set), the stack pointer decremented mod
/// 256 after each push; then load the program counter from the vector and
/// start the latency countdown.
pub open spec fn spec_service_interrupt(cpu: CPU6502, v: NesView, vector: u16, latency: u8) -> (
    CPU6502,
    NesView,
) {
    let v1 = nes_cpu_write(v, (0x0100 + cpu.stkp) as u16, (cpu.pc / 0x100) as u8);
    let s1 = cpu.stkp.wrapping_sub(1);
    let v2 = nes_cpu_write(v1, (0x0100 + s1) as u16, (cpu.pc % 0x100) as u8);
    let s2 = s1.wrapping_sub(1);
    let st = spec_set_flag(
        spec_set_flag(spec_set_flag(cpu.status, FLAGS6502::B, false), FLAGS6502::U, true),
        FLAGS6502::I,
        true,
    );
    let v3 = nes_cpu_write(v2, (0x0100 + s2) as u16, st);
    let s3 = s2.wrapping_sub(1);
    (
        CPU6502 {
            stkp: s3,
            status: st,
            addr_abs: vector,
            pc: spec_vector(v3, vector),
            cycles: latency,
            ..cpu
        },
        v3,
    )
}

/// Applies the operation and the addressing mode an instruction entry
/// names.
pub trait CpuApplyFunctions: CPUFunctions {
    fn apply_op(&mut self, instruction: INSTRUCTION, nes: &mut NesData) -> (r: u8)
        requires
            old(self).wf(),
            old(nes).wf(),
        ensures
            final(self).wf(),
            final(nes).wf(),
    ;

    fn apply_addressing_mode(&mut self, instruction: INSTRUCTION, nes: &mut NesData) -> (r: u8)
        requires
            old(self).wf(),
            old(nes).wf(),
        ensures
            final(self).wf(),
            final(nes).wf(),
    ;
}

/// The processor's state-machine entry points: flag access, the clock
/// step, resets, interrupts, and operand fetch.
pub trait CPUFunctions {
    spec fn wf(&self) -> bool;

    fn get_flag(&mut self, f: FLAGS6502) -> (r: u8);

    fn set_flag(&mut self, f: FLAGS6502, v: bool);

    /// Clock management function: drives one master clock edge and
    /// controls the number of cycles each instruction takes.
    fn clock(&mut self, nes: &mut NesData)
        requires
            old(self).wf(),
            old(nes).wf(),
        ensures
            final(self).wf(),
            final(nes).wf(),
    ;

    fn reset(&mut self, nes: &mut NesData)
        requires
            old(self).wf(),
            old(nes).wf(),
        ensures
            final(self).wf(),
            final(nes).wf(),
    ;

    fn power(&mut self, nes: &mut NesData)
        requires
            old(self).wf(),
            old(nes).wf(),
        ensures
            final(self).wf(),
            final(nes).wf(),
    ;

    fn interupt_req(&mut self, nes: &mut NesData)
        requires
            old(self).wf(),
            old(nes).wf(),
        ensures
            final(self).wf(),
            final(nes).wf(),
    ;

    fn non_maskable_interupt_req(&mut self, nes: &mut NesData)
        requires
            old(self).wf(),
            old(nes).wf(),
        ensures
            final(self).wf(),
            final(nes).wf(),
    ;

    fn fetch_data(&mut self, nes: &mut NesData) -> (r: u8)
        requires
            old(self).wf(),
            old(nes).wf(),
        ensures
            final(self).wf(),
            final(nes).wf(),
    ;
}

/// Reads and writes a processor core may issue against the two buses.
pub trait CpuIO {
    fn read(&mut self, nes: &mut NesData, addr: u16, read_only: bool) -> (r: u8);

    fn write(&mut self, nes: &mut NesData, addr: u16, data: u8);
}

/// Static helpers routing bus traffic for the processor core.
pub trait ReadWriteFunc {
    fn cpu_read(nes: &mut NesData, addr: u16, read_only: bool) -> (r: u8)
        requires
            old(nes).wf(),
        ensures
            final(nes).wf(),
    ;

    fn cpu_write(nes: &mut NesData, addr: u16, data: u8)
        requires
            old(nes).wf(),
        ensures
            final(nes).wf(),
    ;

    fn ppu_read(ppu: &mut PPU, addr: u16, read_only: bool) -> (r: u8)
        requires
            old(ppu).wf(),
        ensures
            final(ppu).wf(),
    ;

    fn ppu_write(ppu: &mut PPU, addr: u16, data: u8)
        requires
            old(ppu).wf(),
        ensures
            final(ppu).wf(),
    ;
}

impl CPU6502 {
    /// A powered-off core: all registers zero and the lookup table built.
    pub fn new() -> (r: CPU6502)
        ensures
            r.a == 0,
            r.x == 0,
            r.y == 0,
            r.stkp == 0,
            r.pc == 0,
            r.status == 0,
            r.fetched_data == 0,
            r.addr_abs == 0,
            r.addr_rel == 0,
            r.curr_opcode == 0,
            r.cycles == 0,
            r.wf(),
    {
        CPU6502 {
            a: 0,
            x: 0,
            y: 0,
            stkp: 0,
            pc: 0,
            status: 0,
            fetched_data: 0,
            addr_abs: 0,
            addr_rel: 0,
            curr_opcode: 0,
            cycles: 0,
            lookup: get_lookup_list(),
        }
    }
}

impl ReadWriteFunc for CPU6502 {
    /// A processor-bus read; reading changes nothing.
    fn cpu_read(nes: &mut NesData, addr: u16, read_only: bool) -> (r: u8)
        ensures
            r == nes_cpu_read(old(nes)@, addr),
            *final(nes) == *old(nes),
    {
        nes.cpu_read(addr, read_only)
    }

    /// A processor-bus write, routed as the bus states.
    fn cpu_write(nes: &mut NesData, addr: u16, data: u8)
        ensures
            final(nes)@ == nes_cpu_write(old(nes)@, addr, data),
    {
        nes.cpu_write(addr, data);
    }

    /// A read of the picture unit's own storage; reading changes nothing.
    fn ppu_read(ppu: &mut PPU, addr: u16, read_only: bool) -> (r: u8)
        ensures
            r == spec_ppu_read(old(ppu)@, addr),
            *final(ppu) == *old(ppu),
    {
        ppu.read(addr, read_only)
    }

    /// A write to the picture unit's own storage.
    fn ppu_write(ppu: &mut PPU, addr: u16, data: u8)
        ensures
            final(ppu)@ == spec_ppu_write(old(ppu)@, addr, data),
    {
        ppu.write(addr, data);
    }
}

impl CPUFunctions for CPU6502 {
    /// The lookup table is exactly the fixed 256-entry instruction table.
    open spec fn wf(&self) -> bool {
        &&& self.lookup@.len() == 256
        &&& forall|i: int| 0 <= i < 256 ==> self.lookup@[i] == spec_instruction(i as u8)
    }

    /// Reads one status flag: 1 when set, 0 when clear; nothing else
    /// moves.
    fn get_flag(&mut self, f: FLAGS6502) -> (r: u8)
        ensures
            r == spec_get_flag(old(self).status, f),
            *final(self) == *old(self),
    {
        let m: u8 = f.mask();
        if self.status & m != 0 {
            1
        } else {
            0
        }
    }

    /// Sets or clears one status flag; no side effect beyond the status
    /// byte.
    fn set_flag(&mut self, f: FLAGS6502, v: bool)
        ensures
            *final(self) == (CPU6502 { status: spec_set_flag(old(self).status, f, v), ..*old(self) }),
    {
        let m: u8 = f.mask();
        if v {
            self.status = self.status | m;
        } else {
            self.status = self.status & !m;
        }
    }

    /// One master clock edge. While an instruction is executing, only the
    /// cycle countdown moves, with no bus activity. At an instruction
    /// boundary the opcode at the program counter is fetched, the program
    /// counter advanced, the table entry's base cycles latched, the
    /// addressing mode resolved and the operation applied; one bonus cycle
    /// is added exactly when the addressing mode's and the operation's
    /// extra-cycle indicators agree, by bitwise AND, and the branch
    /// operations add their own cycles on top. So for every execution
    /// trace, the cycles latched for an instruction are
    /// `base_cycles + branch_bonus + (addr_mode_extra & op_extra)`.
    fn clock(&mut self, nes: &mut NesData)
        ensures
            old(self).cycles > 0 ==> *final(self) == (CPU6502 {
                cycles: (old(self).cycles - 1) as u8,
                ..*old(self)
            }) && *final(nes) == *old(nes),
            old(self).cycles == 0 ==> ({
                let op = nes_cpu_read(old(nes)@, old(self).pc);
                let ins = spec_instruction(op);
                let cpu1 = CPU6502 {
                    curr_opcode: op,
                    status: spec_set_flag(old(self).status, FLAGS6502::U, true),
                    pc: old(self).pc.wrapping_add(1),
                    cycles: ins.cycles,
                    ..*old(self)
                };
                let cpu2 = spec_resolve(ins.addr_mode, cpu1, old(nes)@).0;
                let a_extra = spec_resolve(ins.addr_mode, cpu1, old(nes)@).1;
                let cpu3 = spec_apply_op(ins.opcode, cpu2, old(nes)@).0;
                let v3 = spec_apply_op(ins.opcode, cpu2, old(nes)@).1;
                &&& *final(self) == (CPU6502 {
                    cycles: (ins.cycles + spec_branch_bonus(ins.opcode, cpu2) + (a_extra
                        & spec_op_extra(ins.opcode, op))) as u8,
                    status: spec_set_flag(cpu3.status, FLAGS6502::U, true),
                    ..cpu3
                })
                &&& final(nes)@ == v3
                &&& final(self).cycles == ins.cycles + spec_branch_bonus(ins.opcode, cpu2) + (
                a_extra & spec_op_extra(ins.opcode, op))
                &&& spec_get_flag(final(self).status, FLAGS6502::U) == 1
            }),
    {
        if self.cycles == 0 {
            self.curr_opcode = Self::cpu_read(nes, self.pc, true);
            self.set_flag(FLAGS6502::U, true);
            self.pc = self.pc.wrapping_add(1);
            let ins: INSTRUCTION = self.lookup[self.curr_opcode as usize];
            self.cycles = ins.cycles;
            let additional_cycle_1: u8 = self.apply_addressing_mode(ins, nes);
            let additional_cycle_2: u8 = self.apply_op(ins, nes);
            proof {
                lemma_cycle_bound(self.curr_opcode);
                lemma_and_bound(additional_cycle_1, additional_cycle_2);
            }
            self.cycles = self.cycles.wrapping_add(additional_cycle_1 & additional_cycle_2);
            let ghost sb: u8 = self.status;
            self.set_flag(FLAGS6502::U, true);
            proof {
                lemma_flag_roundtrip(sb, FLAGS6502::U, FLAGS6502::U, true);
            }
        } else {
            self.cycles = self.cycles - 1;
        }
    }

    /// Reset: reload the program counter from the vector at 0xFFFC (low
    /// byte first), set the stack pointer to 0xFD and the status to the
    /// Unused flag alone, clear the scratch registers, and take 8 cycles
    /// of reset latency.
    fn reset(&mut self, nes: &mut NesData)
        ensures
            *final(nes) == *old(nes),
            *final(self) == (CPU6502 {
                a: 0,
                x: 0,
                y: 0,
                stkp: 0xFD,
                status: flag_mask(FLAGS6502::U),
                pc: spec_vector(old(nes)@, 0xFFFC),
                addr_abs: 0,
                addr_rel: 0,
                fetched_data: 0,
                cycles: 8,
                ..*old(self)
            }),
    {
        self.a = 0;
        self.x = 0;
        self.y = 0;
        self.stkp = 0xFD;
        self.status = FLAGS6502::U.mask();
        self.addr_abs = 0xFFFC;
        let lo: u16 = Self::cpu_read(nes, self.addr_abs, true) as u16;
        let hi: u16 = Self::cpu_read(nes, self.addr_abs + 1, true) as u16;
        self.pc = hi * 0x100 + lo;
        self.addr_abs = 0;
        self.addr_rel = 0;
        self.fetched_data = 0;
        self.cycles = 8;
    }

    /// Cold boot: as reset, but the stack pointer starts at 0x00 and the
    /// latency is 3 cycles.
    fn power(&mut self, nes: &mut NesData)
        ensures
            *final(nes) == *old(nes),
            *final(self) == (CPU6502 {
                a: 0,
                x: 0,
                y: 0,
                stkp: 0x00,
                status: flag_mask(FLAGS6502::U),
                pc: spec_vector(old(nes)@, 0xFFFC),
                addr_abs: 0,
                addr_rel: 0,
                fetched_data: 0,
                cycles: 3,
                ..*old(self)
            }),
    {
        self.a = 0;
        self.x = 0;
        self.y = 0;
        self.stkp = 0x00;
        self.status = FLAGS6502::U.mask();
        self.addr_abs = 0xFFFC;
        let lo: u16 = Self::cpu_read(nes, self.addr_abs, true) as u16;
        let hi: u16 = Self::cpu_read(nes, self.addr_abs + 1, true) as u16;
        self.pc = hi * 0x100 + lo;
        self.addr_abs = 0;
        self.addr_rel = 0;
        self.fetched_data = 0;
        self.cycles = 3;
    }

    /// Maskable interrupt request: fires only while the InterruptDisable
    /// flag is clear; services the interrupt through the 0xFFFE vector
    /// with 7 cycles of latency.
    fn interupt_req(&mut self, nes: &mut NesData)
        ensures
            spec_get_flag(old(self).status, FLAGS6502::I) != 0 ==> *final(self) == *old(self)
                && *final(nes) == *old(nes),
            spec_get_flag(old(self).status, FLAGS6502::I) == 0 ==> ({
                let (cpu2, v2) = spec_service_interrupt(*old(self), old(nes)@, 0xFFFE, 7);
                *final(self) == cpu2 && final(nes)@ == v2
            }),
    {
        if self.get_flag(FLAGS6502::I) == 0 {
            Self::cpu_write(nes, 0x0100 + self.stkp as u16, (self.pc / 0x100) as u8);
            self.stkp = self.stkp.wrapping_sub(1);
            Self::cpu_write(nes, 0x0100 + self.stkp as u16, (self.pc % 0x100) as u8);
            self.stkp = self.stkp.wrapping_sub(1);
            self.set_flag(FLAGS6502::B, false);
            self.set_flag(FLAGS6502::U, true);
            self.set_flag(FLAGS6502::I, true);
            Self::cpu_write(nes, 0x0100 + self.stkp as u16, self.status);
            self.stkp = self.stkp.wrapping_sub(1);
            self.addr_abs = 0xFFFE;
            let lo: u16 = Self::cpu_read(nes, self.addr_abs, true) as u16;
            let hi: u16 = Self::cpu_read(nes, self.addr_abs + 1, true) as u16;
            self.pc = hi * 0x100 + lo;
            self.cycles = 7;
        }
    }

    /// Non-maskable interrupt: unconditional, through the 0xFFFA vector,
    /// with 8 cycles of latency.
    fn non_maskable_interupt_req(&mut self, nes: &mut NesData)
        ensures
            ({
                let (cpu2, v2) = spec_service_interrupt(*old(self), old(nes)@, 0xFFFA, 8);
                *final(self) == cpu2 && final(nes)@ == v2
            }),
    {
        Self::cpu_write(nes, 0x0100 + self.stkp as u16, (self.pc / 0x100) as u8);
        self.stkp = self.stkp.wrapping_sub(1);
        Self::cpu_write(nes, 0x0100 + self.stkp as u16, (self.pc % 0x100) as u8);
        self.stkp = self.stkp.wrapping_sub(1);
        self.set_flag(FLAGS6502::B, false);
        self.set_flag(FLAGS6502::U, true);
        self.set_flag(FLAGS6502::I, true);
        Self::cpu_write(nes, 0x0100 + self.stkp as u16, self.status);
        self.stkp = self.stkp.wrapping_sub(1);
        self.addr_abs = 0xFFFA;
        let lo: u16 = Self::cpu_read(nes, self.addr_abs, true) as u16;
        let hi: u16 = Self::cpu_read(nes, self.addr_abs + 1, true) as u16;
        self.pc = hi * 0x100 + lo;
        self.cycles = 8;
    }

    /// Latches the operand byte of the current instruction: a bus read at
    /// the absolute address latch, except under implied addressing, where
    /// the byte is already latched.
    fn fetch_data(&mut self, nes: &mut NesData) -> (r: u8)
        ensures
            r == spec_fetched(*old(self), old(nes)@),
            *final(self) == (CPU6502 { fetched_data: r, ..*old(self) }),
            *final(nes) == *old(nes),
    {
        if self.lookup[self.curr_opcode as usize].addr_mode != AddrMode::IMP {
            self.fetched_data = Self::cpu_read(nes, self.addr_abs, true);
        }
        self.fetched_data
    }
}


/// Implied addressing: the operand is the accumulator, latched directly.
pub open spec fn spec_imp(cpu: CPU6502) -> (CPU6502, u8) {
    (CPU6502 { fetched_data: cpu.a, ..cpu }, 0)
}

/// Immediate addressing: the operand is the byte after the opcode, so the
/// absolute address latch is the program counter itself.
pub open spec fn spec_imm(cpu: CPU6502) -> (CPU6502, u8) {
    (CPU6502 { addr_abs: cpu.pc, pc: cpu.pc.wrapping_add(1), ..cpu }, 0)
}

/// Zero-page addressing: the byte after the opcode is the low byte of the
/// operand address; the high byte is zero.
pub open spec fn spec_zp0(cpu: CPU6502, v: NesView) -> (CPU6502, u8) {
    let b = nes_cpu_read(v, cpu.pc);
    (CPU6502 { addr_abs: b as u16, pc: cpu.pc.wrapping_add(1), ..cpu }, 0)
}

/// Zero-page addressing indexed by X: the operand byte plus X, wrapping
/// within the zero page.
pub open spec fn spec_zpx(cpu: CPU6502, v: NesView) -> (CPU6502, u8) {
    let b = nes_cpu_read(v, cpu.pc);
    (CPU6502 { addr_abs: b.wrapping_add(cpu.x) as u16, pc: cpu.pc.wrapping_add(1), ..cpu }, 0)
}

/// Zero-page addressing indexed by Y.
pub open spec fn spec_zpy(cpu: CPU6502, v: NesView) -> (CPU6502, u8) {
    let b = nes_cpu_read(v, cpu.pc);
    (CPU6502 { addr_abs: b.wrapping_add(cpu.y) as u16, pc: cpu.pc.wrapping_add(1), ..cpu }, 0)
}

/// Relative addressing, used by the branches: the operand byte is a
/// signed offset, sign-extended into the relative address latch.
pub open spec fn spec_rel(cpu: CPU6502, v: NesView) -> (CPU6502, u8) {
    let b = nes_cpu_read(v, cpu.pc);
    let rel: u16 = if b & 0x80 != 0 {
        (b as u16) | 0xFF00
    } else {
        b as u16
    };
    (CPU6502 { addr_rel: rel, pc: cpu.pc.wrapping_add(1), ..cpu }, 0)
}

/// Absolute addressing: the two bytes after the opcode give the operand
/// address, low byte first.
pub open spec fn spec_abs(cpu: CPU6502, v: NesView) -> (CPU6502, u8) {
    let lo = nes_cpu_read(v, cpu.pc);
    let hi = nes_cpu_read(v, cpu.pc.wrapping_add(1));
    (
        CPU6502 {
            addr_abs: (hi * 0x100 + lo) as u16,
            pc: cpu.pc.wrapping_add(1).wrapping_add(1),
            ..cpu
        },
        0,
    )
}

/// Absolute addressing indexed by X: one bonus cycle is indicated when
/// adding X crosses a page boundary.
pub open spec fn spec_abx(cpu: CPU6502, v: NesView) -> (CPU6502, u8) {
    let lo = nes_cpu_read(v, cpu.pc);
    let hi = nes_cpu_read(v, cpu.pc.wrapping_add(1));
    let base = (hi * 0x100 + lo) as u16;
    let ab = base.wrapping_add(cpu.x as u16);
    let extra: u8 = if (ab & 0xFF00) != (hi as u16) * 0x100 {
        1
    } else {
        0
    };
    (CPU6502 { addr_abs: ab, pc: cpu.pc.wrapping_add(1).wrapping_add(1), ..cpu }, extra)
}

/// Absolute addressing indexed by Y, with the same page-cross indicator.
pub open spec fn spec_aby(cpu: CPU6502, v: NesView) -> (CPU6502, u8) {
    let lo = nes_cpu_read(v, cpu.pc);
    let hi = nes_cpu_read(v, cpu.pc.wrapping_add(1));
    let base = (hi * 0x100 + lo) as u16;
    let ab = base.wrapping_add(cpu.y as u16);
    let extra: u8 = if (ab & 0xFF00) != (hi as u16) * 0x100 {
        1
    } else {
        0
    };
    (CPU6502 { addr_abs: ab, pc: cpu.pc.wrapping_add(1).wrapping_add(1), ..cpu }, extra)
}

/// Indirect addressing: the two bytes after the opcode point at the
/// location holding the operand address. When the pointer's low byte is
/// 0xFF the high byte is read from the start of the same page, as the
/// hardware does.
pub open spec fn spec_ind(cpu: CPU6502, v: NesView) -> (CPU6502, u8) {
    let lo = nes_cpu_read(v, cpu.pc);
    let hi = nes_cpu_read(v, cpu.pc.wrapping_add(1));
    let ptr = (hi * 0x100 + lo) as u16;
    let a_lo = nes_cpu_read(v, ptr);
    let a_hi = if lo == 0xFF {
        nes_cpu_read(v, ptr & 0xFF00)
    } else {
        nes_cpu_read(v, (ptr + 1) as u16)
    };
    (
        CPU6502 {
            addr_abs: (a_hi * 0x100 + a_lo) as u16,
            pc: cpu.pc.wrapping_add(1).wrapping_add(1),
            ..cpu
        },
        0,
    )
}

/// Indexed indirect addressing: the operand byte plus X, wrapping within
/// the zero page, points at the location holding the operand address.
pub open spec fn spec_izx(cpu: CPU6502, v: NesView) -> (CPU6502, u8) {
    let t = nes_cpu_read(v, cpu.pc);
    let tx = t.wrapping_add(cpu.x);
    let lo = nes_cpu_read(v, tx as u16);
    let hi = nes_cpu_read(v, tx.wrapping_add(1) as u16);
    (CPU6502 { addr_abs: (hi * 0x100 + lo) as u16, pc: cpu.pc.wrapping_add(1), ..cpu }, 0)
}

/// Indirect indexed addressing: the operand byte points into the zero
/// page at a base address to which Y is added; one bonus cycle is
/// indicated when the addition crosses a page boundary.
pub open spec fn spec_izy(cpu: CPU6502, v: NesView) -> (CPU6502, u8) {
    let t = nes_cpu_read(v, cpu.pc);
    let lo = nes_cpu_read(v, t as u16);
    let hi = nes_cpu_read(v, t.wrapping_add(1) as u16);
    let base = (hi * 0x100 + lo) as u16;
    let ab = base.wrapping_add(cpu.y as u16);
    let extra: u8 = if (ab & 0xFF00) != (hi as u16) * 0x100 {
        1
    } else {
        0
    };
    (CPU6502 { addr_abs: ab, pc: cpu.pc.wrapping_add(1), ..cpu }, extra)
}

/// The full addressing-mode resolution step: the processor state after
/// the mode computes its address latches, and the mode's bonus-cycle
/// indicator. The undefined mode resolves nothing.
pub open spec fn spec_resolve(mode: AddrMode, cpu: CPU6502, v: NesView) -> (CPU6502, u8) {
    match mode {
        AddrMode::IMP => spec_imp(cpu),
        AddrMode::IMM => spec_imm(cpu),
        AddrMode::ZP0 => spec_zp0(cpu, v),
        AddrMode::ZPX => spec_zpx(cpu, v),
        AddrMode::ZPY => spec_zpy(cpu, v),
        AddrMode::REL => spec_rel(cpu, v),
        AddrMode::ABS => spec_abs(cpu, v),
        AddrMode::ABX => spec_abx(cpu, v),
        AddrMode::ABY => spec_aby(cpu, v),
        AddrMode::IND => spec_ind(cpu, v),
        AddrMode::IZX => spec_izx(cpu, v),
        AddrMode::IZY => spec_izy(cpu, v),
        AddrMode::UNK => (cpu, 0),
    }
}

/// The thirteen addressing-mode resolvers: each computes the absolute or
/// relative address latch from the bytes following the opcode, advancing
/// the program counter, and returns its bonus-cycle indicator.
pub trait AddressingModes {
    /// Implied: the operand is implicitly the accumulator.
    fn IMP(&mut self) -> (r: u8);

    /// Immediate: the second byte of the instruction is the operand.
    fn IMM(&mut self) -> (r: u8);

    /// Zero page: only the low byte of the operand address follows the
    /// opcode.
    fn ZP0(&mut self, nes: &mut NesData) -> (r: u8)
        requires
            old(nes).wf(),
        ensures
            final(nes).wf(),
    ;

    /// Zero page indexed by X.
    fn ZPX(&mut self, nes: &mut NesData) -> (r: u8)
        requires
            old(nes).wf(),
        ensures
            final(nes).wf(),
    ;

    /// Zero page indexed by Y.
    fn ZPY(&mut self, nes: &mut NesData) -> (r: u8)
        requires
            old(nes).wf(),
        ensures
            final(nes).wf(),
    ;

    /// Relative: the signed operand byte sets the branch destination.
    fn REL(&mut self, nes: &mut NesData) -> (r: u8)
        requires
            old(nes).wf(),
        ensures
            final(nes).wf(),
    ;

    /// Absolute: the two bytes after the opcode give the operand address.
    fn ABS(&mut self, nes: &mut NesData) -> (r: u8)
        requires
            old(nes).wf(),
        ensures
            final(nes).wf(),
    ;

    /// Absolute indexed by X.
    fn ABX(&mut self, nes: &mut NesData) -> (r: u8)
        requires
            old(nes).wf(),
        ensures
            final(nes).wf(),
    ;

    /// Absolute indexed by Y.
    fn ABY(&mut self, nes: &mut NesData) -> (r: u8)
        requires
            old(nes).wf(),
        ensures
            final(nes).wf(),
    ;

    /// Indirect: the bytes after the opcode point at the operand address.
    fn IND(&mut self, nes: &mut NesData) -> (r: u8)
        requires
            old(nes).wf(),
        ensures
            final(nes).wf(),
    ;

    /// Indexed indirect, through the zero page with X.
    fn IZX(&mut self, nes: &mut NesData) -> (r: u8)
        requires
            old(nes).wf(),
        ensures
            final(nes).wf(),
    ;

    /// Indirect indexed, through the zero page with Y added after.
    fn IZY(&mut self, nes: &mut NesData) -> (r: u8)
        requires
            old(nes).wf(),
        ensures
            final(nes).wf(),
    ;
}

impl AddressingModes for CPU6502 {
    fn IMP(&mut self) -> (r: u8)
        ensures
            *final(self) == spec_imp(*old(self)).0,
            r == spec_imp(*old(self)).1,
    {
        self.fetched_data = self.a;
        0u8
    }

    fn IMM(&mut self) -> (r: u8)
        ensures
            *final(self) == spec_imm(*old(self)).0,
            r == spec_imm(*old(self)).1,
    {
        self.addr_abs = self.pc;
        self.pc = self.pc.wrapping_add(1);
        0u8
    }

    fn ZP0(&mut self, nes: &mut NesData) -> (r: u8)
        ensures
            *final(self) == spec_zp0(*old(self), old(nes)@).0,
            r == spec_zp0(*old(self), old(nes)@).1,
            *final(nes) == *old(nes),
    {
        let b: u8 = Self::cpu_read(nes, self.pc, true);
        self.addr_abs = b as u16;
        self.pc = self.pc.wrapping_add(1);
        0u8
    }

    fn ZPX(&mut self, nes: &mut NesData) -> (r: u8)
        ensures
            *final(self) == spec_zpx(*old(self), old(nes)@).0,
            r == spec_zpx(*old(self), old(nes)@).1,
            *final(nes) == *old(nes),
    {
        let b: u8 = Self::cpu_read(nes, self.pc, true);
        self.addr_abs = b.wrapping_add(self.x) as u16;
        self.pc = self.pc.wrapping_add(1);
        0u8
    }

    fn ZPY(&mut self, nes: &mut NesData) -> (r: u8)
        ensures
            *final(self) == spec_zpy(*old(self), old(nes)@).0,
            r == spec_zpy(*old(self), old(nes)@).1,
            *final(nes) == *old(nes),
    {
        let b: u8 = Self::cpu_read(nes, self.pc, true);
        self.addr_abs = b.wrapping_add(self.y) as u16;
        self.pc = self.pc.wrapping_add(1);
        0u8
    }

    fn REL(&mut self, nes: &mut NesData) -> (r: u8)
        ensures
            *final(self) == spec_rel(*old(self), old(nes)@).0,
            r == spec_rel(*old(self), old(nes)@).1,
            *final(nes) == *old(nes),
    {
        let b: u8 = Self::cpu_read(nes, self.pc, true);
        self.pc = self.pc.wrapping_add(1);
        self.addr_rel = if b & 0x80 != 0 {
            (b as u16) | 0xFF00
        } else {
            b as u16
        };
        0u8
    }

    fn ABS(&mut self, nes: &mut NesData) -> (r: u8)
        ensures
            *final(self) == spec_abs(*old(self), old(nes)@).0,
            r == spec_abs(*old(self), old(nes)@).1,
            *final(nes) == *old(nes),
    {
        let lo: u16 = Self::cpu_read(nes, self.pc, true) as u16;
        self.pc = self.pc.wrapping_add(1);
        let hi: u16 = Self::cpu_read(nes, self.pc, true) as u16;
        self.pc = self.pc.wrapping_add(1);
        self.addr_abs = hi * 0x100 + lo;
        0u8
    }

    fn ABX(&mut self, nes: &mut NesData) -> (r: u8)
        ensures
            *final(self) == spec_abx(*old(self), old(nes)@).0,
            r == spec_abx(*old(self), old(nes)@).1,
            *final(nes) == *old(nes),
    {
        let lo: u16 = Self::cpu_read(nes, self.pc, true) as u16;
        self.pc = self.pc.wrapping_add(1);
        let hi: u16 = Self::cpu_read(nes, self.pc, true) as u16;
        self.pc = self.pc.wrapping_add(1);
        let base: u16 = hi * 0x100 + lo;
        self.addr_abs = base.wrapping_add(self.x as u16);
        if (self.addr_abs & 0xFF00) != hi * 0x100 {
            1u8
        } else {
            0u8
        }
    }

    fn ABY(&mut self, nes: &mut NesData) -> (r: u8)
        ensures
            *final(self) == spec_aby(*old(self), old(nes)@).0,
            r == spec_aby(*old(self), old(nes)@).1,
            *final(nes) == *old(nes),
    {
        let lo: u16 = Self::cpu_read(nes, self.pc, true) as u16;
        self.pc = self.pc.wrapping_add(1);
        let hi: u16 = Self::cpu_read(nes, self.pc, true) as u16;
        self.pc = self.pc.wrapping_add(1);
        let base: u16 = hi * 0x100 + lo;
        self.addr_abs = base.wrapping_add(self.y as u16);
        if (self.addr_abs & 0xFF00) != hi * 0x100 {
            1u8
        } else {
            0u8
        }
    }

    fn IND(&mut self, nes: &mut NesData) -> (r: u8)
        ensures
            *final(self) == spec_ind(*old(self), old(nes)@).0,
            r == spec_ind(*old(self), old(nes)@).1,
            *final(nes) == *old(nes),
    {
        let lo: u16 = Self::cpu_read(nes, self.pc, true) as u16;
        self.pc = self.pc.wrapping_add(1);
        let hi: u16 = Self::cpu_read(nes, self.pc, true) as u16;
        self.pc = self.pc.wrapping_add(1);
        let ptr: u16 = hi * 0x100 + lo;
        let a_lo: u16 = Self::cpu_read(nes, ptr, true) as u16;
        let a_hi: u16 = if lo == 0xFF {
            Self::cpu_read(nes, ptr & 0xFF00, true) as u16
        } else {
            Self::cpu_read(nes, ptr + 1, true) as u16
        };
        self.addr_abs = a_hi * 0x100 + a_lo;
        0u8
    }

    fn IZX(&mut self, nes: &mut NesData) -> (r: u8)
        ensures
            *final(self) == spec_izx(*old(self), old(nes)@).0,
            r == spec_izx(*old(self), old(nes)@).1,
            *final(nes) == *old(nes),
    {
        let t: u8 = Self::cpu_read(nes, self.pc, true);
        self.pc = self.pc.wrapping_add(1);
        let tx: u8 = t.wrapping_add(self.x);
        let lo: u16 = Self::cpu_read(nes, tx as u16, true) as u16;
        let hi: u16 = Self::cpu_read(nes, tx.wrapping_add(1) as u16, true) as u16;
        self.addr_abs = hi * 0x100 + lo;
        0u8
    }

    fn IZY(&mut self, nes: &mut NesData) -> (r: u8)
        ensures
            *final(self) == spec_izy(*old(self), old(nes)@).0,
            r == spec_izy(*old(self), old(nes)@).1,
            *final(nes) == *old(nes),
    {
        let t: u8 = Self::cpu_read(nes, self.pc, true);
        self.pc = self.pc.wrapping_add(1);
        let lo: u16 = Self::cpu_read(nes, t as u16, true) as u16;
        let hi: u16 = Self::cpu_read(nes, t.wrapping_add(1) as u16, true) as u16;
        let base: u16 = hi * 0x100 + lo;
        self.addr_abs = base.wrapping_add(self.y as u16);
        if (self.addr_abs & 0xFF00) != hi * 0x100 {
            1u8
        } else {
            0u8
        }
    }
}



/// Whether a branch mnemonic's condition holds of a status byte. A
/// non-branch mnemonic never takes a branch.
pub open spec fn spec_branch_taken(m: Mnemonic, s: u8) -> bool {
    match m {
        Mnemonic::BCC => spec_get_flag(s, FLAGS6502::C) == 0,
        Mnemonic::BCS => spec_get_flag(s, FLAGS6502::C) == 1,
        Mnemonic::BEQ => spec_get_flag(s, FLAGS6502::Z) == 1,
        Mnemonic::BNE => spec_get_flag(s, FLAGS6502::Z) == 0,
        Mnemonic::BMI => spec_get_flag(s, FLAGS6502::N) == 1,
        Mnemonic::BPL => spec_get_flag(s, FLAGS6502::N) == 0,
        Mnemonic::BVS => spec_get_flag(s, FLAGS6502::V) == 1,
        Mnemonic::BVC => spec_get_flag(s, FLAGS6502::V) == 0,
        _ => false,
    }
}

/// The processor after a branch operation: when taken, the program
/// counter moves to the destination, one cycle is added, and a second one
/// when the destination sits on another page than the program counter.
pub open spec fn spec_branch_exec(m: Mnemonic, cpu: CPU6502) -> CPU6502 {
    if spec_branch_taken(m, cpu.status) {
        let dest = cpu.pc.wrapping_add(cpu.addr_rel);
        if (dest & 0xFF00) != (cpu.pc & 0xFF00) {
            CPU6502 { cycles: cpu.cycles.wrapping_add(2), addr_abs: dest, pc: dest, ..cpu }
        } else {
            CPU6502 { cycles: cpu.cycles.wrapping_add(1), addr_abs: dest, pc: dest, ..cpu }
        }
    } else {
        cpu
    }
}

/// How many cycles a branch operation adds on its own: 1 when taken, a
/// further 1 when the destination crosses a page boundary, and 0 for
/// everything else.
pub open spec fn spec_branch_bonus(m: Mnemonic, cpu: CPU6502) -> u8 {
    if spec_branch_taken(m, cpu.status) {
        if (cpu.pc.wrapping_add(cpu.addr_rel) & 0xFF00) != (cpu.pc & 0xFF00) {
            2
        } else {
            1
        }
    } else {
        0
    }
}

/// An operation's own bonus-cycle indicator: 1 for the read operations
/// that can pay for a page cross, 1 for the one special no-op opcode, 0
/// for everything else.
pub open spec fn spec_op_extra(m: Mnemonic, opcode: u8) -> u8 {
    match m {
        Mnemonic::ADC => 1,
        Mnemonic::AND => 1,
        Mnemonic::CMP => 1,
        Mnemonic::EOR => 1,
        Mnemonic::LDA => 1,
        Mnemonic::LDX => 1,
        Mnemonic::LDY => 1,
        Mnemonic::ORA => 1,
        Mnemonic::SBC => 1,
        Mnemonic::NOP => if opcode == 0xFC {
            1
        } else {
            0
        },
        _ => 0,
    }
}

/// The processor and bus after a break: the Break flag is set, the
/// program counter high byte, low byte and the status byte are pushed in
/// that order, descending from the stack pointer, and the program counter
/// is loaded from the 0xFFFE vector.
pub open spec fn spec_brk(cpu: CPU6502, v: NesView) -> (CPU6502, NesView) {
    let st = spec_set_flag(cpu.status, FLAGS6502::B, true);
    let v1 = nes_cpu_write(v, (0x0100 + cpu.stkp) as u16, (cpu.pc / 0x100) as u8);
    let s1 = cpu.stkp.wrapping_sub(1);
    let v2 = nes_cpu_write(v1, (0x0100 + s1) as u16, (cpu.pc % 0x100) as u8);
    let s2 = s1.wrapping_sub(1);
    let v3 = nes_cpu_write(v2, (0x0100 + s2) as u16, st);
    let s3 = s2.wrapping_sub(1);
    (
        CPU6502 {
            stkp: s3,
            status: st,
            addr_abs: 0xFFFE,
            pc: spec_vector(v3, 0xFFFE),
            ..cpu
        },
        v3,
    )
}

/// The operation handlers, one per documented mnemonic plus the
/// catch-all. Each reads the already-resolved operand where it needs one,
/// computes with 8-bit wraparound arithmetic, updates the flags, writes
/// its result back, and returns its bonus-cycle indicator.
pub trait OperationCodes: CPUFunctions {
    /// Add the operand and the carry to the accumulator, with 8-bit wraparound; sets Carry, Zero, Negative and Overflow.
    fn ADC(&mut self, nes: &mut NesData) -> (r: u8)
        requires
            old(self).wf(),
            old(nes).wf(),
        ensures
            final(self).wf(),
            final(nes).wf(),
    ;

    /// Bitwise AND of the accumulator with the operand; sets Zero and Negative.
    fn AND(&mut self, nes: &mut NesData) -> (r: u8)
        requires
            old(self).wf(),
            old(nes).wf(),
        ensures
            final(self).wf(),
            final(nes).wf(),
    ;

    /// Arithmetic shift left; the shifted-out high bit lands in Carry, and the result goes to the accumulator under implied addressing, to memory otherwise.
    fn ASL(&mut self, nes: &mut NesData) -> (r: u8)
        requires
            old(self).wf(),
            old(nes).wf(),
        ensures
            final(self).wf(),
            final(nes).wf(),
    ;

    /// Branch when Carry is clear.
    fn BCC(&mut self) -> (r: u8);

    /// Branch when Carry is set.
    fn BCS(&mut self) -> (r: u8);

    /// Branch when Zero is set.
    fn BEQ(&mut self) -> (r: u8);

    /// Bit test: Zero from the accumulator AND the operand, Negative and Overflow from the operand's two top bits.
    fn BIT(&mut self, nes: &mut NesData) -> (r: u8)
        requires
            old(self).wf(),
            old(nes).wf(),
        ensures
            final(self).wf(),
            final(nes).wf(),
    ;

    /// Branch when Negative is set.
    fn BMI(&mut self) -> (r: u8);

    /// Branch when Zero is clear.
    fn BNE(&mut self) -> (r: u8);

    /// Branch when Negative is clear.
    fn BPL(&mut self) -> (r: u8);

    /// Break: set the Break flag, push the program counter high byte, low byte, then the status byte, descending from the stack pointer, and load the program counter from the 0xFFFE vector.
    fn BRK(&mut self, nes: &mut NesData) -> (r: u8)
        requires
            old(nes).wf(),
        ensures
            final(nes).wf(),
    ;

    /// Branch when Overflow is clear.
    fn BVC(&mut self) -> (r: u8);

    /// Branch when Overflow is set.
    fn BVS(&mut self) -> (r: u8);

    /// Clear the Carry flag.
    fn CLC(&mut self) -> (r: u8);

    /// Clear the Decimal flag.
    fn CLD(&mut self) -> (r: u8);

    /// Clear the InterruptDisable flag.
    fn CLI(&mut self) -> (r: u8);

    /// Clear the Overflow flag.
    fn CLV(&mut self) -> (r: u8);

    /// Compare the accumulator with the operand: Carry when no borrow, Zero on equality, Negative from the difference.
    fn CMP(&mut self, nes: &mut NesData) -> (r: u8)
        requires
            old(self).wf(),
            old(nes).wf(),
        ensures
            final(self).wf(),
            final(nes).wf(),
    ;

    /// Compare the X register with the operand.
    fn CPX(&mut self, nes: &mut NesData) -> (r: u8)
        requires
            old(self).wf(),
            old(nes).wf(),
        ensures
            final(self).wf(),
            final(nes).wf(),
    ;

    /// Compare the Y register with the operand.
    fn CPY(&mut self, nes: &mut NesData) -> (r: u8)
        requires
            old(self).wf(),
            old(nes).wf(),
        ensures
            final(self).wf(),
            final(nes).wf(),
    ;

    /// Decrement the byte at the operand address, with wraparound; sets Zero and Negative.
    fn DEC(&mut self, nes: &mut NesData) -> (r: u8)
        requires
            old(self).wf(),
            old(nes).wf(),
        ensures
            final(self).wf(),
            final(nes).wf(),
    ;

    /// Decrement the X register, with wraparound.
    fn DEX(&mut self) -> (r: u8);

    /// Decrement the Y register, with wraparound.
    fn DEY(&mut self) -> (r: u8);

    /// Bitwise exclusive-or of the accumulator with the operand; sets Zero and Negative.
    fn EOR(&mut self, nes: &mut NesData) -> (r: u8)
        requires
            old(self).wf(),
            old(nes).wf(),
        ensures
            final(self).wf(),
            final(nes).wf(),
    ;

    /// Increment the byte at the operand address, with wraparound; sets Zero and Negative.
    fn INC(&mut self, nes: &mut NesData) -> (r: u8)
        requires
            old(self).wf(),
            old(nes).wf(),
        ensures
            final(self).wf(),
            final(nes).wf(),
    ;

    /// Increment the X register, with wraparound.
    fn INX(&mut self) -> (r: u8);

    /// Increment the Y register, with wraparound.
    fn INY(&mut self) -> (r: u8);

    /// Jump to the resolved absolute address.
    fn JMP(&mut self) -> (r: u8);

    /// Jump to subroutine: push the decremented program counter, high byte then low byte, and jump.
    fn JSR(&mut self, nes: &mut NesData) -> (r: u8)
        requires
            old(nes).wf(),
        ensures
            final(nes).wf(),
    ;

    /// Load the operand into the accumulator; sets Zero and Negative.
    fn LDA(&mut self, nes: &mut NesData) -> (r: u8)
        requires
            old(self).wf(),
            old(nes).wf(),
        ensures
            final(self).wf(),
            final(nes).wf(),
    ;

    /// Load the operand into the X register; sets Zero and Negative.
    fn LDX(&mut self, nes: &mut NesData) -> (r: u8)
        requires
            old(self).wf(),
            old(nes).wf(),
        ensures
            final(self).wf(),
            final(nes).wf(),
    ;

    /// Load the operand into the Y register; sets Zero and Negative.
    fn LDY(&mut self, nes: &mut NesData) -> (r: u8)
        requires
            old(self).wf(),
            old(nes).wf(),
        ensures
            final(self).wf(),
            final(nes).wf(),
    ;

    /// Logical shift right; the shifted-out low bit lands in Carry, the result goes to the accumulator under implied addressing, to memory otherwise.
    fn LSR(&mut self, nes: &mut NesData) -> (r: u8)
        requires
            old(self).wf(),
            old(nes).wf(),
        ensures
            final(self).wf(),
            final(nes).wf(),
    ;

    /// No operation; opcode 0xFC is the one no-op that may cost a bonus cycle.
    fn NOP(&mut self) -> (r: u8);

    /// Bitwise inclusive-or of the accumulator with the operand; sets Zero and Negative.
    fn ORA(&mut self, nes: &mut NesData) -> (r: u8)
        requires
            old(self).wf(),
            old(nes).wf(),
        ensures
            final(self).wf(),
            final(nes).wf(),
    ;

    /// Push the accumulator onto the stack.
    fn PHA(&mut self, nes: &mut NesData) -> (r: u8)
        requires
            old(nes).wf(),
        ensures
            final(nes).wf(),
    ;

    /// Push the status byte with the Break bit set, then clear Break and Unused.
    fn PHP(&mut self, nes: &mut NesData) -> (r: u8)
        requires
            old(nes).wf(),
        ensures
            final(nes).wf(),
    ;

    /// Pull the accumulator from the stack; sets Zero and Negative.
    fn PLA(&mut self, nes: &mut NesData) -> (r: u8)
        requires
            old(nes).wf(),
        ensures
            final(nes).wf(),
    ;

    /// Pull the status byte from the stack.
    fn PLP(&mut self, nes: &mut NesData) -> (r: u8)
        requires
            old(nes).wf(),
        ensures
            final(nes).wf(),
    ;

    /// Rotate left through Carry: the old carry enters bit 0, the old high bit leaves into Carry.
    fn ROL(&mut self, nes: &mut NesData) -> (r: u8)
        requires
            old(self).wf(),
            old(nes).wf(),
        ensures
            final(self).wf(),
            final(nes).wf(),
    ;

    /// Rotate right through Carry: the old carry enters bit 7, the old low bit leaves into Carry.
    fn ROR(&mut self, nes: &mut NesData) -> (r: u8)
        requires
            old(self).wf(),
            old(nes).wf(),
        ensures
            final(self).wf(),
            final(nes).wf(),
    ;

    /// Return from interrupt: pull the status byte (Break and Unused cleared), then the program counter, low byte first.
    fn RTI(&mut self, nes: &mut NesData) -> (r: u8)
        requires
            old(nes).wf(),
        ensures
            final(nes).wf(),
    ;

    /// Return from subroutine: pull the program counter, low byte first, and step past the call's last byte.
    fn RTS(&mut self, nes: &mut NesData) -> (r: u8)
        requires
            old(nes).wf(),
        ensures
            final(nes).wf(),
    ;

    /// Subtract the operand from the accumulator with borrow, by adding its complement; sets Carry, Zero, Negative and Overflow.
    fn SBC(&mut self, nes: &mut NesData) -> (r: u8)
        requires
            old(self).wf(),
            old(nes).wf(),
        ensures
            final(self).wf(),
            final(nes).wf(),
    ;

    /// Set the Carry flag.
    fn SEC(&mut self) -> (r: u8);

    /// Set the Decimal flag.
    fn SED(&mut self) -> (r: u8);

    /// Set the InterruptDisable flag.
    fn SEI(&mut self) -> (r: u8);

    /// Store the accumulator at the operand address.
    fn STA(&mut self, nes: &mut NesData) -> (r: u8)
        requires
            old(nes).wf(),
        ensures
            final(nes).wf(),
    ;

    /// Store the X register at the operand address.
    fn STX(&mut self, nes: &mut NesData) -> (r: u8)
        requires
            old(nes).wf(),
        ensures
            final(nes).wf(),
    ;

    /// Store the Y register at the operand address.
    fn STY(&mut self, nes: &mut NesData) -> (r: u8)
        requires
            old(nes).wf(),
        ensures
            final(nes).wf(),
    ;

    /// Transfer the accumulator to X; sets Zero and Negative.
    fn TAX(&mut self) -> (r: u8);

    /// Transfer the accumulator to Y; sets Zero and Negative.
    fn TAY(&mut self) -> (r: u8);

    /// Transfer the stack pointer to X; sets Zero and Negative.
    fn TSX(&mut self) -> (r: u8);

    /// Transfer X to the accumulator; sets Zero and Negative.
    fn TXA(&mut self) -> (r: u8);

    /// Transfer X to the stack pointer; no flags move.
    fn TXS(&mut self) -> (r: u8);

    /// Transfer Y to the accumulator; sets Zero and Negative.
    fn TYA(&mut self) -> (r: u8);

    /// The catch-all for every undocumented opcode: a no-op contributing no cycles.
    fn XXX(&mut self) -> (r: u8);
}

impl OperationCodes for CPU6502 {
    /// Bitwise AND of the accumulator with the operand; sets Zero and Negative.
    fn AND(&mut self, nes: &mut NesData) -> (r: u8)
        ensures
            ({
                let f = spec_fetched(*old(self), old(nes)@);
                let a2 = old(self).a & f;
                *final(self) == (CPU6502 {
                    a: a2,
                    fetched_data: f,
                    status: spec_zn(old(self).status, a2),
                    ..*old(self)
                })
            }),
            *final(nes) == *old(nes),
            r == 1,
    {
        let f: u8 = self.fetch_data(nes);
        self.a = self.a & f;
        let a2: u8 = self.a;
        self.set_flag(FLAGS6502::Z, a2 == 0);
        self.set_flag(FLAGS6502::N, a2 & 0x80 != 0);
        1u8
    }

    /// Bitwise exclusive-or of the accumulator with the operand; sets Zero and Negative.
    fn EOR(&mut self, nes: &mut NesData) -> (r: u8)
        ensures
            ({
                let f = spec_fetched(*old(self), old(nes)@);
                let a2 = old(self).a ^ f;
                *final(self) == (CPU6502 {
                    a: a2,
                    fetched_data: f,
                    status: spec_zn(old(self).status, a2),
                    ..*old(self)
                })
            }),
            *final(nes) == *old(nes),
            r == 1,
    {
        let f: u8 = self.fetch_data(nes);
        self.a = self.a ^ f;
        let a2: u8 = self.a;
        self.set_flag(FLAGS6502::Z, a2 == 0);
        self.set_flag(FLAGS6502::N, a2 & 0x80 != 0);
        1u8
    }

    /// Bitwise inclusive-or of the accumulator with the operand; sets Zero and Negative.
    fn ORA(&mut self, nes: &mut NesData) -> (r: u8)
        ensures
            ({
                let f = spec_fetched(*old(self), old(nes)@);
                let a2 = old(self).a | f;
                *final(self) == (CPU6502 {
                    a: a2,
                    fetched_data: f,
                    status: spec_zn(old(self).status, a2),
                    ..*old(self)
                })
            }),
            *final(nes) == *old(nes),
            r == 1,
    {
        let f: u8 = self.fetch_data(nes);
        self.a = self.a | f;
        let a2: u8 = self.a;
        self.set_flag(FLAGS6502::Z, a2 == 0);
        self.set_flag(FLAGS6502::N, a2 & 0x80 != 0);
        1u8
    }

    /// Load the operand into the accumulator; sets Zero and Negative.
    fn LDA(&mut self, nes: &mut NesData) -> (r: u8)
        ensures
            ({
                let f = spec_fetched(*old(self), old(nes)@);
                *final(self) == (CPU6502 {
                    a: f,
                    fetched_data: f,
                    status: spec_zn(old(self).status, f),
                    ..*old(self)
                })
            }),
            *final(nes) == *old(nes),
            r == 1,
    {
        let f: u8 = self.fetch_data(nes);
        self.a = f;
        self.set_flag(FLAGS6502::Z, f == 0);
        self.set_flag(FLAGS6502::N, f & 0x80 != 0);
        1u8
    }

    /// Load the operand into the X register; sets Zero and Negative.
    fn LDX(&mut self, nes: &mut NesData) -> (r: u8)
        ensures
            ({
                let f = spec_fetched(*old(self), old(nes)@);
                *final(self) == (CPU6502 {
                    x: f,
                    fetched_data: f,
                    status: spec_zn(old(self).status, f),
                    ..*old(self)
                })
            }),
            *final(nes) == *old(nes),
            r == 1,
    {
        let f: u8 = self.fetch_data(nes);
        self.x = f;
        self.set_flag(FLAGS6502::Z, f == 0);
        self.set_flag(FLAGS6502::N, f & 0x80 != 0);
        1u8
    }

    /// Load the operand into the Y register; sets Zero and Negative.
    fn LDY(&mut self, nes: &mut NesData) -> (r: u8)
        ensures
            ({
                let f = spec_fetched(*old(self), old(nes)@);
                *final(self) == (CPU6502 {
                    y: f,
                    fetched_data: f,
                    status: spec_zn(old(self).status, f),
                    ..*old(self)
                })
            }),
            *final(nes) == *old(nes),
            r == 1,
    {
        let f: u8 = self.fetch_data(nes);
        self.y = f;
        self.set_flag(FLAGS6502::Z, f == 0);
        self.set_flag(FLAGS6502::N, f & 0x80 != 0);
        1u8
    }

    /// Add the operand and the carry to the accumulator, with 8-bit wraparound; sets Carry, Zero, Negative and Overflow.
    fn ADC(&mut self, nes: &mut NesData) -> (r: u8)
        ensures
            ({
                let f = spec_fetched(*old(self), old(nes)@);
                let c = spec_get_flag(old(self).status, FLAGS6502::C);
                let result = ((old(self).a + f + c) % 0x100) as u8;
                let vflag = (!(old(self).a ^ f) & (old(self).a ^ result) & 0x80) != 0;
                *final(self) == (CPU6502 {
                    a: result,
                    fetched_data: f,
                    status: spec_set_flag(
                        spec_zn(
                            spec_set_flag(old(self).status, FLAGS6502::C, old(self).a + f + c > 0xFF),
                            result,
                        ),
                        FLAGS6502::V,
                        vflag,
                    ),
                    ..*old(self)
                })
            }),
            *final(nes) == *old(nes),
            r == 1,
    {
        let f: u8 = self.fetch_data(nes);
        let a0: u8 = self.a;
        let c: u8 = self.get_flag(FLAGS6502::C);
        let sum: u16 = a0 as u16 + f as u16 + c as u16;
        let result: u8 = (sum % 0x100) as u8;
        self.set_flag(FLAGS6502::C, sum > 0xFF);
        self.set_flag(FLAGS6502::Z, result == 0);
        self.set_flag(FLAGS6502::N, result & 0x80 != 0);
        self.set_flag(FLAGS6502::V, (!(a0 ^ f) & (a0 ^ result) & 0x80) != 0);
        self.a = result;
        1u8
    }

    /// Subtract the operand from the accumulator with borrow, by adding its complement; sets Carry, Zero, Negative and Overflow.
    fn SBC(&mut self, nes: &mut NesData) -> (r: u8)
        ensures
            ({
                let f = spec_fetched(*old(self), old(nes)@);
                let value = f ^ 0xFF;
                let c = spec_get_flag(old(self).status, FLAGS6502::C);
                let result = ((old(self).a + value + c) % 0x100) as u8;
                let vflag = (!(old(self).a ^ value) & (old(self).a ^ result) & 0x80) != 0;
                *final(self) == (CPU6502 {
                    a: result,
                    fetched_data: f,
                    status: spec_set_flag(
                        spec_zn(
                            spec_set_flag(
                                old(self).status,
                                FLAGS6502::C,
                                old(self).a + value + c > 0xFF,
                            ),
                            result,
                        ),
                        FLAGS6502::V,
                        vflag,
                    ),
                    ..*old(self)
                })
            }),
            *final(nes) == *old(nes),
            r == 1,
    {
        let f: u8 = self.fetch_data(nes);
        let value: u8 = f ^ 0xFF;
        let a0: u8 = self.a;
        let c: u8 = self.get_flag(FLAGS6502::C);
        let sum: u16 = a0 as u16 + value as u16 + c as u16;
        let result: u8 = (sum % 0x100) as u8;
        self.set_flag(FLAGS6502::C, sum > 0xFF);
        self.set_flag(FLAGS6502::Z, result == 0);
        self.set_flag(FLAGS6502::N, result & 0x80 != 0);
        self.set_flag(FLAGS6502::V, (!(a0 ^ value) & (a0 ^ result) & 0x80) != 0);
        self.a = result;
        1u8
    }

    /// Compare the accumulator with the operand: Carry when no borrow, Zero on equality, Negative from the difference.
    fn CMP(&mut self, nes: &mut NesData) -> (r: u8)
        ensures
            ({
                let f = spec_fetched(*old(self), old(nes)@);
                let diff = old(self).a.wrapping_sub(f);
                *final(self) == (CPU6502 {
                    fetched_data: f,
                    status: spec_set_flag(
                        spec_set_flag(
                            spec_set_flag(old(self).status, FLAGS6502::N, diff & 0x80 != 0),
                            FLAGS6502::Z,
                            old(self).a == f,
                        ),
                        FLAGS6502::C,
                        old(self).a >= f,
                    ),
                    ..*old(self)
                })
            }),
            *final(nes) == *old(nes),
            r == 1,
    {
        let f: u8 = self.fetch_data(nes);
        let diff: u8 = self.a.wrapping_sub(f);
        self.set_flag(FLAGS6502::N, diff & 0x80 != 0);
        self.set_flag(FLAGS6502::Z, self.a == f);
        self.set_flag(FLAGS6502::C, self.a >= f);
        1u8
    }

    /// Compare the X register with the operand.
    fn CPX(&mut self, nes: &mut NesData) -> (r: u8)
        ensures
            ({
                let f = spec_fetched(*old(self), old(nes)@);
                let diff = old(self).x.wrapping_sub(f);
                *final(self) == (CPU6502 {
                    fetched_data: f,
                    status: spec_set_flag(
                        spec_set_flag(
                            spec_set_flag(old(self).status, FLAGS6502::N, diff & 0x80 != 0),
                            FLAGS6502::Z,
                            old(self).x == f,
                        ),
                        FLAGS6502::C,
                        old(self).x >= f,
                    ),
                    ..*old(self)
                })
            }),
            *final(nes) == *old(nes),
            r == 0,
    {
        let f: u8 = self.fetch_data(nes);
        let diff: u8 = self.x.wrapping_sub(f);
        self.set_flag(FLAGS6502::N, diff & 0x80 != 0);
        self.set_flag(FLAGS6502::Z, self.x == f);
        self.set_flag(FLAGS6502::C, self.x >= f);
        0u8
    }

    /// Compare the Y register with the operand.
    fn CPY(&mut self, nes: &mut NesData) -> (r: u8)
        ensures
            ({
                let f = spec_fetched(*old(self), old(nes)@);
                let diff = old(self).y.wrapping_sub(f);
                *final(self) == (CPU6502 {
                    fetched_data: f,
                    status: spec_set_flag(
                        spec_set_flag(
                            spec_set_flag(old(self).status, FLAGS6502::N, diff & 0x80 != 0),
                            FLAGS6502::Z,
                            old(self).y == f,
                        ),
                        FLAGS6502::C,
                        old(self).y >= f,
                    ),
                    ..*old(self)
                })
            }),
            *final(nes) == *old(nes),
            r == 0,
    {
        let f: u8 = self.fetch_data(nes);
        let diff: u8 = self.y.wrapping_sub(f);
        self.set_flag(FLAGS6502::N, diff & 0x80 != 0);
        self.set_flag(FLAGS6502::Z, self.y == f);
        self.set_flag(FLAGS6502::C, self.y >= f);
        0u8
    }

    /// Bit test: Zero from the accumulator AND the operand, Negative and Overflow from the operand's two top bits.
    fn BIT(&mut self, nes: &mut NesData) -> (r: u8)
        ensures
            ({
                let f = spec_fetched(*old(self), old(nes)@);
                *final(self) == (CPU6502 {
                    fetched_data: f,
                    status: spec_set_flag(
                        spec_set_flag(
                            spec_set_flag(old(self).status, FLAGS6502::Z, old(self).a & f == 0),
                            FLAGS6502::N,
                            f & 0x80 != 0,
                        ),
                        FLAGS6502::V,
                        f & 0x40 != 0,
                    ),
                    ..*old(self)
                })
            }),
            *final(nes) == *old(nes),
            r == 0,
    {
        let f: u8 = self.fetch_data(nes);
        let t: u8 = self.a & f;
        self.set_flag(FLAGS6502::Z, t == 0);
        self.set_flag(FLAGS6502::N, f & 0x80 != 0);
        self.set_flag(FLAGS6502::V, f & 0x40 != 0);
        0u8
    }

    /// Arithmetic shift left; the shifted-out high bit lands in Carry, and the result goes to the accumulator under implied addressing, to memory otherwise.
    fn ASL(&mut self, nes: &mut NesData) -> (r: u8)
        ensures
            ({
                let f = spec_fetched(*old(self), old(nes)@);
                let result = ((f * 2) % 0x100) as u8;
                let st = spec_zn(spec_set_flag(old(self).status, FLAGS6502::C, f & 0x80 != 0), result);
                if spec_instruction(old(self).curr_opcode).addr_mode == AddrMode::IMP {
                    *final(self) == (CPU6502 { a: result, fetched_data: f, status: st, ..*old(self) })
                        && *final(nes) == *old(nes)
                } else {
                    *final(self) == (CPU6502 { fetched_data: f, status: st, ..*old(self) })
                        && final(nes)@ == nes_cpu_write(old(nes)@, old(self).addr_abs, result)
                }
            }),
            r == 0,
    {
        let f: u8 = self.fetch_data(nes);
        let result: u8 = ((f as u16 * 2) % 0x100) as u8;
        self.set_flag(FLAGS6502::C, f & 0x80 != 0);
        self.set_flag(FLAGS6502::Z, result == 0);
        self.set_flag(FLAGS6502::N, result & 0x80 != 0);
        if self.lookup[self.curr_opcode as usize].addr_mode == AddrMode::IMP {
            self.a = result;
        } else {
            Self::cpu_write(nes, self.addr_abs, result);
        }
        0u8
    }

    /// Logical shift right; the shifted-out low bit lands in Carry, the result goes to the accumulator under implied addressing, to memory otherwise.
    fn LSR(&mut self, nes: &mut NesData) -> (r: u8)
        ensures
            ({
                let f = spec_fetched(*old(self), old(nes)@);
                let result = f / 2;
                let st = spec_zn(spec_set_flag(old(self).status, FLAGS6502::C, f & 0x01 != 0), result);
                if spec_instruction(old(self).curr_opcode).addr_mode == AddrMode::IMP {
                    *final(self) == (CPU6502 { a: result, fetched_data: f, status: st, ..*old(self) })
                        && *final(nes) == *old(nes)
                } else {
                    *final(self) == (CPU6502 { fetched_data: f, status: st, ..*old(self) })
                        && final(nes)@ == nes_cpu_write(old(nes)@, old(self).addr_abs, result)
                }
            }),
            r == 0,
    {
        let f: u8 = self.fetch_data(nes);
        let result: u8 = f / 2;
        self.set_flag(FLAGS6502::C, f & 0x01 != 0);
        self.set_flag(FLAGS6502::Z, result == 0);
        self.set_flag(FLAGS6502::N, result & 0x80 != 0);
        if self.lookup[self.curr_opcode as usize].addr_mode == AddrMode::IMP {
            self.a = result;
        } else {
            Self::cpu_write(nes, self.addr_abs, result);
        }
        0u8
    }

    /// Rotate left through Carry: the old carry enters bit 0, the old high bit leaves into Carry.
    fn ROL(&mut self, nes: &mut NesData) -> (r: u8)
        ensures
            ({
                let f = spec_fetched(*old(self), old(nes)@);
                let c = spec_get_flag(old(self).status, FLAGS6502::C);
                let result = ((f * 2 + c) % 0x100) as u8;
                let st = spec_zn(spec_set_flag(old(self).status, FLAGS6502::C, f & 0x80 != 0), result);
                if spec_instruction(old(self).curr_opcode).addr_mode == AddrMode::IMP {
                    *final(self) == (CPU6502 { a: result, fetched_data: f, status: st, ..*old(self) })
                        && *final(nes) == *old(nes)
                } else {
                    *final(self) == (CPU6502 { fetched_data: f, status: st, ..*old(self) })
                        && final(nes)@ == nes_cpu_write(old(nes)@, old(self).addr_abs, result)
                }
            }),
            r == 0,
    {
        let f: u8 = self.fetch_data(nes);
        let c: u8 = self.get_flag(FLAGS6502::C);
        let result: u8 = ((f as u16 * 2 + c as u16) % 0x100) as u8;
        self.set_flag(FLAGS6502::C, f & 0x80 != 0);
        self.set_flag(FLAGS6502::Z, result == 0);
        self.set_flag(FLAGS6502::N, result & 0x80 != 0);
        if self.lookup[self.curr_opcode as usize].addr_mode == AddrMode::IMP {
            self.a = result;
        } else {
            Self::cpu_write(nes, self.addr_abs, result);
        }
        0u8
    }

    /// Rotate right through Carry: the old carry enters bit 7, the old low bit leaves into Carry.
    fn ROR(&mut self, nes: &mut NesData) -> (r: u8)
        ensures
            ({
                let f = spec_fetched(*old(self), old(nes)@);
                let c = spec_get_flag(old(self).status, FLAGS6502::C);
                let result = (f / 2 + c * 0x80) as u8;
                let st = spec_zn(spec_set_flag(old(self).status, FLAGS6502::C, f & 0x01 != 0), result);
                if spec_instruction(old(self).curr_opcode).addr_mode == AddrMode::IMP {
                    *final(self) == (CPU6502 { a: result, fetched_data: f, status: st, ..*old(self) })
                        && *final(nes) == *old(nes)
                } else {
                    *final(self) == (CPU6502 { fetched_data: f, status: st, ..*old(self) })
                        && final(nes)@ == nes_cpu_write(old(nes)@, old(self).addr_abs, result)
                }
            }),
            r == 0,
    {
        let f: u8 = self.fetch_data(nes);
        let c: u8 = self.get_flag(FLAGS6502::C);
        let result: u8 = f / 2 + c * 0x80;
        self.set_flag(FLAGS6502::C, f & 0x01 != 0);
        self.set_flag(FLAGS6502::Z, result == 0);
        self.set_flag(FLAGS6502::N, result & 0x80 != 0);
        if self.lookup[self.curr_opcode as usize].addr_mode == AddrMode::IMP {
            self.a = result;
        } else {
            Self::cpu_write(nes, self.addr_abs, result);
        }
        0u8
    }

    /// Increment the byte at the operand address, with wraparound; sets Zero and Negative.
    fn INC(&mut self, nes: &mut NesData) -> (r: u8)
        ensures
            ({
                let f = spec_fetched(*old(self), old(nes)@);
                let result = f.wrapping_add(1);
                *final(self) == (CPU6502 {
                    fetched_data: f,
                    status: spec_zn(old(self).status, result),
                    ..*old(self)
                }) && final(nes)@ == nes_cpu_write(old(nes)@, old(self).addr_abs, result)
            }),
            r == 0,
    {
        let f: u8 = self.fetch_data(nes);
        let result: u8 = f.wrapping_add(1);
        Self::cpu_write(nes, self.addr_abs, result);
        self.set_flag(FLAGS6502::Z, result == 0);
        self.set_flag(FLAGS6502::N, result & 0x80 != 0);
        0u8
    }

    /// Decrement the byte at the operand address, with wraparound; sets Zero and Negative.
    fn DEC(&mut self, nes: &mut NesData) -> (r: u8)
        ensures
            ({
                let f = spec_fetched(*old(self), old(nes)@);
                let result = f.wrapping_sub(1);
                *final(self) == (CPU6502 {
                    fetched_data: f,
                    status: spec_zn(old(self).status, result),
                    ..*old(self)
                }) && final(nes)@ == nes_cpu_write(old(nes)@, old(self).addr_abs, result)
            }),
            r == 0,
    {
        let f: u8 = self.fetch_data(nes);
        let result: u8 = f.wrapping_sub(1);
        Self::cpu_write(nes, self.addr_abs, result);
        self.set_flag(FLAGS6502::Z, result == 0);
        self.set_flag(FLAGS6502::N, result & 0x80 != 0);
        0u8
    }

    /// Decrement the X register, with wraparound.
    fn DEX(&mut self) -> (r: u8)
        ensures
            ({
                let r2 = old(self).x.wrapping_sub(1);
                *final(self) == (CPU6502 {
                    x: r2,
                    status: spec_zn(old(self).status, r2),
                    ..*old(self)
                })
            }),
            r == 0,
    {
        self.x = self.x.wrapping_sub(1);
        let r2: u8 = self.x;
        self.set_flag(FLAGS6502::Z, r2 == 0);
        self.set_flag(FLAGS6502::N, r2 & 0x80 != 0);
        0u8
    }

    /// Decrement the Y register, with wraparound.
    fn DEY(&mut self) -> (r: u8)
        ensures
            ({
                let r2 = old(self).y.wrapping_sub(1);
                *final(self) == (CPU6502 {
                    y: r2,
                    status: spec_zn(old(self).status, r2),
                    ..*old(self)
                })
            }),
            r == 0,
    {
        self.y = self.y.wrapping_sub(1);
        let r2: u8 = self.y;
        self.set_flag(FLAGS6502::Z, r2 == 0);
        self.set_flag(FLAGS6502::N, r2 & 0x80 != 0);
        0u8
    }

    /// Increment the X register, with wraparound.
    fn INX(&mut self) -> (r: u8)
        ensures
            ({
                let r2 = old(self).x.wrapping_add(1);
                *final(self) == (CPU6502 {
                    x: r2,
                    status: spec_zn(old(self).status, r2),
                    ..*old(self)
                })
            }),
            r == 0,
    {
        self.x = self.x.wrapping_add(1);
        let r2: u8 = self.x;
        self.set_flag(FLAGS6502::Z, r2 == 0);
        self.set_flag(FLAGS6502::N, r2 & 0x80 != 0);
        0u8
    }

    /// Increment the Y register, with wraparound.
    fn INY(&mut self) -> (r: u8)
        ensures
            ({
                let r2 = old(self).y.wrapping_add(1);
                *final(self) == (CPU6502 {
                    y: r2,
                    status: spec_zn(old(self).status, r2),
                    ..*old(self)
                })
            }),
            r == 0,
    {
        self.y = self.y.wrapping_add(1);
        let r2: u8 = self.y;
        self.set_flag(FLAGS6502::Z, r2 == 0);
        self.set_flag(FLAGS6502::N, r2 & 0x80 != 0);
        0u8
    }

    /// Branch when Carry is clear.
    fn BCC(&mut self) -> (r: u8)
        ensures
            *final(self) == spec_branch_exec(Mnemonic::BCC, *old(self)),
            r == 0,
    {
        if self.get_flag(FLAGS6502::C) == 0 {
            let dest: u16 = self.pc.wrapping_add(self.addr_rel);
            if (dest & 0xFF00) != (self.pc & 0xFF00) {
                self.cycles = self.cycles.wrapping_add(2);
            } else {
                self.cycles = self.cycles.wrapping_add(1);
            }
            self.addr_abs = dest;
            self.pc = dest;
        }
        0u8
    }

    /// Branch when Carry is set.
    fn BCS(&mut self) -> (r: u8)
        ensures
            *final(self) == spec_branch_exec(Mnemonic::BCS, *old(self)),
            r == 0,
    {
        if self.get_flag(FLAGS6502::C) == 1 {
            let dest: u16 = self.pc.wrapping_add(self.addr_rel);
            if (dest & 0xFF00) != (self.pc & 0xFF00) {
                self.cycles = self.cycles.wrapping_add(2);
            } else {
                self.cycles = self.cycles.wrapping_add(1);
            }
            self.addr_abs = dest;
            self.pc = dest;
        }
        0u8
    }

    /// Branch when Zero is set.
    fn BEQ(&mut self) -> (r: u8)
        ensures
            *final(self) == spec_branch_exec(Mnemonic::BEQ, *old(self)),
            r == 0,
    {
        if self.get_flag(FLAGS6502::Z) == 1 {
            let dest: u16 = self.pc.wrapping_add(self.addr_rel);
            if (dest & 0xFF00) != (self.pc & 0xFF00) {
                self.cycles = self.cycles.wrapping_add(2);
            } else {
                self.cycles = self.cycles.wrapping_add(1);
            }
            self.addr_abs = dest;
            self.pc = dest;
        }
        0u8
    }

    /// Branch when Negative is set.
    fn BMI(&mut self) -> (r: u8)
        ensures
            *final(self) == spec_branch_exec(Mnemonic::BMI, *old(self)),
            r == 0,
    {
        if self.get_flag(FLAGS6502::N) == 1 {
            let dest: u16 = self.pc.wrapping_add(self.addr_rel);
            if (dest & 0xFF00) != (self.pc & 0xFF00) {
                self.cycles = self.cycles.wrapping_add(2);
            } else {
                self.cycles = self.cycles.wrapping_add(1);
            }
            self.addr_abs = dest;
            self.pc = dest;
        }
        0u8
    }

    /// Branch when Zero is clear.
    fn BNE(&mut self) -> (r: u8)
        ensures
            *final(self) == spec_branch_exec(Mnemonic::BNE, *old(self)),
            r == 0,
    {
        if self.get_flag(FLAGS6502::Z) == 0 {
            let dest: u16 = self.pc.wrapping_add(self.addr_rel);
            if (dest & 0xFF00) != (self.pc & 0xFF00) {
                self.cycles = self.cycles.wrapping_add(2);
            } else {
                self.cycles = self.cycles.wrapping_add(1);
            }
            self.addr_abs = dest;
            self.pc = dest;
        }
        0u8
    }

    /// Branch when Negative is clear.
    fn BPL(&mut self) -> (r: u8)
        ensures
            *final(self) == spec_branch_exec(Mnemonic::BPL, *old(self)),
            r == 0,
    {
        if self.get_flag(FLAGS6502::N) == 0 {
            let dest: u16 = self.pc.wrapping_add(self.addr_rel);
            if (dest & 0xFF00) != (self.pc & 0xFF00) {
                self.cycles = self.cycles.wrapping_add(2);
            } else {
                self.cycles = self.cycles.wrapping_add(1);
            }
            self.addr_abs = dest;
            self.pc = dest;
        }
        0u8
    }

    /// Branch when Overflow is clear.
    fn BVC(&mut self) -> (r: u8)
        ensures
            *final(self) == spec_branch_exec(Mnemonic::BVC, *old(self)),
            r == 0,
    {
        if self.get_flag(FLAGS6502::V) == 0 {
            let dest: u16 = self.pc.wrapping_add(self.addr_rel);
            if (dest & 0xFF00) != (self.pc & 0xFF00) {
                self.cycles = self.cycles.wrapping_add(2);
            } else {
                self.cycles = self.cycles.wrapping_add(1);
            }
            self.addr_abs = dest;
            self.pc = dest;
        }
        0u8
    }

    /// Branch when Overflow is set.
    fn BVS(&mut self) -> (r: u8)
        ensures
            *final(self) == spec_branch_exec(Mnemonic::BVS, *old(self)),
            r == 0,
    {
        if self.get_flag(FLAGS6502::V) == 1 {
            let dest: u16 = self.pc.wrapping_add(self.addr_rel);
            if (dest & 0xFF00) != (self.pc & 0xFF00) {
                self.cycles = self.cycles.wrapping_add(2);
            } else {
                self.cycles = self.cycles.wrapping_add(1);
            }
            self.addr_abs = dest;
            self.pc = dest;
        }
        0u8
    }

    /// Clear the Carry flag.
    fn CLC(&mut self) -> (r: u8)
        ensures
            *final(self) == (CPU6502 {
                status: spec_set_flag(old(self).status, FLAGS6502::C, false),
                ..*old(self)
            }),
            r == 0,
    {
        self.set_flag(FLAGS6502::C, false);
        0u8
    }

    /// Clear the Decimal flag.
    fn CLD(&mut self) -> (r: u8)
        ensures
            *final(self) == (CPU6502 {
                status: spec_set_flag(old(self).status, FLAGS6502::D, false),
                ..*old(self)
            }),
            r == 0,
    {
        self.set_flag(FLAGS6502::D, false);
        0u8
    }

    /// Clear the InterruptDisable flag.
    fn CLI(&mut self) -> (r: u8)
        ensures
            *final(self) == (CPU6502 {
                status: spec_set_flag(old(self).status, FLAGS6502::I, false),
                ..*old(self)
            }),
            r == 0,
    {
        self.set_flag(FLAGS6502::I, false);
        0u8
    }

    /// Clear the Overflow flag.
    fn CLV(&mut self) -> (r: u8)
        ensures
            *final(self) == (CPU6502 {
                status: spec_set_flag(old(self).status, FLAGS6502::V, false),
                ..*old(self)
            }),
            r == 0,
    {
        self.set_flag(FLAGS6502::V, false);
        0u8
    }

    /// Set the Carry flag.
    fn SEC(&mut self) -> (r: u8)
        ensures
            *final(self) == (CPU6502 {
                status: spec_set_flag(old(self).status, FLAGS6502::C, true),
                ..*old(self)
            }),
            r == 0,
    {
        self.set_flag(FLAGS6502::C, true);
        0u8
    }

    /// Set the Decimal flag.
    fn SED(&mut self) -> (r: u8)
        ensures
            *final(self) == (CPU6502 {
                status: spec_set_flag(old(self).status, FLAGS6502::D, true),
                ..*old(self)
            }),
            r == 0,
    {
        self.set_flag(FLAGS6502::D, true);
        0u8
    }

    /// Set the InterruptDisable flag.
    fn SEI(&mut self) -> (r: u8)
        ensures
            *final(self) == (CPU6502 {
                status: spec_set_flag(old(self).status, FLAGS6502::I, true),
                ..*old(self)
            }),
            r == 0,
    {
        self.set_flag(FLAGS6502::I, true);
        0u8
    }

    /// Transfer the accumulator to X; sets Zero and Negative.
    fn TAX(&mut self) -> (r: u8)
        ensures
            *final(self) == (CPU6502 {
                x: old(self).a,
                status: spec_zn(old(self).status, old(self).a),
                ..*old(self)
            }),
            r == 0,
    {
        self.x = self.a;
        let r2: u8 = self.x;
        self.set_flag(FLAGS6502::Z, r2 == 0);
        self.set_flag(FLAGS6502::N, r2 & 0x80 != 0);
        0u8
    }

    /// Transfer the accumulator to Y; sets Zero and Negative.
    fn TAY(&mut self) -> (r: u8)
        ensures
            *final(self) == (CPU6502 {
                y: old(self).a,
                status: spec_zn(old(self).status, old(self).a),
                ..*old(self)
            }),
            r == 0,
    {
        self.y = self.a;
        let r2: u8 = self.y;
        self.set_flag(FLAGS6502::Z, r2 == 0);
        self.set_flag(FLAGS6502::N, r2 & 0x80 != 0);
        0u8
    }

    /// Transfer the stack pointer to X; sets Zero and Negative.
    fn TSX(&mut self) -> (r: u8)
        ensures
            *final(self) == (CPU6502 {
                x: old(self).stkp,
                status: spec_zn(old(self).status, old(self).stkp),
                ..*old(self)
            }),
            r == 0,
    {
        self.x = self.stkp;
        let r2: u8 = self.x;
        self.set_flag(FLAGS6502::Z, r2 == 0);
        self.set_flag(FLAGS6502::N, r2 & 0x80 != 0);
        0u8
    }

    /// Transfer X to the accumulator; sets Zero and Negative.
    fn TXA(&mut self) -> (r: u8)
        ensures
            *final(self) == (CPU6502 {
                a: old(self).x,
                status: spec_zn(old(self).status, old(self).x),
                ..*old(self)
            }),
            r == 0,
    {
        self.a = self.x;
        let r2: u8 = self.a;
        self.set_flag(FLAGS6502::Z, r2 == 0);
        self.set_flag(FLAGS6502::N, r2 & 0x80 != 0);
        0u8
    }

    /// Transfer Y to the accumulator; sets Zero and Negative.
    fn TYA(&mut self) -> (r: u8)
        ensures
            *final(self) == (CPU6502 {
                a: old(self).y,
                status: spec_zn(old(self).status, old(self).y),
                ..*old(self)
            }),
            r == 0,
    {
        self.a = self.y;
        let r2: u8 = self.a;
        self.set_flag(FLAGS6502::Z, r2 == 0);
        self.set_flag(FLAGS6502::N, r2 & 0x80 != 0);
        0u8
    }

    /// Transfer X to the stack pointer; no flags move.
    fn TXS(&mut self) -> (r: u8)
        ensures
            *final(self) == (CPU6502 { stkp: old(self).x, ..*old(self) }),
            r == 0,
    {
        self.stkp = self.x;
        0u8
    }

    /// Jump to the resolved absolute address.
    fn JMP(&mut self) -> (r: u8)
        ensures
            *final(self) == (CPU6502 { pc: old(self).addr_abs, ..*old(self) }),
            r == 0,
    {
        self.pc = self.addr_abs;
        0u8
    }

    /// No operation; opcode 0xFC is the one no-op that may cost a bonus cycle.
    fn NOP(&mut self) -> (r: u8)
        ensures
            *final(self) == *old(self),
            r == (if old(self).curr_opcode == 0xFC {
                1u8
            } else {
                0u8
            }),
    {
        if self.curr_opcode == 0xFC {
            1u8
        } else {
            0u8
        }
    }

    /// The catch-all for every undocumented opcode: a no-op contributing no cycles.
    fn XXX(&mut self) -> (r: u8)
        ensures
            *final(self) == *old(self),
            r == 0,
    {
        0u8
    }

    /// Store the accumulator at the operand address.
    fn STA(&mut self, nes: &mut NesData) -> (r: u8)
        ensures
            *final(self) == *old(self),
            final(nes)@ == nes_cpu_write(old(nes)@, old(self).addr_abs, old(self).a),
            r == 0,
    {
        Self::cpu_write(nes, self.addr_abs, self.a);
        0u8
    }

    /// Store the X register at the operand address.
    fn STX(&mut self, nes: &mut NesData) -> (r: u8)
        ensures
            *final(self) == *old(self),
            final(nes)@ == nes_cpu_write(old(nes)@, old(self).addr_abs, old(self).x),
            r == 0,
    {
        Self::cpu_write(nes, self.addr_abs, self.x);
        0u8
    }

    /// Store the Y register at the operand address.
    fn STY(&mut self, nes: &mut NesData) -> (r: u8)
        ensures
            *final(self) == *old(self),
            final(nes)@ == nes_cpu_write(old(nes)@, old(self).addr_abs, old(self).y),
            r == 0,
    {
        Self::cpu_write(nes, self.addr_abs, self.y);
        0u8
    }

    /// Push the accumulator onto the stack.
    fn PHA(&mut self, nes: &mut NesData) -> (r: u8)
        ensures
            *final(self) == (CPU6502 { stkp: old(self).stkp.wrapping_sub(1), ..*old(self) }),
            final(nes)@ == nes_cpu_write(old(nes)@, (0x0100 + old(self).stkp) as u16, old(self).a),
            r == 0,
    {
        Self::cpu_write(nes, 0x0100 + self.stkp as u16, self.a);
        self.stkp = self.stkp.wrapping_sub(1);
        0u8
    }

    /// Push the status byte with the Break bit set, then clear Break and Unused.
    fn PHP(&mut self, nes: &mut NesData) -> (r: u8)
        ensures
            *final(self) == (CPU6502 {
                stkp: old(self).stkp.wrapping_sub(1),
                status: spec_set_flag(
                    spec_set_flag(old(self).status, FLAGS6502::B, false),
                    FLAGS6502::U,
                    false,
                ),
                ..*old(self)
            }),
            final(nes)@ == nes_cpu_write(
                old(nes)@,
                (0x0100 + old(self).stkp) as u16,
                old(self).status | flag_mask(FLAGS6502::B),
            ),
            r == 0,
    {
        let mb: u8 = FLAGS6502::B.mask();
        Self::cpu_write(nes, 0x0100 + self.stkp as u16, self.status | mb);
        self.stkp = self.stkp.wrapping_sub(1);
        self.set_flag(FLAGS6502::B, false);
        self.set_flag(FLAGS6502::U, false);
        0u8
    }

    /// Pull the accumulator from the stack; sets Zero and Negative.
    fn PLA(&mut self, nes: &mut NesData) -> (r: u8)
        ensures
            ({
                let s1 = old(self).stkp.wrapping_add(1);
                let val = nes_cpu_read(old(nes)@, (0x0100 + s1) as u16);
                *final(self) == (CPU6502 {
                    stkp: s1,
                    a: val,
                    status: spec_zn(old(self).status, val),
                    ..*old(self)
                })
            }),
            *final(nes) == *old(nes),
            r == 0,
    {
        self.stkp = self.stkp.wrapping_add(1);
        self.a = Self::cpu_read(nes, 0x0100 + self.stkp as u16, true);
        let a2: u8 = self.a;
        self.set_flag(FLAGS6502::Z, a2 == 0);
        self.set_flag(FLAGS6502::N, a2 & 0x80 != 0);
        0u8
    }

    /// Pull the status byte from the stack.
    fn PLP(&mut self, nes: &mut NesData) -> (r: u8)
        ensures
            ({
                let s1 = old(self).stkp.wrapping_add(1);
                *final(self) == (CPU6502 {
                    stkp: s1,
                    status: nes_cpu_read(old(nes)@, (0x0100 + s1) as u16),
                    ..*old(self)
                })
            }),
            *final(nes) == *old(nes),
            r == 0,
    {
        self.stkp = self.stkp.wrapping_add(1);
        self.status = Self::cpu_read(nes, 0x0100 + self.stkp as u16, true);
        0u8
    }

    /// Jump to subroutine: push the decremented program counter, high byte then low byte, and jump.
    fn JSR(&mut self, nes: &mut NesData) -> (r: u8)
        ensures
            ({
                let ret = old(self).pc.wrapping_sub(1);
                let s1 = old(self).stkp.wrapping_sub(1);
                *final(self) == (CPU6502 {
                    pc: old(self).addr_abs,
                    stkp: s1.wrapping_sub(1),
                    ..*old(self)
                }) && final(nes)@ == nes_cpu_write(
                    nes_cpu_write(old(nes)@, (0x0100 + old(self).stkp) as u16, (ret / 0x100) as u8),
                    (0x0100 + s1) as u16,
                    (ret % 0x100) as u8,
                )
            }),
            r == 0,
    {
        self.pc = self.pc.wrapping_sub(1);
        Self::cpu_write(nes, 0x0100 + self.stkp as u16, (self.pc / 0x100) as u8);
        self.stkp = self.stkp.wrapping_sub(1);
        Self::cpu_write(nes, 0x0100 + self.stkp as u16, (self.pc % 0x100) as u8);
        self.stkp = self.stkp.wrapping_sub(1);
        self.pc = self.addr_abs;
        0u8
    }

    /// Return from subroutine: pull the program counter, low byte first, and step past the call's last byte.
    fn RTS(&mut self, nes: &mut NesData) -> (r: u8)
        ensures
            ({
                let s1 = old(self).stkp.wrapping_add(1);
                let s2 = s1.wrapping_add(1);
                let lo = nes_cpu_read(old(nes)@, (0x0100 + s1) as u16);
                let hi = nes_cpu_read(old(nes)@, (0x0100 + s2) as u16);
                *final(self) == (CPU6502 {
                    stkp: s2,
                    pc: (((hi * 0x100 + lo) as u16)).wrapping_add(1),
                    ..*old(self)
                })
            }),
            *final(nes) == *old(nes),
            r == 0,
    {
        self.stkp = self.stkp.wrapping_add(1);
        let lo: u16 = Self::cpu_read(nes, 0x0100 + self.stkp as u16, true) as u16;
        self.stkp = self.stkp.wrapping_add(1);
        let hi: u16 = Self::cpu_read(nes, 0x0100 + self.stkp as u16, true) as u16;
        self.pc = (hi * 0x100 + lo).wrapping_add(1);
        0u8
    }

    /// Return from interrupt: pull the status byte (Break and Unused cleared), then the program counter, low byte first.
    fn RTI(&mut self, nes: &mut NesData) -> (r: u8)
        ensures
            ({
                let s1 = old(self).stkp.wrapping_add(1);
                let s2 = s1.wrapping_add(1);
                let s3 = s2.wrapping_add(1);
                let st = (nes_cpu_read(old(nes)@, (0x0100 + s1) as u16) & !flag_mask(FLAGS6502::B))
                    & !flag_mask(FLAGS6502::U);
                let lo = nes_cpu_read(old(nes)@, (0x0100 + s2) as u16);
                let hi = nes_cpu_read(old(nes)@, (0x0100 + s3) as u16);
                *final(self) == (CPU6502 {
                    stkp: s3,
                    status: st,
                    pc: (hi * 0x100 + lo) as u16,
                    ..*old(self)
                })
            }),
            *final(nes) == *old(nes),
            r == 0,
    {
        self.stkp = self.stkp.wrapping_add(1);
        let mb: u8 = FLAGS6502::B.mask();
        let mu: u8 = FLAGS6502::U.mask();
        self.status = Self::cpu_read(nes, 0x0100 + self.stkp as u16, true);
        self.status = self.status & !mb;
        self.status = self.status & !mu;
        self.stkp = self.stkp.wrapping_add(1);
        let lo: u16 = Self::cpu_read(nes, 0x0100 + self.stkp as u16, true) as u16;
        self.stkp = self.stkp.wrapping_add(1);
        let hi: u16 = Self::cpu_read(nes, 0x0100 + self.stkp as u16, true) as u16;
        self.pc = hi * 0x100 + lo;
        0u8
    }

    /// Break: set the Break flag, push the program counter high byte, low byte, then the status byte, descending from the stack pointer, and load the program counter from the 0xFFFE vector.
    fn BRK(&mut self, nes: &mut NesData) -> (r: u8)
        ensures
            ({
                let (cpu2, v2) = spec_brk(*old(self), old(nes)@);
                *final(self) == cpu2 && final(nes)@ == v2
            }),
            r == 0,
    {
        self.set_flag(FLAGS6502::B, true);
        Self::cpu_write(nes, 0x0100 + self.stkp as u16, (self.pc / 0x100) as u8);
        self.stkp = self.stkp.wrapping_sub(1);
        Self::cpu_write(nes, 0x0100 + self.stkp as u16, (self.pc % 0x100) as u8);
        self.stkp = self.stkp.wrapping_sub(1);
        Self::cpu_write(nes, 0x0100 + self.stkp as u16, self.status);
        self.stkp = self.stkp.wrapping_sub(1);
        self.addr_abs = 0xFFFE;
        let lo: u16 = Self::cpu_read(nes, self.addr_abs, true) as u16;
        let hi: u16 = Self::cpu_read(nes, self.addr_abs + 1, true) as u16;
        self.pc = hi * 0x100 + lo;
        0u8
    }
}



/// The full effect of one operation on the processor and the bus: the
/// state after the handler for the mnemonic runs, together with the
/// operation's own bonus-cycle indicator. This is the operation handlers'
/// behaviour gathered into one function of the machine state.
pub open spec fn spec_apply_op(m: Mnemonic, cpu: CPU6502, v: NesView) -> (CPU6502, NesView, u8) {
    match m {
        Mnemonic::AND => {
            let f = spec_fetched(cpu, v);
            let a2 = cpu.a & f;
            (CPU6502 { a: a2, fetched_data: f, status: spec_zn(cpu.status, a2), ..cpu }, v, 1)
        },
        Mnemonic::EOR => {
            let f = spec_fetched(cpu, v);
            let a2 = cpu.a ^ f;
            (CPU6502 { a: a2, fetched_data: f, status: spec_zn(cpu.status, a2), ..cpu }, v, 1)
        },
        Mnemonic::ORA => {
            let f = spec_fetched(cpu, v);
            let a2 = cpu.a | f;
            (CPU6502 { a: a2, fetched_data: f, status: spec_zn(cpu.status, a2), ..cpu }, v, 1)
        },
        Mnemonic::LDA => {
            let f = spec_fetched(cpu, v);
            (CPU6502 { a: f, fetched_data: f, status: spec_zn(cpu.status, f), ..cpu }, v, 1)
        },
        Mnemonic::LDX => {
            let f = spec_fetched(cpu, v);
            (CPU6502 { x: f, fetched_data: f, status: spec_zn(cpu.status, f), ..cpu }, v, 1)
        },
        Mnemonic::LDY => {
            let f = spec_fetched(cpu, v);
            (CPU6502 { y: f, fetched_data: f, status: spec_zn(cpu.status, f), ..cpu }, v, 1)
        },
        Mnemonic::ADC => {
            let f = spec_fetched(cpu, v);
            let c = spec_get_flag(cpu.status, FLAGS6502::C);
            let result = ((cpu.a + f + c) % 0x100) as u8;
            let vflag = (!(cpu.a ^ f) & (cpu.a ^ result) & 0x80) != 0;
            (
                CPU6502 {
                    a: result,
                    fetched_data: f,
                    status: spec_set_flag(
                        spec_zn(
                            spec_set_flag(cpu.status, FLAGS6502::C, cpu.a + f + c > 0xFF),
                            result,
                        ),
                        FLAGS6502::V,
                        vflag,
                    ),
                    ..cpu
                },
                v,
                1,
            )
        },
        Mnemonic::SBC => {
            let f = spec_fetched(cpu, v);
            let value = f ^ 0xFF;
            let c = spec_get_flag(cpu.status, FLAGS6502::C);
            let result = ((cpu.a + value + c) % 0x100) as u8;
            let vflag = (!(cpu.a ^ value) & (cpu.a ^ result) & 0x80) != 0;
            (
                CPU6502 {
                    a: result,
                    fetched_data: f,
                    status: spec_set_flag(
                        spec_zn(
                            spec_set_flag(cpu.status, FLAGS6502::C, cpu.a + value + c > 0xFF),
                            result,
                        ),
                        FLAGS6502::V,
                        vflag,
                    ),
                    ..cpu
                },
                v,
                1,
            )
        },
        Mnemonic::CMP => {
            let f = spec_fetched(cpu, v);
            let diff = cpu.a.wrapping_sub(f);
            (
                CPU6502 {
                    fetched_data: f,
                    status: spec_set_flag(
                        spec_set_flag(
                            spec_set_flag(cpu.status, FLAGS6502::N, diff & 0x80 != 0),
                            FLAGS6502::Z,
                            cpu.a == f,
                        ),
                        FLAGS6502::C,
                        cpu.a >= f,
                    ),
                    ..cpu
                },
                v,
                1,
            )
        },
        Mnemonic::CPX => {
            let f = spec_fetched(cpu, v);
            let diff = cpu.x.wrapping_sub(f);
            (
                CPU6502 {
                    fetched_data: f,
                    status: spec_set_flag(
                        spec_set_flag(
                            spec_set_flag(cpu.status, FLAGS6502::N, diff & 0x80 != 0),
                            FLAGS6502::Z,
                            cpu.x == f,
                        ),
                        FLAGS6502::C,
                        cpu.x >= f,
                    ),
                    ..cpu
                },
                v,
                0,
            )
        },
        Mnemonic::CPY => {
            let f = spec_fetched(cpu, v);
            let diff = cpu.y.wrapping_sub(f);
            (
                CPU6502 {
                    fetched_data: f,
                    status: spec_set_flag(
                        spec_set_flag(
                            spec_set_flag(cpu.status, FLAGS6502::N, diff & 0x80 != 0),
                            FLAGS6502::Z,
                            cpu.y == f,
                        ),
                        FLAGS6502::C,
                        cpu.y >= f,
                    ),
                    ..cpu
                },
                v,
                0,
            )
        },
        Mnemonic::BIT => {
            let f = spec_fetched(cpu, v);
            (
                CPU6502 {
                    fetched_data: f,
                    status: spec_set_flag(
                        spec_set_flag(
                            spec_set_flag(cpu.status, FLAGS6502::Z, cpu.a & f == 0),
                            FLAGS6502::N,
                            f & 0x80 != 0,
                        ),
                        FLAGS6502::V,
                        f & 0x40 != 0,
                    ),
                    ..cpu
                },
                v,
                0,
            )
        },
        Mnemonic::ASL => {
            let f = spec_fetched(cpu, v);
            let result = ((f * 2) % 0x100) as u8;
            let st = spec_zn(spec_set_flag(cpu.status, FLAGS6502::C, f & 0x80 != 0), result);
            if spec_instruction(cpu.curr_opcode).addr_mode == AddrMode::IMP {
                (CPU6502 { a: result, fetched_data: f, status: st, ..cpu }, v, 0)
            } else {
                (
                    CPU6502 { fetched_data: f, status: st, ..cpu },
                    nes_cpu_write(v, cpu.addr_abs, result),
                    0,
                )
            }
        },
        Mnemonic::LSR => {
            let f = spec_fetched(cpu, v);
            let result = f / 2;
            let st = spec_zn(spec_set_flag(cpu.status, FLAGS6502::C, f & 0x01 != 0), result);
            if spec_instruction(cpu.curr_opcode).addr_mode == AddrMode::IMP {
                (CPU6502 { a: result, fetched_data: f, status: st, ..cpu }, v, 0)
            } else {
                (
                    CPU6502 { fetched_data: f, status: st, ..cpu },
                    nes_cpu_write(v, cpu.addr_abs, result),
                    0,
                )
            }
        },
        Mnemonic::ROL => {
            let f = spec_fetched(cpu, v);
            let c = spec_get_flag(cpu.status, FLAGS6502::C);
            let result = ((f * 2 + c) % 0x100) as u8;
            let st = spec_zn(spec_set_flag(cpu.status, FLAGS6502::C, f & 0x80 != 0), result);
            if spec_instruction(cpu.curr_opcode).addr_mode == AddrMode::IMP {
                (CPU6502 { a: result, fetched_data: f, status: st, ..cpu }, v, 0)
            } else {
                (
                    CPU6502 { fetched_data: f, status: st, ..cpu },
                    nes_cpu_write(v, cpu.addr_abs, result),
                    0,
                )
            }
        },
        Mnemonic::ROR => {
            let f = spec_fetched(cpu, v);
            let c = spec_get_flag(cpu.status, FLAGS6502::C);
            let result = (f / 2 + c * 0x80) as u8;
            let st = spec_zn(spec_set_flag(cpu.status, FLAGS6502::C, f & 0x01 != 0), result);
            if spec_instruction(cpu.curr_opcode).addr_mode == AddrMode::IMP {
                (CPU6502 { a: result, fetched_data: f, status: st, ..cpu }, v, 0)
            } else {
                (
                    CPU6502 { fetched_data: f, status: st, ..cpu },
                    nes_cpu_write(v, cpu.addr_abs, result),
                    0,
                )
            }
        },
        Mnemonic::INC => {
            let f = spec_fetched(cpu, v);
            let result = f.wrapping_add(1);
            (
                CPU6502 { fetched_data: f, status: spec_zn(cpu.status, result), ..cpu },
                nes_cpu_write(v, cpu.addr_abs, result),
                0,
            )
        },
        Mnemonic::DEC => {
            let f = spec_fetched(cpu, v);
            let result = f.wrapping_sub(1);
            (
                CPU6502 { fetched_data: f, status: spec_zn(cpu.status, result), ..cpu },
                nes_cpu_write(v, cpu.addr_abs, result),
                0,
            )
        },
        Mnemonic::DEX => {
            let r2 = cpu.x.wrapping_sub(1);
            (CPU6502 { x: r2, status: spec_zn(cpu.status, r2), ..cpu }, v, 0)
        },
        Mnemonic::DEY => {
            let r2 = cpu.y.wrapping_sub(1);
            (CPU6502 { y: r2, status: spec_zn(cpu.status, r2), ..cpu }, v, 0)
        },
        Mnemonic::INX => {
            let r2 = cpu.x.wrapping_add(1);
            (CPU6502 { x: r2, status: spec_zn(cpu.status, r2), ..cpu }, v, 0)
        },
        Mnemonic::INY => {
            let r2 = cpu.y.wrapping_add(1);
            (CPU6502 { y: r2, status: spec_zn(cpu.status, r2), ..cpu }, v, 0)
        },
        Mnemonic::BCC => (spec_branch_exec(Mnemonic::BCC, cpu), v, 0),
        Mnemonic::BCS => (spec_branch_exec(Mnemonic::BCS, cpu), v, 0),
        Mnemonic::BEQ => (spec_branch_exec(Mnemonic::BEQ, cpu), v, 0),
        Mnemonic::BMI => (spec_branch_exec(Mnemonic::BMI, cpu), v, 0),
        Mnemonic::BNE => (spec_branch_exec(Mnemonic::BNE, cpu), v, 0),
        Mnemonic::BPL => (spec_branch_exec(Mnemonic::BPL, cpu), v, 0),
        Mnemonic::BVC => (spec_branch_exec(Mnemonic::BVC, cpu), v, 0),
        Mnemonic::BVS => (spec_branch_exec(Mnemonic::BVS, cpu), v, 0),
        Mnemonic::CLC => (
            CPU6502 { status: spec_set_flag(cpu.status, FLAGS6502::C, false), ..cpu },
            v,
            0,
        ),
        Mnemonic::CLD => (
            CPU6502 { status: spec_set_flag(cpu.status, FLAGS6502::D, false), ..cpu },
            v,
            0,
        ),
        Mnemonic::CLI => (
            CPU6502 { status: spec_set_flag(cpu.status, FLAGS6502::I, false), ..cpu },
            v,
            0,
        ),
        Mnemonic::CLV => (
            CPU6502 { status: spec_set_flag(cpu.status, FLAGS6502::V, false), ..cpu },
            v,
            0,
        ),
        Mnemonic::SEC => (
            CPU6502 { status: spec_set_flag(cpu.status, FLAGS6502::C, true), ..cpu },
            v,
            0,
        ),
        Mnemonic::SED => (
            CPU6502 { status: spec_set_flag(cpu.status, FLAGS6502::D, true), ..cpu },
            v,
            0,
        ),
        Mnemonic::SEI => (
            CPU6502 { status: spec_set_flag(cpu.status, FLAGS6502::I, true), ..cpu },
            v,
            0,
        ),
        Mnemonic::TAX => (
            CPU6502 { x: cpu.a, status: spec_zn(cpu.status, cpu.a), ..cpu },
            v,
            0,
        ),
        Mnemonic::TAY => (
            CPU6502 { y: cpu.a, status: spec_zn(cpu.status, cpu.a), ..cpu },
            v,
            0,
        ),
        Mnemonic::TSX => (
            CPU6502 { x: cpu.stkp, status: spec_zn(cpu.status, cpu.stkp), ..cpu },
            v,
            0,
        ),
        Mnemonic::TXA => (
            CPU6502 { a: cpu.x, status: spec_zn(cpu.status, cpu.x), ..cpu },
            v,
            0,
        ),
        Mnemonic::TYA => (
            CPU6502 { a: cpu.y, status: spec_zn(cpu.status, cpu.y), ..cpu },
            v,
            0,
        ),
        Mnemonic::TXS => (CPU6502 { stkp: cpu.x, ..cpu }, v, 0),
        Mnemonic::JMP => (CPU6502 { pc: cpu.addr_abs, ..cpu }, v, 0),
        Mnemonic::JSR => {
            let ret = cpu.pc.wrapping_sub(1);
            let s1 = cpu.stkp.wrapping_sub(1);
            (
                CPU6502 { pc: cpu.addr_abs, stkp: s1.wrapping_sub(1), ..cpu },
                nes_cpu_write(
                    nes_cpu_write(v, (0x0100 + cpu.stkp) as u16, (ret / 0x100) as u8),
                    (0x0100 + s1) as u16,
                    (ret % 0x100) as u8,
                ),
                0,
            )
        },
        Mnemonic::RTS => {
            let s1 = cpu.stkp.wrapping_add(1);
            let s2 = s1.wrapping_add(1);
            let lo = nes_cpu_read(v, (0x0100 + s1) as u16);
            let hi = nes_cpu_read(v, (0x0100 + s2) as u16);
            (
                CPU6502 { stkp: s2, pc: (((hi * 0x100 + lo) as u16)).wrapping_add(1), ..cpu },
                v,
                0,
            )
        },
        Mnemonic::RTI => {
            let s1 = cpu.stkp.wrapping_add(1);
            let s2 = s1.wrapping_add(1);
            let s3 = s2.wrapping_add(1);
            let st = (nes_cpu_read(v, (0x0100 + s1) as u16) & !flag_mask(FLAGS6502::B))
                & !flag_mask(FLAGS6502::U);
            let lo = nes_cpu_read(v, (0x0100 + s2) as u16);
            let hi = nes_cpu_read(v, (0x0100 + s3) as u16);
            (
                CPU6502 { stkp: s3, status: st, pc: (hi * 0x100 + lo) as u16, ..cpu },
                v,
                0,
            )
        },
        Mnemonic::PHA => (
            CPU6502 { stkp: cpu.stkp.wrapping_sub(1), ..cpu },
            nes_cpu_write(v, (0x0100 + cpu.stkp) as u16, cpu.a),
            0,
        ),
        Mnemonic::PHP => (
            CPU6502 {
                stkp: cpu.stkp.wrapping_sub(1),
                status: spec_set_flag(
                    spec_set_flag(cpu.status, FLAGS6502::B, false),
                    FLAGS6502::U,
                    false,
                ),
                ..cpu
            },
            nes_cpu_write(v, (0x0100 + cpu.stkp) as u16, cpu.status | flag_mask(FLAGS6502::B)),
            0,
        ),
        Mnemonic::PLA => {
            let s1 = cpu.stkp.wrapping_add(1);
            let val = nes_cpu_read(v, (0x0100 + s1) as u16);
            (
                CPU6502 { stkp: s1, a: val, status: spec_zn(cpu.status, val), ..cpu },
                v,
                0,
            )
        },
        Mnemonic::PLP => {
            let s1 = cpu.stkp.wrapping_add(1);
            (
                CPU6502 { stkp: s1, status: nes_cpu_read(v, (0x0100 + s1) as u16), ..cpu },
                v,
                0,
            )
        },
        Mnemonic::STA => (cpu, nes_cpu_write(v, cpu.addr_abs, cpu.a), 0),
        Mnemonic::STX => (cpu, nes_cpu_write(v, cpu.addr_abs, cpu.x), 0),
        Mnemonic::STY => (cpu, nes_cpu_write(v, cpu.addr_abs, cpu.y), 0),
        Mnemonic::BRK => {
            let (cpu2, v2) = spec_brk(cpu, v);
            (cpu2, v2, 0)
        },
        Mnemonic::NOP => (
            cpu,
            v,
            if cpu.curr_opcode == 0xFC {
                1
            } else {
                0
            },
        ),
        Mnemonic::XXX => (cpu, v, 0),
    }
}


impl CpuApplyFunctions for CPU6502 {
    /// Dispatches to the operation the table entry names. The result is
    /// the operation's own bonus-cycle indicator, and only the branch
    /// operations move the cycle counter themselves.
    fn apply_op(&mut self, instruction: INSTRUCTION, nes: &mut NesData) -> (r: u8)
        ensures
            *final(self) == spec_apply_op(instruction.opcode, *old(self), old(nes)@).0,
            final(nes)@ == spec_apply_op(instruction.opcode, *old(self), old(nes)@).1,
            r == spec_apply_op(instruction.opcode, *old(self), old(nes)@).2,
            r == spec_op_extra(instruction.opcode, old(self).curr_opcode),
            final(self).cycles == old(self).cycles.wrapping_add(
                spec_branch_bonus(instruction.opcode, *old(self)),
            ),
    {
        match instruction.opcode {
            Mnemonic::ADC => self.ADC(nes),
            Mnemonic::AND => self.AND(nes),
            Mnemonic::ASL => self.ASL(nes),
            Mnemonic::BCC => self.BCC(),
            Mnemonic::BCS => self.BCS(),
            Mnemonic::BEQ => self.BEQ(),
            Mnemonic::BIT => self.BIT(nes),
            Mnemonic::BMI => self.BMI(),
            Mnemonic::BNE => self.BNE(),
            Mnemonic::BPL => self.BPL(),
            Mnemonic::BRK => self.BRK(nes),
            Mnemonic::BVC => self.BVC(),
            Mnemonic::BVS => self.BVS(),
            Mnemonic::CLC => self.CLC(),
            Mnemonic::CLD => self.CLD(),
            Mnemonic::CLI => self.CLI(),
            Mnemonic::CLV => self.CLV(),
            Mnemonic::CMP => self.CMP(nes),
            Mnemonic::CPX => self.CPX(nes),
            Mnemonic::CPY => self.CPY(nes),
            Mnemonic::DEC => self.DEC(nes),
            Mnemonic::DEX => self.DEX(),
            Mnemonic::DEY => self.DEY(),
            Mnemonic::EOR => self.EOR(nes),
            Mnemonic::INC => self.INC(nes),
            Mnemonic::INX => self.INX(),
            Mnemonic::INY => self.INY(),
            Mnemonic::JMP => self.JMP(),
            Mnemonic::JSR => self.JSR(nes),
            Mnemonic::LDA => self.LDA(nes),
            Mnemonic::LDX => self.LDX(nes),
            Mnemonic::LDY => self.LDY(nes),
            Mnemonic::LSR => self.LSR(nes),
            Mnemonic::NOP => self.NOP(),
            Mnemonic::ORA => self.ORA(nes),
            Mnemonic::PHA => self.PHA(nes),
            Mnemonic::PHP => self.PHP(nes),
            Mnemonic::PLA => self.PLA(nes),
            Mnemonic::PLP => self.PLP(nes),
            Mnemonic::ROL => self.ROL(nes),
            Mnemonic::ROR => self.ROR(nes),
            Mnemonic::RTI => self.RTI(nes),
            Mnemonic::RTS => self.RTS(nes),
            Mnemonic::SBC => self.SBC(nes),
            Mnemonic::SEC => self.SEC(),
            Mnemonic::SED => self.SED(),
            Mnemonic::SEI => self.SEI(),
            Mnemonic::STA => self.STA(nes),
            Mnemonic::STX => self.STX(nes),
            Mnemonic::STY => self.STY(nes),
            Mnemonic::TAX => self.TAX(),
            Mnemonic::TAY => self.TAY(),
            Mnemonic::TSX => self.TSX(),
            Mnemonic::TXA => self.TXA(),
            Mnemonic::TXS => self.TXS(),
            Mnemonic::TYA => self.TYA(),
            Mnemonic::XXX => self.XXX(),
        }
    }

    /// Dispatches to the addressing-mode resolver the table entry names,
    /// exactly as `spec_resolve` states; the undefined mode resolves
    /// nothing.
    fn apply_addressing_mode(&mut self, instruction: INSTRUCTION, nes: &mut NesData) -> (r: u8)
        ensures
            *final(self) == spec_resolve(instruction.addr_mode, *old(self), old(nes)@).0,
            r == spec_resolve(instruction.addr_mode, *old(self), old(nes)@).1,
            *final(nes) == *old(nes),
    {
        match instruction.addr_mode {
            AddrMode::IMP => self.IMP(),
            AddrMode::IMM => self.IMM(),
            AddrMode::ZP0 => self.ZP0(nes),
            AddrMode::ZPX => self.ZPX(nes),
            AddrMode::ZPY => self.ZPY(nes),
            AddrMode::REL => self.REL(nes),
            AddrMode::ABS => self.ABS(nes),
            AddrMode::ABX => self.ABX(nes),
            AddrMode::ABY => self.ABY(nes),
            AddrMode::IND => self.IND(nes),
            AddrMode::IZX => self.IZX(nes),
            AddrMode::IZY => self.IZY(nes),
            AddrMode::UNK => 0u8,
        }
    }
}

} // verus!
