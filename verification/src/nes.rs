//! The console's memory bus: owns RAM and the register windows, delegates
//! cartridge-range accesses to the cartridge, and is the single authority
//! for classifying every 16-bit address into exactly one region.
use vstd::prelude::*;

use crate::cartridge::{
    spec_cart_cpu_read, spec_cart_cpu_write, spec_cart_ppu_read, spec_cart_ppu_write, CartView,
    Cartridge, LoadError,
};
use crate::ppu::{spec_ppu_classify, spec_nt_index, PpuView, PPU, PPUComponents};

verus! {

/// The six regions of the processor's address space. `NOCOMP` stands for
/// unmapped space: no address of the current map falls into it, and an
/// access routed there reads 0 and drops writes.
#[derive(Clone, Copy, PartialEq, Eq, Structural, Debug)]
pub enum NESComponents {
    RAM,
    APU,
    CARTRIDGE,
    PPU,
    APUDISABLED,
    NOCOMP,
}

/// Classifies an address into the component that answers it. The regions
/// are disjoint half-open ranges in ascending order: RAM below 0x2000,
/// the picture-unit register window below 0x4000, the audio registers
/// below 0x4018, the disabled audio range below 0x4020, and cartridge
/// space for everything above.
pub open spec fn spec_classify(addr: u16) -> NESComponents {
    if addr < 0x2000 {
        NESComponents::RAM
    } else if addr < 0x4000 {
        NESComponents::PPU
    } else if addr < 0x4018 {
        NESComponents::APU
    } else if addr < 0x4020 {
        NESComponents::APUDISABLED
    } else {
        NESComponents::CARTRIDGE
    }
}

/// Processor-space classification, as `spec_classify` states it.
pub fn classify(addr: u16) -> (r: NESComponents)
    ensures
        r == spec_classify(addr),
{
    if addr < 0x2000 {
        NESComponents::RAM
    } else if addr < 0x4000 {
        NESComponents::PPU
    } else if addr < 0x4018 {
        NESComponents::APU
    } else if addr < 0x4020 {
        NESComponents::APUDISABLED
    } else {
        NESComponents::CARTRIDGE
    }
}

/// Picture-space classification, as `spec_ppu_classify` states it.
pub fn classify_ppu(addr: u16) -> (r: PPUComponents)
    ensures
        r == spec_ppu_classify(addr),
{
    if addr < 0x2000 {
        PPUComponents::PATTERN
    } else if addr < 0x3F00 {
        PPUComponents::NAMETABLES
    } else {
        PPUComponents::PALLETTE
    }
}

/// Tells, for a bus address, which component answers it.
pub trait AddrWhere<T> {
    /// The region this address classifies into.
    spec fn addr_class(&self) -> T;

    fn to_where(&self) -> (r: T)
        ensures
            r == self.addr_class(),
    ;
}

impl AddrWhere<NESComponents> for u16 {
    /// Processor-space classification, exactly `spec_classify`.
    open spec fn addr_class(&self) -> NESComponents {
        spec_classify(*self)
    }

    fn to_where(&self) -> (r: NESComponents) {
        classify(*self)
    }
}

impl AddrWhere<PPUComponents> for u16 {
    /// Picture-space classification, exactly `spec_ppu_classify`.
    open spec fn addr_class(&self) -> PPUComponents {
        spec_ppu_classify(*self)
    }

    fn to_where(&self) -> (r: PPUComponents) {
        classify_ppu(*self)
    }
}

/// The ghost image of the whole bus-visible machine state.
pub struct NesView {
    pub ram: Seq<u8>,
    pub ppu_regs: Seq<u8>,
    pub apu_regs: Seq<u8>,
    pub cart: CartView,
    pub ppu: PpuView,
    pub clock_counter: u128,
}

/// What the processor bus reads at an address: RAM is mirrored every
/// 0x800 bytes, the eight picture-unit registers every 8 bytes, the audio
/// registers are indexed by their masked offset, the disabled audio range
/// and unmapped space read 0, and cartridge space goes through the mapper.
pub open spec fn nes_cpu_read(v: NesView, addr: u16) -> u8 {
    match spec_classify(addr) {
        NESComponents::RAM => v.ram[(addr & 0x07FF) as int],
        NESComponents::PPU => v.ppu_regs[(((addr - 0x2000) as u16) & 0x0007) as int],
        NESComponents::APU => v.apu_regs[(((addr - 0x4000) as u16) & 0x0017) as int],
        NESComponents::APUDISABLED => 0,
        NESComponents::CARTRIDGE => spec_cart_cpu_read(v.cart, addr),
        NESComponents::NOCOMP => 0,
    }
}

/// The machine state after a processor-bus write: the byte lands in the
/// region the address classifies into, under the same mirroring as reads;
/// writes to the disabled audio range and unmapped space are dropped.
pub open spec fn nes_cpu_write(v: NesView, addr: u16, data: u8) -> NesView {
    match spec_classify(addr) {
        NESComponents::RAM => NesView { ram: v.ram.update((addr & 0x07FF) as int, data), ..v },
        NESComponents::PPU => NesView {
            ppu_regs: v.ppu_regs.update((((addr - 0x2000) as u16) & 0x0007) as int, data),
            ..v
        },
        NESComponents::APU => NesView {
            apu_regs: v.apu_regs.update((((addr - 0x4000) as u16) & 0x0017) as int, data),
            ..v
        },
        NESComponents::APUDISABLED => v,
        NESComponents::CARTRIDGE => NesView { cart: spec_cart_cpu_write(v.cart, addr, data), ..v },
        NESComponents::NOCOMP => v,
    }
}

/// What the picture bus reads at an address: pattern space goes to the
/// cartridge's character ROM through the mapper; name tables and palette
/// entries come from the picture unit's own storage.
pub open spec fn nes_ppu_read(v: NesView, addr: u16) -> u8 {
    match spec_ppu_classify(addr) {
        PPUComponents::PATTERN => spec_cart_ppu_read(v.cart, addr),
        PPUComponents::NAMETABLES => v.ppu.names[spec_nt_index(addr)],
        PPUComponents::PALLETTE => v.ppu.pallette[(addr & 0x001F) as int],
    }
}

/// The machine state after a picture-bus write, routed the same way as
/// picture-bus reads.
pub open spec fn nes_ppu_write(v: NesView, addr: u16, data: u8) -> NesView {
    match spec_ppu_classify(addr) {
        PPUComponents::PATTERN => NesView { cart: spec_cart_ppu_write(v.cart, addr, data), ..v },
        PPUComponents::NAMETABLES => NesView {
            ppu: PpuView { names: v.ppu.names.update(spec_nt_index(addr), data), ..v.ppu },
            ..v
        },
        PPUComponents::PALLETTE => NesView {
            ppu: PpuView {
                pallette: v.ppu.pallette.update((addr & 0x001F) as int, data),
                ..v.ppu
            },
            ..v
        },
    }
}

/// Address classification is a total, disjoint partition: every address
/// falls into exactly the region its range says, and no address is left
/// unmapped.
pub proof fn lemma_address_partition(addr: u16)
    ensures
        spec_classify(addr) == NESComponents::RAM <==> addr < 0x2000,
        spec_classify(addr) == NESComponents::PPU <==> 0x2000 <= addr < 0x4000,
        spec_classify(addr) == NESComponents::APU <==> 0x4000 <= addr < 0x4018,
        spec_classify(addr) == NESComponents::APUDISABLED <==> 0x4018 <= addr < 0x4020,
        spec_classify(addr) == NESComponents::CARTRIDGE <==> 0x4020 <= addr,
        spec_classify(addr) != NESComponents::NOCOMP,
{
}

/// The bus-visible machine state: RAM, the two register windows, the
/// cartridge, the picture unit, and the master clock count.
pub struct NesData {
    /// 2KiB of RAM, mirrored across the region below 0x2000.
    pub ram: Vec<u8>,
    /// The cartridge answering for addresses from 0x4020 up.
    pub cartridge: Cartridge,
    /// The eight processor-visible picture-unit registers.
    pub ppu_registers: Vec<u8>,
    /// The audio-unit register window.
    pub apu_registers: Vec<u8>,
    /// The picture unit's own storage.
    pub ppu: PPU,
    /// Count of master clock edges.
    pub clock_counter: u128,
}

impl View for NesData {
    type V = NesView;

    open spec fn view(&self) -> NesView {
        NesView {
            ram: self.ram@,
            ppu_regs: self.ppu_registers@,
            apu_regs: self.apu_registers@,
            cart: self.cartridge@,
            ppu: self.ppu@,
            clock_counter: self.clock_counter,
        }
    }
}

/// Reads and writes over the two bus address spaces of the console.
pub trait DataActions {
    spec fn wf(&self) -> bool;

    fn cpu_write(&mut self, addr: u16, data: u8)
        requires
            old(self).wf(),
        ensures
            final(self).wf(),
    ;

    fn cpu_read(&mut self, addr: u16, read_only: bool) -> (r: u8)
        requires
            old(self).wf(),
        ensures
            final(self).wf(),
    ;

    fn ppu_write(&mut self, addr: u16, data: u8)
        requires
            old(self).wf(),
        ensures
            final(self).wf(),
    ;

    fn ppu_read(&mut self, addr: u16, read_only: bool) -> (r: u8)
        requires
            old(self).wf(),
        ensures
            final(self).wf(),
    ;
}

impl NesData {
    /// A powered-on console with an empty cartridge slot: all storage
    /// zeroed.
    pub fn new() -> (r: NesData)
        ensures
            r.wf(),
            forall|i: int| 0 <= i < 0x800 ==> r@.ram[i] == 0,
            forall|i: int| 0 <= i < 8 ==> r@.ppu_regs[i] == 0,
            forall|i: int| 0 <= i < 0x18 ==> r@.apu_regs[i] == 0,
            r@.cart.prg.len() == 0,
            r@.cart.chr.len() == 0,
            r@.cart.mapper.mapper_id == 0,
            r@.clock_counter == 0,
    {
        NesData {
            ram: vec![0u8; 0x800],
            cartridge: Cartridge::new(),
            ppu_registers: vec![0u8; 8],
            apu_registers: vec![0u8; 0x18],
            ppu: PPU::new(),
            clock_counter: 0,
        }
    }

    /// Loads a cartridge image into the slot; a malformed image is
    /// rejected, as at load time failures are fatal.
    pub fn insert_cartridge(&mut self, cartridge: Vec<u8>) -> (r: Result<(), LoadError>)
        requires
            old(self).wf(),
        ensures
            final(self).wf(),
            r is Ok <==> crate::cartridge::spec_load_ok(cartridge@),
            cartridge@.len() < 16 ==> r == Err::<(), LoadError>(LoadError::HeaderTooShort),
            cartridge@.len() >= 16 && !crate::cartridge::spec_magic_ok(cartridge@) ==> r == Err::<
                (),
                LoadError,
            >(LoadError::BadMagic),
            cartridge@.len() >= 16 && crate::cartridge::spec_magic_ok(cartridge@)
                && !crate::cartridge::spec_load_ok(cartridge@) ==> r == Err::<(), LoadError>(
                LoadError::RomTruncated,
            ),
            final(self).ram == old(self).ram,
            final(self).ppu_registers == old(self).ppu_registers,
            final(self).apu_registers == old(self).apu_registers,
            final(self).ppu == old(self).ppu,
            final(self).clock_counter == old(self).clock_counter,
            !crate::cartridge::spec_load_ok(cartridge@) ==> final(self).cartridge
                == old(self).cartridge,
            crate::cartridge::spec_load_ok(cartridge@) ==> {
                let off = crate::cartridge::spec_data_offset(cartridge@);
                let prg_size = crate::cartridge::spec_prg_size(cartridge@);
                let chr_size = crate::cartridge::spec_chr_size(cartridge@);
                &&& final(self)@.cart.rom == cartridge@
                &&& final(self)@.cart.prg == cartridge@.subrange(off, off + prg_size)
                &&& final(self)@.cart.chr == cartridge@.subrange(
                    off + prg_size,
                    off + prg_size + chr_size,
                )
                &&& final(self)@.cart.mapper.nb_prg_banks == cartridge@[4]
                &&& final(self)@.cart.mapper.nb_chr_banks == cartridge@[5]
                &&& final(self).cartridge.wf()
            },
    {
        self.cartridge.load(cartridge)
    }

    /// The console has no separate memory-clearing duty: RAM keeps its
    /// contents across a processor reset, so this changes nothing.
    pub fn reset_memory(&mut self)
        ensures
            *final(self) == *old(self),
    {
    }

    /// A master clock edge of the console itself; the picture and audio
    /// units render nothing here, so only the driver-visible state above
    /// carries, and this changes nothing.
    pub fn clock(&mut self)
        ensures
            *final(self) == *old(self),
    {
    }
}

impl DataActions for NesData {
    /// RAM holds 2KiB, the register windows their hardware sizes, and the
    /// picture unit its own storage sizes.
    open spec fn wf(&self) -> bool {
        &&& self.ram@.len() == 0x800
        &&& self.ppu_registers@.len() == 8
        &&& self.apu_registers@.len() == 0x18
        &&& self.ppu.wf()
    }

    /// A processor-bus write, routed as `nes_cpu_write` states.
    fn cpu_write(&mut self, addr: u16, data: u8)
        ensures
            final(self)@ == nes_cpu_write(old(self)@, addr, data),
    {
        proof {
            crate::bits::lemma_mask_bounds();
        }
        match classify(addr) {
            NESComponents::RAM => self.ram.set((addr & 0x07FF) as usize, data),
            NESComponents::APU => self.apu_registers.set(((addr - 0x4000) & 0x0017) as usize, data),
            NESComponents::PPU => self.ppu_registers.set(((addr - 0x2000) & 0x0007) as usize, data),
            NESComponents::CARTRIDGE => self.cartridge.cpu_write(addr, data),
            _ => (),
        }
    }

    /// A processor-bus read, routed as `nes_cpu_read` states; reading
    /// changes nothing, whether or not it is marked read-only.
    fn cpu_read(&mut self, addr: u16, read_only: bool) -> (r: u8)
        ensures
            r == nes_cpu_read(old(self)@, addr),
            *final(self) == *old(self),
    {
        proof {
            crate::bits::lemma_mask_bounds();
        }
        match classify(addr) {
            NESComponents::RAM => self.ram[(addr & 0x07FF) as usize],
            NESComponents::CARTRIDGE => self.cartridge.cpu_read(addr),
            NESComponents::PPU => self.ppu_registers[((addr - 0x2000) & 0x0007) as usize],
            NESComponents::APU => self.apu_registers[((addr - 0x4000) & 0x0017) as usize],
            _ => 0u8,
        }
    }

    /// A picture-bus write, routed as `nes_ppu_write` states: pattern
    /// space to the cartridge, name tables and palette to the picture
    /// unit's own storage.
    fn ppu_write(&mut self, addr: u16, data: u8)
        ensures
            final(self)@ == nes_ppu_write(old(self)@, addr, data),
    {
        proof {
            crate::bits::lemma_mask_bounds();
        }
        match classify_ppu(addr) {
            PPUComponents::PATTERN => self.cartridge.ppu_write(addr, data),
            PPUComponents::NAMETABLES => {
                let off: u16 = addr - 0x2000;
                let table: usize = if off & 0x0800 != 0 {
                    0x400
                } else {
                    0
                };
                self.ppu.names.set(table + (off & 0x03FF) as usize, data);
            },
            PPUComponents::PALLETTE => self.ppu.pallette.set((addr & 0x001F) as usize, data),
        }
    }

    /// A picture-bus read, routed as `nes_ppu_read` states; reading
    /// changes nothing.
    fn ppu_read(&mut self, addr: u16, read_only: bool) -> (r: u8)
        ensures
            r == nes_ppu_read(old(self)@, addr),
            *final(self) == *old(self),
    {
        proof {
            crate::bits::lemma_mask_bounds();
        }
        match classify_ppu(addr) {
            PPUComponents::PATTERN => self.cartridge.ppu_read(addr),
            PPUComponents::NAMETABLES => {
                let off: u16 = addr - 0x2000;
                let table: usize = if off & 0x0800 != 0 {
                    0x400
                } else {
                    0
                };
                self.ppu.names[table + (off & 0x03FF) as usize]
            },
            PPUComponents::PALLETTE => self.ppu.pallette[(addr & 0x001F) as usize],
        }
    }
}

} // verus!
