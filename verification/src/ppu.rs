//! The picture processing unit: its own name-table, pattern, palette and
//! object-attribute storage, addressed through a 14-bit address space.
use vstd::prelude::*;

verus! {

/// The three regions of the picture unit's own address space.
#[derive(Clone, Copy, PartialEq, Eq, Structural, Debug)]
pub enum PPUComponents {
    NAMETABLES,
    PATTERN,
    PALLETTE,
}

/// The ghost image of the picture unit's storage.
pub struct PpuView {
    pub names: Seq<u8>,
    pub pattern: Seq<u8>,
    pub pallette: Seq<u8>,
    pub oam: Seq<u8>,
}

/// Classification of a picture-space address: pattern data below 0x2000,
/// name tables up to 0x3F00, palette entries above.
pub open spec fn spec_ppu_classify(addr: u16) -> PPUComponents {
    if addr < 0x2000 {
        PPUComponents::PATTERN
    } else if addr < 0x3F00 {
        PPUComponents::NAMETABLES
    } else {
        PPUComponents::PALLETTE
    }
}

/// The index into the 2KiB name-table storage for a name-table address:
/// bit 11 of the offset from 0x2000 picks the table, the low ten bits the
/// byte within it.
pub open spec fn spec_nt_index(addr: u16) -> int {
    (if ((addr - 0x2000) as u16) & 0x0800 != 0 {
        0x400int
    } else {
        0int
    }) + (((addr - 0x2000) as u16) & 0x03FF)
}

/// What a read of the picture unit's own storage returns.
pub open spec fn spec_ppu_read(p: PpuView, addr: u16) -> u8 {
    match spec_ppu_classify(addr) {
        PPUComponents::PATTERN => p.pattern[addr as int],
        PPUComponents::NAMETABLES => p.names[spec_nt_index(addr)],
        PPUComponents::PALLETTE => p.pallette[(addr & 0x001F) as int],
    }
}

/// The picture unit's storage after a write to its own address space.
pub open spec fn spec_ppu_write(p: PpuView, addr: u16, data: u8) -> PpuView {
    match spec_ppu_classify(addr) {
        PPUComponents::PATTERN => PpuView { pattern: p.pattern.update(addr as int, data), ..p },
        PPUComponents::NAMETABLES => PpuView {
            names: p.names.update(spec_nt_index(addr), data),
            ..p
        },
        PPUComponents::PALLETTE => PpuView {
            pallette: p.pallette.update((addr & 0x001F) as int, data),
            ..p
        },
    }
}

/// The picture processing unit. It owns its two name tables (held as one
/// 2KiB block), its pattern storage, its palette entries and its object
/// attribute memory; the processor sees it only through the bus.
pub struct PPU {
    /// Name-table storage, two tables of 0x400 bytes each.
    pub names: Vec<u8>,
    /// Pattern storage, addresses below 0x2000.
    pub pattern: Vec<u8>,
    /// Palette storage, 32 entries mirrored over the palette range.
    pub pallette: Vec<u8>,
    /// Object attribute memory.
    pub oam: Vec<u8>,
}

impl View for PPU {
    type V = PpuView;

    open spec fn view(&self) -> PpuView {
        PpuView { names: self.names@, pattern: self.pattern@, pallette: self.pallette@, oam: self.oam@ }
    }
}

impl PPU {
    /// Each storage block holds exactly its hardware size.
    pub open spec fn wf(&self) -> bool {
        &&& self.names@.len() == 0x800
        &&& self.pattern@.len() == 0x2000
        &&& self.pallette@.len() == 0x20
        &&& self.oam@.len() == 256
    }

    /// A powered-on picture unit: all storage zeroed.
    pub fn new() -> (r: PPU)
        ensures
            r.wf(),
            forall|i: int| 0 <= i < 0x800 ==> r@.names[i] == 0,
            forall|i: int| 0 <= i < 0x2000 ==> r@.pattern[i] == 0,
            forall|i: int| 0 <= i < 0x20 ==> r@.pallette[i] == 0,
            forall|i: int| 0 <= i < 256 ==> r@.oam[i] == 0,
    {
        PPU {
            pattern: vec![0u8; 0x2000],
            pallette: vec![0u8; 0x20],
            oam: vec![0u8; 256],
            names: vec![0u8; 0x800],
        }
    }

    /// A read of the unit's own storage; the address is classified into
    /// pattern, name-table or palette space.
    pub fn read(&self, addr: u16, _read_only: bool) -> (r: u8)
        requires
            self.wf(),
        ensures
            r == spec_ppu_read(self@, addr),
    {
        proof {
            crate::bits::lemma_mask_bounds();
        }
        if addr < 0x2000 {
            self.pattern[addr as usize]
        } else if addr < 0x3F00 {
            let off: u16 = addr - 0x2000;
            let table: usize = if off & 0x0800 != 0 {
                0x400
            } else {
                0
            };
            self.names[table + (off & 0x03FF) as usize]
        } else {
            self.pallette[(addr & 0x001F) as usize]
        }
    }

    /// A write to the unit's own storage.
    pub fn write(&mut self, addr: u16, data: u8)
        requires
            old(self).wf(),
        ensures
            final(self)@ == spec_ppu_write(old(self)@, addr, data),
            final(self).wf(),
    {
        proof {
            crate::bits::lemma_mask_bounds();
        }
        if addr < 0x2000 {
            self.pattern.set(addr as usize, data);
        } else if addr < 0x3F00 {
            let off: u16 = addr - 0x2000;
            let table: usize = if off & 0x0800 != 0 {
                0x400
            } else {
                0
            };
            self.names.set(table + (off & 0x03FF) as usize, data);
        } else {
            self.pallette.set((addr & 0x001F) as usize, data);
        }
    }
}

impl Default for PPU {
    /// The same zeroed storage a freshly powered unit has.
    fn default() -> (r: Self)
        ensures
            r.wf(),
            forall|i: int| 0 <= i < 0x800 ==> r@.names[i] == 0,
            forall|i: int| 0 <= i < 0x2000 ==> r@.pattern[i] == 0,
            forall|i: int| 0 <= i < 0x20 ==> r@.pallette[i] == 0,
            forall|i: int| 0 <= i < 256 ==> r@.oam[i] == 0,
    {
        Self::new()
    }
}

} // verus!
