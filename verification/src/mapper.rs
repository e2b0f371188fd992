//! Cartridge-side address translation: a pure function from (source bus,
//! address, bank counts) to an optional offset into the cartridge ROM.
use vstd::prelude::*;

use crate::cartridge::Header;

verus! {

/// Which bus issued the access being translated.
#[derive(Clone, Copy, PartialEq, Eq, Structural, Debug)]
pub enum Source {
    CPU,
    PPU,
}

/// Mapper state: the mapper id and the bank counts, immutable after the
/// cartridge is loaded. The id selects a pure mapping function per access.
#[derive(Clone, Copy, PartialEq, Eq, Structural, Debug)]
pub struct Mapper {
    pub mapper_id: u16,
    pub nb_prg_banks: usize,
    pub nb_chr_banks: usize,
}

/// Translation rule of mapper 0 (NROM): processor-space addresses from
/// 0x8000 up map into program ROM, masked to one 16KiB bank when only one
/// bank is present and to 32KiB otherwise; picture-space addresses up to
/// 0x0FFF map straight into character ROM; everything else is unmapped.
pub open spec fn spec_mapper_000(m: Mapper, src: Source, addr: u16) -> Option<usize> {
    match src {
        Source::CPU => {
            if addr >= 0x8000 {
                if m.nb_prg_banks > 1 {
                    Some(((((addr - 0x8000) as u16) & 0x7FFF) as usize))
                } else {
                    Some(((((addr - 0x8000) as u16) & 0x3FFF) as usize))
                }
            } else {
                None
            }
        },
        Source::PPU => {
            if addr <= 0x0FFF {
                Some((addr as usize))
            } else {
                None
            }
        },
    }
}

/// The full translation function: mapper 0 follows its rule above; every
/// other mapper id maps no address, so accesses fall through as unmapped.
pub open spec fn spec_map(m: Mapper, src: Source, addr: u16) -> Option<usize> {
    if m.mapper_id == 0 {
        spec_mapper_000(m, src, addr)
    } else {
        None
    }
}

impl Default for Mapper {
    /// The mapper of an empty cartridge slot: id 0 with no banks.
    fn default() -> (r: Self)
        ensures
            r.mapper_id == 0,
            r.nb_prg_banks == 0,
            r.nb_chr_banks == 0,
    {
        Mapper { mapper_id: 0, nb_prg_banks: 0, nb_chr_banks: 0 }
    }
}

impl Mapper {
    /// Builds the mapper from a parsed cartridge header.
    pub fn new(header: Header) -> (r: Self)
        ensures
            r.mapper_id == crate::cartridge::spec_mapper_id(header),
            r.nb_prg_banks == header.nb_prg_banks as usize,
            r.nb_chr_banks == header.nb_chr_banks as usize,
    {
        Mapper {
            mapper_id: header.mapper_id(),
            nb_prg_banks: header.nb_prg_banks as usize,
            nb_chr_banks: header.nb_chr_banks as usize,
        }
    }

    /// General mapper function: translates an address of the given source
    /// bus into a ROM offset, or reports it unmapped.
    pub fn map(&self, src: Source, addr: u16) -> (r: Option<usize>)
        ensures
            r == spec_map(*self, src, addr),
    {
        match self.mapper_id {
            0 => self.mapper_000(src, addr),
            1 => self.mapper_001(src, addr),
            _ => None,
        }
    }

    /// Mapper 0 (NROM), as described on `spec_mapper_000`.
    fn mapper_000(&self, src: Source, addr: u16) -> (r: Option<usize>)
        ensures
            r == spec_mapper_000(*self, src, addr),
    {
        match src {
            Source::CPU => {
                if addr >= 0x8000 {
                    let off: u16 = addr - 0x8000;
                    if self.nb_prg_banks > 1 {
                        Some((off & 0x7FFF) as usize)
                    } else {
                        Some((off & 0x3FFF) as usize)
                    }
                } else {
                    None
                }
            },
            Source::PPU => {
                if addr <= 0x0FFF {
                    Some(addr as usize)
                } else {
                    None
                }
            },
        }
    }

    /// Mapper 1 is outside the supported set: it maps no address, so every
    /// access through it falls back to the unmapped default.
    fn mapper_001(&self, _src: Source, _addr: u16) -> (r: Option<usize>)
        ensures
            r == None::<usize>,
    {
        None
    }
}

/// For mapper 0 with one program bank, the whole processor window from
/// 0x8000 mirrors one 16KiB bank: the offset of `0x8000 + k` is
/// `k & 0x3FFF`. With two or more banks it is `k & 0x7FFF`.
pub proof fn lemma_mapper0_offset(m: Mapper, k: u16)
    requires
        m.mapper_id == 0,
        k <= 0x7FFF,
    ensures
        m.nb_prg_banks == 1 ==> spec_map(m, Source::CPU, (0x8000 + k) as u16) == Some((k & 0x3FFF) as usize),
        m.nb_prg_banks > 1 ==> spec_map(m, Source::CPU, (0x8000 + k) as u16) == Some((k & 0x7FFF) as usize),
{
    assert(((0x8000 + k) as u16 - 0x8000) as u16 == k);
}

} // verus!
