//! The cartridge: raw ROM bytes, the parsed 16-byte header, and the
//! program/character ROM slices exposed to the buses through the mapper.
use vstd::prelude::*;

use crate::mapper::{spec_map, Mapper, Source};

verus! {

/// The parsed 16-byte header of a cartridge image.
#[derive(Clone, Copy, PartialEq, Eq, Debug)]
pub struct Header {
    /// The magic tag: `NES` followed by 0x1A.
    pub nes_validator: [u8; 4],
    /// Number of 16KiB program ROM banks.
    pub nb_prg_banks: u8,
    /// Number of 8KiB character ROM banks.
    pub nb_chr_banks: u8,
    /// Mapper low nibble, mirroring, battery, trainer.
    pub flags_6: u8,
    /// Mapper high nibble, console variant, header revision.
    pub flags_7: u8,
    /// Program RAM size, rarely used.
    pub flags_8: u8,
    /// TV system, rarely used.
    pub flags_9: u8,
    /// TV system and program RAM presence, rarely used.
    pub flags_10: u8,
    /// Reserved padding bytes.
    pub padding: [u8; 5],
}

/// The mapper id carried by a header: the high nibble of `flags_7` joined
/// with the high nibble of `flags_6`.
pub open spec fn spec_mapper_id(h: Header) -> u16 {
    (((h.flags_7 >> 4) << 4) | (h.flags_6 >> 4)) as u16
}

/// True when the trainer bit (bit 2 of `flags_6`) is set; a set bit means
/// 512 bytes of trainer data sit between the header and the program ROM.
pub open spec fn spec_has_trainer(h: Header) -> bool {
    h.flags_6 & 0x04 != 0
}

impl Header {
    /// Parses the first 16 bytes of a cartridge image.
    pub fn new(data: &[u8]) -> (r: Self)
        requires
            data@.len() >= 16,
        ensures
            r.nes_validator@ == data@.subrange(0, 4),
            r.nb_prg_banks == data@[4],
            r.nb_chr_banks == data@[5],
            r.flags_6 == data@[6],
            r.flags_7 == data@[7],
            r.flags_8 == data@[8],
            r.flags_9 == data@[9],
            r.flags_10 == data@[10],
            r.padding@ == data@.subrange(11, 16),
    {
        let r = Header {
            nes_validator: [data[0], data[1], data[2], data[3]],
            nb_prg_banks: data[4],
            nb_chr_banks: data[5],
            flags_6: data[6],
            flags_7: data[7],
            flags_8: data[8],
            flags_9: data[9],
            flags_10: data[10],
            padding: [data[11], data[12], data[13], data[14], data[15]],
        };
        proof {
            assert(r.nes_validator@ =~= data@.subrange(0, 4));
            assert(r.padding@ =~= data@.subrange(11, 16));
        }
        r
    }

    /// The mapper id: high nibble from `flags_7`, low nibble from the high
    /// nibble of `flags_6`.
    pub fn mapper_id(&self) -> (r: u16)
        ensures
            r == spec_mapper_id(*self),
    {
        (((self.flags_7 >> 4) << 4) | (self.flags_6 >> 4)) as u16
    }

    /// True when bits 2 and 3 of `flags_7` read 2: the extended header
    /// format.
    pub fn is_nes2(&self) -> (r: bool)
        ensures
            r == (self.flags_7 & 0x0C == 0x08),
    {
        self.flags_7 & 0x0C == 0x08
    }

    /// True when the trainer bit of `flags_6` is set.
    pub fn has_trainer(&self) -> (r: bool)
        ensures
            r == spec_has_trainer(*self),
    {
        self.flags_6 & 0x04 != 0
    }
}

impl Default for Header {
    /// An all-zero header, as an empty cartridge slot carries.
    fn default() -> (r: Self)
        ensures
            forall|i: int| 0 <= i < 4 ==> r.nes_validator@[i] == 0,
            r.nb_prg_banks == 0,
            r.nb_chr_banks == 0,
            r.flags_6 == 0,
            r.flags_7 == 0,
            r.flags_8 == 0,
            r.flags_9 == 0,
            r.flags_10 == 0,
            forall|i: int| 0 <= i < 5 ==> r.padding@[i] == 0,
    {
        Header {
            nes_validator: [0, 0, 0, 0],
            nb_prg_banks: 0,
            nb_chr_banks: 0,
            flags_6: 0,
            flags_7: 0,
            flags_8: 0,
            flags_9: 0,
            flags_10: 0,
            padding: [0, 0, 0, 0, 0],
        }
    }
}

/// Why a cartridge image was rejected at load time. Load-time failures are
/// fatal and surfaced to the caller before emulation starts.
#[derive(Clone, Copy, PartialEq, Eq, Structural, Debug)]
pub enum LoadError {
    /// The buffer does not even hold the 16-byte header.
    HeaderTooShort,
    /// The first four bytes are not the expected magic tag.
    BadMagic,
    /// The declared bank sizes exceed the bytes remaining after the header
    /// and optional trainer.
    RomTruncated,
}

/// The ghost image of a cartridge: its ROM bytes, parsed header, derived
/// bank slices and mapper state.
pub struct CartView {
    pub rom: Seq<u8>,
    pub header: Header,
    pub prg: Seq<u8>,
    pub chr: Seq<u8>,
    pub mapper: Mapper,
}

/// True when the first four bytes of an image are the magic tag.
pub open spec fn spec_magic_ok(s: Seq<u8>) -> bool {
    &&& s[0] == 0x4E
    &&& s[1] == 0x45
    &&& s[2] == 0x53
    &&& s[3] == 0x1A
}

/// Where the bank data of an image starts: after the 16-byte header and,
/// when the trainer bit is set, 512 further bytes.
pub open spec fn spec_data_offset(s: Seq<u8>) -> int {
    16 + if s[6] & 0x04 != 0 { 512int } else { 0int }
}

/// Total bytes of program ROM the header declares.
pub open spec fn spec_prg_size(s: Seq<u8>) -> int {
    s[4] * 0x4000
}

/// Total bytes of character ROM the header declares.
pub open spec fn spec_chr_size(s: Seq<u8>) -> int {
    s[5] * 0x2000
}

/// A cartridge image is loadable exactly when it holds a full header, the
/// magic tag matches, and the buffer holds all the declared bank bytes.
pub open spec fn spec_load_ok(s: Seq<u8>) -> bool {
    &&& s.len() >= 16
    &&& spec_magic_ok(s)
    &&& s.len() >= spec_data_offset(s) + spec_prg_size(s) + spec_chr_size(s)
}

/// What the processor bus reads from the cartridge: the mapper translates
/// the address; in-range offsets index the program ROM, everything else
/// reads as 0.
pub open spec fn spec_cart_cpu_read(c: CartView, addr: u16) -> u8 {
    match spec_map(c.mapper, Source::CPU, addr) {
        Some(off) => if off < c.prg.len() {
            c.prg[off as int]
        } else {
            0
        },
        None => 0,
    }
}

/// What the picture bus reads from the cartridge: translated offsets index
/// the character ROM, everything else reads as 0.
pub open spec fn spec_cart_ppu_read(c: CartView, addr: u16) -> u8 {
    match spec_map(c.mapper, Source::PPU, addr) {
        Some(off) => if off < c.chr.len() {
            c.chr[off as int]
        } else {
            0
        },
        None => 0,
    }
}

/// The cartridge after a processor-bus write: an in-range translated
/// offset updates the program ROM, any other write is dropped.
pub open spec fn spec_cart_cpu_write(c: CartView, addr: u16, data: u8) -> CartView {
    match spec_map(c.mapper, Source::CPU, addr) {
        Some(off) => if off < c.prg.len() {
            CartView { prg: c.prg.update(off as int, data), ..c }
        } else {
            c
        },
        None => c,
    }
}

/// The cartridge after a picture-bus write: an in-range translated offset
/// updates the character ROM, any other write is dropped.
pub open spec fn spec_cart_ppu_write(c: CartView, addr: u16, data: u8) -> CartView {
    match spec_map(c.mapper, Source::PPU, addr) {
        Some(off) => if off < c.chr.len() {
            CartView { chr: c.chr.update(off as int, data), ..c }
        } else {
            c
        },
        None => c,
    }
}

/// The cartridge: owns the raw ROM bytes and the bank slices the mapper
/// exposes to the two buses.
pub struct Cartridge {
    /// The raw ROM bytes of the loaded image.
    pub rom: Vec<u8>,
    pub header: Header,
    pub prg_memory: Vec<u8>,
    pub chr_memory: Vec<u8>,
    pub mapper: Mapper,
}

impl View for Cartridge {
    type V = CartView;

    open spec fn view(&self) -> CartView {
        CartView {
            rom: self.rom@,
            header: self.header,
            prg: self.prg_memory@,
            chr: self.chr_memory@,
            mapper: self.mapper,
        }
    }
}

/// Copies `len` bytes of `src` starting at `start` into a fresh vector.
fn copy_range(src: &Vec<u8>, start: usize, len: usize) -> (r: Vec<u8>)
    requires
        start + len <= src@.len(),
    ensures
        r@ == src@.subrange(start as int, start + len),
{
    let n: usize = src.len();
    let mut out: Vec<u8> = Vec::new();
    let mut i: usize = 0;
    while i < len
        invariant
            i <= len,
            start + len <= src@.len(),
            n == src@.len(),
            out@ == src@.subrange(start as int, start + i),
        decreases len - i,
    {
        assert(start + i < n);
        out.push(src[start + i]);
        proof {
            assert(out@ =~= src@.subrange(start as int, start + i + 1));
        }
        i = i + 1;
    }
    out
}

impl Cartridge {
    /// The bank slices hold exactly the bytes the mapper's bank counts
    /// declare.
    pub open spec fn wf(&self) -> bool {
        &&& self.prg_memory@.len() == self.mapper.nb_prg_banks * 0x4000
        &&& self.chr_memory@.len() == self.mapper.nb_chr_banks * 0x2000
    }

    /// An empty cartridge slot: no ROM, an all-zero header, a bankless
    /// mapper.
    pub fn new() -> (r: Self)
        ensures
            r@.rom.len() == 0,
            r@.prg.len() == 0,
            r@.chr.len() == 0,
            r@.header.nb_prg_banks == 0,
            r@.header.nb_chr_banks == 0,
            r@.mapper.mapper_id == 0,
            r@.mapper.nb_prg_banks == 0,
            r@.mapper.nb_chr_banks == 0,
            r.wf(),
    {
        Cartridge {
            rom: Vec::new(),
            header: Header::default(),
            mapper: Mapper::default(),
            prg_memory: Vec::new(),
            chr_memory: Vec::new(),
        }
    }

    /// Loads a cartridge image: validates the header, then slices the
    /// program and character ROM after the header and optional trainer.
    /// A malformed image is rejected and leaves the cartridge untouched.
    pub fn load(&mut self, data: Vec<u8>) -> (r: Result<(), LoadError>)
        ensures
            r is Ok <==> spec_load_ok(data@),
            data@.len() < 16 ==> r == Err::<(), LoadError>(LoadError::HeaderTooShort),
            data@.len() >= 16 && !spec_magic_ok(data@) ==> r == Err::<(), LoadError>(
                LoadError::BadMagic,
            ),
            data@.len() >= 16 && spec_magic_ok(data@) && !spec_load_ok(data@) ==> r == Err::<
                (),
                LoadError,
            >(LoadError::RomTruncated),
            !spec_load_ok(data@) ==> *final(self) == *old(self),
            spec_load_ok(data@) ==> {
                &&& final(self)@.rom == data@
                &&& final(self)@.header.nes_validator@ == data@.subrange(0, 4)
                &&& final(self)@.header.nb_prg_banks == data@[4]
                &&& final(self)@.header.nb_chr_banks == data@[5]
                &&& final(self)@.header.flags_6 == data@[6]
                &&& final(self)@.header.flags_7 == data@[7]
                &&& final(self)@.header.flags_8 == data@[8]
                &&& final(self)@.header.flags_9 == data@[9]
                &&& final(self)@.header.flags_10 == data@[10]
                &&& final(self)@.header.padding@ == data@.subrange(11, 16)
                &&& final(self)@.mapper.mapper_id == spec_mapper_id(final(self)@.header)
                &&& final(self)@.mapper.nb_prg_banks == data@[4]
                &&& final(self)@.mapper.nb_chr_banks == data@[5]
                &&& final(self)@.prg == data@.subrange(
                    spec_data_offset(data@),
                    spec_data_offset(data@) + spec_prg_size(data@),
                )
                &&& final(self)@.chr == data@.subrange(
                    spec_data_offset(data@) + spec_prg_size(data@),
                    spec_data_offset(data@) + spec_prg_size(data@) + spec_chr_size(data@),
                )
                &&& final(self).wf()
            },
    {
        if data.len() < 16 {
            return Err(LoadError::HeaderTooShort);
        }
        if !(data[0] == 0x4E && data[1] == 0x45 && data[2] == 0x53 && data[3] == 0x1A) {
            return Err(LoadError::BadMagic);
        }
        let header = Header::new(data.as_slice());
        let offset: usize = if header.has_trainer() {
            16 + 512
        } else {
            16
        };
        let prg_size: usize = header.nb_prg_banks as usize * 0x4000;
        let chr_size: usize = header.nb_chr_banks as usize * 0x2000;
        if data.len() < offset || data.len() - offset < prg_size || data.len() - offset - prg_size
            < chr_size {
            return Err(LoadError::RomTruncated);
        }
        self.mapper = Mapper::new(header);
        self.header = header;
        self.prg_memory = copy_range(&data, offset, prg_size);
        self.chr_memory = copy_range(&data, offset + prg_size, chr_size);
        self.rom = data;
        Ok(())
    }

    /// A copy of the raw ROM bytes.
    pub fn to_vec(&self) -> (r: Vec<u8>)
        ensures
            r@ == self@.rom,
    {
        let mut out: Vec<u8> = Vec::new();
        let mut i: usize = 0;
        while i < self.rom.len()
            invariant
                i <= self.rom@.len(),
                out@ == self.rom@.subrange(0, i as int),
            decreases self.rom@.len() - i,
        {
            out.push(self.rom[i]);
            proof {
                assert(out@ =~= self.rom@.subrange(0, i + 1));
            }
            i = i + 1;
        }
        proof {
            assert(out@ =~= self.rom@);
        }
        out
    }

    /// Picture-bus read through the mapper; unmapped or out-of-range
    /// accesses read as 0.
    pub fn ppu_read(&self, addr: u16) -> (r: u8)
        ensures
            r == spec_cart_ppu_read(self@, addr),
    {
        match self.mapper.map(Source::PPU, addr) {
            Some(a) => {
                if a < self.chr_memory.len() {
                    self.chr_memory[a]
                } else {
                    0
                }
            },
            None => 0,
        }
    }

    /// Processor-bus read through the mapper; unmapped or out-of-range
    /// accesses read as 0.
    pub fn cpu_read(&self, addr: u16) -> (r: u8)
        ensures
            r == spec_cart_cpu_read(self@, addr),
    {
        match self.mapper.map(Source::CPU, addr) {
            Some(a) => {
                if a < self.prg_memory.len() {
                    self.prg_memory[a]
                } else {
                    0
                }
            },
            None => 0,
        }
    }

    /// Picture-bus write through the mapper; unmapped or out-of-range
    /// writes are dropped.
    pub fn ppu_write(&mut self, addr: u16, data: u8)
        ensures
            final(self)@ == spec_cart_ppu_write(old(self)@, addr, data),
            final(self).wf() == old(self).wf(),
    {
        match self.mapper.map(Source::PPU, addr) {
            Some(a) => {
                if a < self.chr_memory.len() {
                    self.chr_memory.set(a, data);
                }
            },
            None => {},
        }
    }

    /// Processor-bus write through the mapper; unmapped or out-of-range
    /// writes are dropped.
    pub fn cpu_write(&mut self, addr: u16, data: u8)
        ensures
            final(self)@ == spec_cart_cpu_write(old(self)@, addr, data),
            final(self).wf() == old(self).wf(),
    {
        match self.mapper.map(Source::CPU, addr) {
            Some(a) => {
                if a < self.prg_memory.len() {
                    self.prg_memory.set(a, data);
                }
            },
            None => {},
        }
    }
}

} // verus!
