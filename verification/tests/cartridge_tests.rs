use nes_core::cartridge::{Cartridge, LoadError};
use nes_core::mapper::Source;

/// Builds a cartridge image: a 16-byte header followed by the declared
/// program and character banks, all zero, with the given byte patches
/// applied at absolute offsets.
fn build_rom(prg_banks: u8, chr_banks: u8, flags_6: u8, patches: &[(usize, u8)]) -> Vec<u8> {
    let mut v = vec![0x4E, 0x45, 0x53, 0x1A, prg_banks, chr_banks, flags_6, 0, 0, 0, 0, 0, 0, 0, 0, 0];
    let trainer = if flags_6 & 0x04 != 0 { 512 } else { 0 };
    let body = trainer + prg_banks as usize * 0x4000 + chr_banks as usize * 0x2000;
    for _ in 0..body {
        v.push(0);
    }
    for &(off, b) in patches {
        v[off] = b;
    }
    v
}

#[test]
fn metroid_header() {
    let mut cartridge = Cartridge::new();
    // the mapper id joins the high nibbles of the two flag bytes:
    // flags_6 = 0x10 and flags_7 = 0 give id 1
    let rom = build_rom(8, 0, 0x10, &[]);
    cartridge.load(rom).unwrap();
    assert_eq!(cartridge.header.nb_prg_banks, 8);
    assert_eq!(cartridge.header.nb_chr_banks, 0);
    assert_eq!(cartridge.header.mapper_id(), 1);
    assert!(!cartridge.header.is_nes2());
    assert!(!cartridge.header.has_trainer());
}

#[test]
fn test_mapper1_read() {
    let mut cartridge = Cartridge::new();
    let prg0 = 16 + 0;
    let prg32 = 16 + 0x0032;
    let chr0 = 16 + 2 * 0x4000;
    let chr32 = 16 + 2 * 0x4000 + 0x0032;
    let rom = build_rom(2, 1, 0, &[(prg0, 0xA9), (prg32, 0x7E), (chr0, 0x11), (chr32, 0x22)]);
    cartridge.load(rom).unwrap();
    assert_eq!(cartridge.prg_memory[0], cartridge.cpu_read(0x8000));
    assert_eq!(cartridge.prg_memory[0x0032], cartridge.cpu_read(0x8000 + 0x0032));
    assert_eq!(cartridge.chr_memory[0], cartridge.ppu_read(0x0000));
    assert_eq!(cartridge.chr_memory[0x0032], cartridge.ppu_read(0x0032));
}

#[test]
fn load_rejects_short_header() {
    let mut cartridge = Cartridge::new();
    assert_eq!(cartridge.load(vec![0x4E, 0x45, 0x53]), Err(LoadError::HeaderTooShort));
}

#[test]
fn load_rejects_bad_magic() {
    let mut cartridge = Cartridge::new();
    let mut rom = build_rom(1, 0, 0, &[]);
    rom[3] = 0x00;
    assert_eq!(cartridge.load(rom), Err(LoadError::BadMagic));
}

#[test]
fn load_rejects_truncated_banks() {
    let mut cartridge = Cartridge::new();
    let mut rom = build_rom(1, 0, 0, &[]);
    rom.truncate(16 + 0x4000 - 1);
    assert_eq!(cartridge.load(rom), Err(LoadError::RomTruncated));
    // a failed load leaves the cartridge empty
    assert_eq!(cartridge.prg_memory.len(), 0);
}

#[test]
fn load_respects_trainer_offset() {
    let mut cartridge = Cartridge::new();
    // with the trainer bit set, program data starts 512 bytes later
    let rom = build_rom(1, 0, 0x04, &[(16 + 512, 0x5A)]);
    cartridge.load(rom).unwrap();
    assert!(cartridge.header.has_trainer());
    assert_eq!(cartridge.prg_memory[0], 0x5A);
    assert_eq!(cartridge.prg_memory.len(), 0x4000);
}

#[test]
fn load_slices_banks() {
    let mut cartridge = Cartridge::new();
    let rom = build_rom(1, 1, 0, &[(16 + 0x3FFF, 0xEE), (16 + 0x4000, 0xDD)]);
    cartridge.load(rom).unwrap();
    assert_eq!(cartridge.prg_memory.len(), 0x4000);
    assert_eq!(cartridge.chr_memory.len(), 0x2000);
    assert_eq!(cartridge.prg_memory[0x3FFF], 0xEE);
    assert_eq!(cartridge.chr_memory[0], 0xDD);
    assert_eq!(cartridge.mapper.nb_prg_banks, 1);
    assert_eq!(cartridge.mapper.nb_chr_banks, 1);
}

#[test]
fn to_vec_returns_raw_image() {
    let mut cartridge = Cartridge::new();
    let rom = build_rom(1, 0, 0, &[(16 + 7, 0x99)]);
    let copy = rom.clone();
    cartridge.load(rom).unwrap();
    assert_eq!(cartridge.to_vec(), copy);
}

#[test]
fn cartridge_writes_through_mapper() {
    let mut cartridge = Cartridge::new();
    let rom = build_rom(1, 1, 0, &[]);
    cartridge.load(rom).unwrap();
    cartridge.cpu_write(0x8123, 0x42);
    assert_eq!(cartridge.cpu_read(0x8123), 0x42);
    // one bank mirrors across the window
    assert_eq!(cartridge.cpu_read(0xC123), 0x42);
    cartridge.ppu_write(0x0FFF, 0x24);
    assert_eq!(cartridge.ppu_read(0x0FFF), 0x24);
    // below the window nothing is mapped: the write is dropped
    cartridge.cpu_write(0x5000, 0x11);
    assert_eq!(cartridge.cpu_read(0x5000), 0);
    assert_eq!(cartridge.ppu_read(0x1000), 0);
}
