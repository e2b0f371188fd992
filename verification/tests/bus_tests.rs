use nes_core::bus::{Bus, BusActions};
use nes_core::nes::{classify, classify_ppu, AddrWhere, DataActions, NESComponents, NesData};
use nes_core::ppu::{PPUComponents, PPU};

#[test]
fn ram_mirroring() {
    // 0x0815 & 0x07FF == 0x0015: the same RAM cell behind two addresses
    let mut nes = NesData::new();
    nes.cpu_write(0x0815, 0x42);
    assert_eq!(nes.cpu_read(0x0015, true), 0x42);
    assert_eq!(nes.cpu_read(0x0815, false), 0x42);
    nes.cpu_write(0x1815, 0x43);
    assert_eq!(nes.cpu_read(0x0015, true), 0x43);
}

#[test]
fn classification_is_total_partition() {
    // every address falls in exactly the region its range names
    let cases: [(u16, NESComponents); 11] = [
        (0x0000, NESComponents::RAM),
        (0x1FFF, NESComponents::RAM),
        (0x2000, NESComponents::PPU),
        (0x3FFF, NESComponents::PPU),
        (0x4000, NESComponents::APU),
        (0x4017, NESComponents::APU),
        (0x4018, NESComponents::APUDISABLED),
        (0x401F, NESComponents::APUDISABLED),
        (0x4020, NESComponents::CARTRIDGE),
        (0x8000, NESComponents::CARTRIDGE),
        (0xFFFF, NESComponents::CARTRIDGE),
    ];
    for (addr, want) in cases {
        assert_eq!(classify(addr), want);
        let via_trait: NESComponents = addr.to_where();
        assert_eq!(via_trait, want);
    }
    for addr in 0..=0xFFFFu16 {
        assert_ne!(classify(addr), NESComponents::NOCOMP);
    }
}

#[test]
fn ppu_register_window_mirrors_every_8() {
    let mut nes = NesData::new();
    nes.cpu_write(0x2002, 0x5A);
    assert_eq!(nes.cpu_read(0x200A, true), 0x5A);
    assert_eq!(nes.cpu_read(0x3FFA, true), 0x5A);
}

#[test]
fn apu_window_reads_back_and_disabled_range_is_inert() {
    let mut nes = NesData::new();
    nes.cpu_write(0x4000, 0x21);
    assert_eq!(nes.cpu_read(0x4000, true), 0x21);
    // the disabled range drops writes and reads 0
    nes.cpu_write(0x4018, 0x77);
    assert_eq!(nes.cpu_read(0x4018, true), 0);
    // an empty cartridge slot reads 0 everywhere
    assert_eq!(nes.cpu_read(0x8000, true), 0);
}

#[test]
fn picture_bus_nametables_and_palette() {
    let mut nes = NesData::new();
    assert_eq!(classify_ppu(0x0000), PPUComponents::PATTERN);
    assert_eq!(classify_ppu(0x2000), PPUComponents::NAMETABLES);
    assert_eq!(classify_ppu(0x3EFF), PPUComponents::NAMETABLES);
    assert_eq!(classify_ppu(0x3F00), PPUComponents::PALLETTE);
    let via_trait: PPUComponents = 0x2400u16.to_where();
    assert_eq!(via_trait, PPUComponents::NAMETABLES);
    // table 0 and table 1 are distinct cells
    nes.ppu_write(0x2005, 0x11);
    nes.ppu_write(0x2805, 0x22);
    assert_eq!(nes.ppu_read(0x2005, true), 0x11);
    assert_eq!(nes.ppu_read(0x2805, true), 0x22);
    // palette entries sit behind the low five bits
    nes.ppu_write(0x3F10, 0x33);
    assert_eq!(nes.ppu_read(0x3F30, true), 0x33);
    // pattern space reads the (empty) cartridge
    assert_eq!(nes.ppu_read(0x0000, true), 0);
}

#[test]
fn ppu_own_storage_read_write() {
    let mut ppu = PPU::new();
    ppu.write(0x0032, 0x44);
    assert_eq!(ppu.read(0x0032, true), 0x44);
    ppu.write(0x2401, 0x55);
    assert_eq!(ppu.read(0x2401, true), 0x55);
    ppu.write(0x3F01, 0x66);
    assert_eq!(ppu.read(0x3F21, true), 0x66);
}

#[test]
fn flat_bus_read_write() {
    let mut bus = Bus::new();
    assert_eq!(bus.read(0x1234, true), 0);
    bus.write(0x1234, 0x99);
    assert_eq!(bus.read(0x1234, false), 0x99);
    // the last address is unmapped on this bus
    bus.write(0xFFFF, 0x11);
    assert_eq!(bus.read(0xFFFF, true), 0);
}

#[test]
fn nes_clock_and_reset_memory_change_nothing() {
    let mut nes = NesData::new();
    nes.cpu_write(0x0000, 0x12);
    nes.clock();
    nes.reset_memory();
    assert_eq!(nes.cpu_read(0x0000, true), 0x12);
    assert_eq!(nes.clock_counter, 0);
}
