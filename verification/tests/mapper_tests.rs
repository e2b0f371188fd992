use nes_core::cartridge::Header;
use nes_core::mapper::{Mapper, Source};

#[test]
fn mapper0_single_bank_offsets() {
    // with one program bank, map(CPU, 0x8000 + k) == k & 0x3FFF
    let m = Mapper { mapper_id: 0, nb_prg_banks: 1, nb_chr_banks: 1 };
    for k in [0u16, 1, 0x3FFF, 0x4000, 0x4001, 0x7FFF] {
        assert_eq!(m.map(Source::CPU, 0x8000 + k), Some((k & 0x3FFF) as usize));
    }
}

#[test]
fn mapper0_double_bank_offsets() {
    // with two program banks, map(CPU, 0x8000 + k) == k & 0x7FFF
    let m = Mapper { mapper_id: 0, nb_prg_banks: 2, nb_chr_banks: 1 };
    for k in [0u16, 1, 0x3FFF, 0x4000, 0x4001, 0x7FFF] {
        assert_eq!(m.map(Source::CPU, 0x8000 + k), Some((k & 0x7FFF) as usize));
    }
}

#[test]
fn mapper0_cpu_below_window_is_unmapped() {
    let m = Mapper { mapper_id: 0, nb_prg_banks: 1, nb_chr_banks: 1 };
    assert_eq!(m.map(Source::CPU, 0x0000), None);
    assert_eq!(m.map(Source::CPU, 0x4020), None);
    assert_eq!(m.map(Source::CPU, 0x7FFF), None);
    assert_eq!(m.map(Source::CPU, 0x8000), Some(0));
}

#[test]
fn mapper0_ppu_pattern_window() {
    let m = Mapper { mapper_id: 0, nb_prg_banks: 1, nb_chr_banks: 1 };
    assert_eq!(m.map(Source::PPU, 0x0000), Some(0));
    assert_eq!(m.map(Source::PPU, 0x0FFF), Some(0x0FFF));
    assert_eq!(m.map(Source::PPU, 0x1000), None);
}

#[test]
fn unknown_mapper_ids_map_nothing() {
    for id in [1u16, 2, 4, 255] {
        let m = Mapper { mapper_id: id, nb_prg_banks: 2, nb_chr_banks: 1 };
        assert_eq!(m.map(Source::CPU, 0x8000), None);
        assert_eq!(m.map(Source::PPU, 0x0000), None);
    }
}

#[test]
fn mapper_new_takes_header_metadata() {
    let header = Header {
        nes_validator: [0x4E, 0x45, 0x53, 0x1A],
        nb_prg_banks: 2,
        nb_chr_banks: 1,
        flags_6: 0x30,
        flags_7: 0x40,
        flags_8: 0,
        flags_9: 0,
        flags_10: 0,
        padding: [0, 0, 0, 0, 0],
    };
    // id joins the high nibble of flags_7 with the high nibble of flags_6
    assert_eq!(header.mapper_id(), 0x43);
    let m = Mapper::new(header);
    assert_eq!(m.mapper_id, 0x43);
    assert_eq!(m.nb_prg_banks, 2);
    assert_eq!(m.nb_chr_banks, 1);
}
