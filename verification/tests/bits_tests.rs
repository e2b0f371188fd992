use nes_core::bits::{BitGet, ByteGet, InBetween, OverflowOp};
use nes_core::instruction::{get_lookup_list, instruction_entry, AddrMode, Mnemonic};

#[test]
fn bit_getters_u8() {
    assert!(0x80u8.get_high_bit());
    assert!(!0x7Fu8.get_high_bit());
    assert!(0x40u8.get_next_bit());
    assert!(!0xBFu8.get_next_bit());
    assert!(0x01u8.get_low_bit());
    assert!(!0xFEu8.get_low_bit());
    // bits are counted from the most significant side
    assert!(0x80u8.get_nth_bit(0));
    assert!(0x01u8.get_nth_bit(7));
    assert!(!0x80u8.get_nth_bit(1));
}

#[test]
fn bit_getters_u16() {
    assert!(0x8000u16.get_high_bit());
    assert!(!0x7FFFu16.get_high_bit());
    assert!(0x4000u16.get_next_bit());
    assert!(0x0001u16.get_low_bit());
    assert!(0x8000u16.get_nth_bit(0));
    assert!(0x0100u16.get_nth_bit(7));
    // the low half of a 16-bit word is reachable too
    assert!(0x0080u16.get_nth_bit(8));
    assert!(0x0001u16.get_nth_bit(15));
    assert!(!0x8000u16.get_nth_bit(15));
}

#[test]
fn byte_getters() {
    assert_eq!(0xABCDu16.get_high_byte(), 0xAB);
    assert_eq!(0xABCDu16.get_low_byte(), 0xCD);
    assert_eq!(0x00FFu16.get_high_byte(), 0x00);
    assert_eq!(0xFF00u16.get_low_byte(), 0x00);
}

#[test]
fn overflowing_arithmetic_wraps() {
    assert_eq!(0xFFu8.add_overflow(2), 0x01);
    assert_eq!(0x10u8.add_overflow(0x20), 0x30);
    assert_eq!(0x01u8.sub_overflow(3), 0xFE);
    assert_eq!(0x30u8.sub_overflow(0x10), 0x20);
}

#[test]
fn in_between_is_half_open() {
    assert!(0x2000u16.in_between(0x2000, 0x4000));
    assert!(0x3FFFu16.in_between(0x2000, 0x4000));
    assert!(!0x4000u16.in_between(0x2000, 0x4000));
    assert!(!0x1FFFu16.in_between(0x2000, 0x4000));
}

#[test]
fn lookup_table_known_entries() {
    let table = get_lookup_list();
    assert_eq!(table.len(), 256);
    let lda = &table[0xA9];
    assert_eq!(lda.opcode, Mnemonic::LDA);
    assert_eq!(lda.addr_mode, AddrMode::IMM);
    assert_eq!(lda.cycles, 2);
    let brk = &table[0x00];
    assert_eq!(brk.opcode, Mnemonic::BRK);
    assert_eq!(brk.cycles, 7);
    let asl_acc = &table[0x0A];
    assert_eq!(asl_acc.opcode, Mnemonic::ASL);
    assert_eq!(asl_acc.addr_mode, AddrMode::IMP);
    let sta_abx = &table[0x9D];
    assert_eq!(sta_abx.opcode, Mnemonic::STA);
    assert_eq!(sta_abx.addr_mode, AddrMode::ABX);
    assert_eq!(sta_abx.cycles, 5);
}

#[test]
fn lookup_table_undefined_entries() {
    let table = get_lookup_list();
    for op in [0x02u8, 0x03, 0x5B, 0xFC, 0xFF] {
        let e = &table[op as usize];
        assert_eq!(e.opcode, Mnemonic::XXX);
        assert_eq!(e.addr_mode, AddrMode::UNK);
        assert_eq!(e.cycles, 0);
    }
}

#[test]
fn instruction_entry_matches_table() {
    let table = get_lookup_list();
    for op in 0..=255u8 {
        assert_eq!(instruction_entry(op), table[op as usize]);
    }
}
