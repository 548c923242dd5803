use mudkip::disassembler::{disassemble, disassemble_program};
use mudkip::instructions::{AddressingMode, Mnemonic};
use mudkip::rom::{load, Header, ROM};

#[test]
fn lists_each_instruction_with_its_operands() {
    let program = vec![0xa9, 0x05, 0x8d, 0x00, 0x02, 0xea, 0x02, 0x4c];
    let listing = disassemble_program(&program, 0xc000);
    assert_eq!(listing.len(), 5);
    assert_eq!(listing[0].address, 0xc000);
    assert_eq!(listing[0].mnemonic, Mnemonic::LDA);
    assert_eq!(listing[0].mode, AddressingMode::IMM);
    assert_eq!(listing[0].operands, vec![0x05]);
    assert_eq!(listing[0].operand_value(), 0x05);
    assert_eq!(listing[1].address, 0xc002);
    assert_eq!(listing[1].mnemonic, Mnemonic::STA);
    assert_eq!(listing[1].operands, vec![0x00, 0x02]);
    assert_eq!(listing[1].operand_value(), 0x0200);
    assert_eq!(listing[1].cycles, 4);
    assert_eq!(listing[2].mnemonic, Mnemonic::NOP);
    assert!(listing[2].operands.is_empty());
    assert_eq!(listing[2].operand_value(), 0);
    assert_eq!(listing[3].mnemonic, Mnemonic::UNKNOWN);
    assert_eq!(listing[3].length, 1);
    assert_eq!(listing[4].address, 0xc007);
    assert_eq!(listing[4].mnemonic, Mnemonic::JMP);
    assert!(listing[4].operands.is_empty());
}

#[test]
fn operand_word_is_little_endian() {
    let listing = disassemble_program(&vec![0x4c, 0x34, 0x12], 0);
    assert_eq!(listing[0].operand_value(), 0x1234);
}

#[test]
fn disassembles_rom_from_8000() {
    let mut buf = vec![0x4e, 0x45, 0x53, 0x1a, 1, 0, 0, 0, 0, 0, 0, 0, 0, 0, 0, 0];
    let mut prg = vec![0xea; 16384];
    prg[0] = 0x20;
    prg[1] = 0x10;
    prg[2] = 0x80;
    buf.extend(prg);
    let rom = load(&buf).unwrap();
    let listing = disassemble(&rom);
    assert_eq!(listing.len(), 1 + 16381);
    assert_eq!(listing[0].address, 0x8000);
    assert_eq!(listing[0].mnemonic, Mnemonic::JSR);
    assert_eq!(listing[0].operand_value(), 0x8010);
    assert_eq!(listing[1].address, 0x8003);
    assert_eq!(listing[16381].address, 0xbfff);
}

#[test]
fn empty_program_lists_nothing() {
    assert!(disassemble_program(&vec![], 0x8000).is_empty());
}

#[test]
fn lists_only_the_banks_the_header_declares() {
    let rom = ROM { header: Header::new(0, 0, 0, 0, 0, 0, 0), prg_rom: vec![0xea], chr_rom: vec![] };
    assert!(disassemble(&rom).is_empty());
    let mut prg = vec![0xea; 16384 + 3];
    prg[16384] = 0x4c;
    let rom = ROM { header: Header::new(1, 0, 0, 0, 0, 0, 0), prg_rom: prg, chr_rom: vec![] };
    let listing = disassemble(&rom);
    assert_eq!(listing.len(), 16384);
    assert_eq!(listing[16383].address, 0xbfff);
    assert_eq!(listing[16383].mnemonic, Mnemonic::NOP);
}

#[test]
fn declared_banks_beyond_the_rom_are_cut_off() {
    let rom = ROM { header: Header::new(2, 0, 0, 0, 0, 0, 0), prg_rom: vec![0xa9, 0x01, 0xea], chr_rom: vec![] };
    let listing = disassemble(&rom);
    assert_eq!(listing.len(), 2);
    assert_eq!(listing[0].mnemonic, Mnemonic::LDA);
    assert_eq!(listing[1].address, 0x8002);
}
