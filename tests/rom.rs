use mudkip::rom::{load, Header, Region, RomError, ScreenMode, System};

fn image(prg_banks: u8, chr_banks: u8, flags6: u8, flags7: u8, flags9: u8) -> Vec<u8> {
    let mut buf = vec![0x4e, 0x45, 0x53, 0x1a, prg_banks, chr_banks, flags6, flags7, 0, flags9, 0, 0, 0, 0, 0, 0];
    if flags6 & 0x04 != 0 {
        buf.extend(std::iter::repeat(0xee).take(512));
    }
    for i in 0..(prg_banks as usize * 16384) {
        buf.push((i % 251) as u8);
    }
    for i in 0..(chr_banks as usize * 8192) {
        buf.push((i % 13) as u8);
    }
    buf
}

#[test]
fn loads_program_and_character_rom() {
    let buf = image(1, 1, 0x01, 0x00, 0x00);
    let rom = load(&buf).unwrap();
    assert_eq!(rom.header.prg_size, 1);
    assert_eq!(rom.header.chr_size, 1);
    assert_eq!(rom.prg_rom.len(), 16384);
    assert_eq!(rom.chr_rom.len(), 8192);
    assert_eq!(rom.prg_rom[..], buf[16..16 + 16384]);
    assert_eq!(rom.chr_rom[..], buf[16 + 16384..]);
    assert!(!rom.header.trainer);
    assert_eq!(rom.header.screen_mode, ScreenMode::Vertical);
    assert_eq!(rom.header.system, System::NES);
    assert_eq!(rom.header.region, Region::NTSC);
}

#[test]
fn skips_trainer_and_ignores_trailing_bytes() {
    let mut buf = image(2, 0, 0x04, 0x00, 0x01);
    buf.push(0xaa);
    let rom = load(&buf).unwrap();
    assert!(rom.header.trainer);
    assert_eq!(rom.prg_rom.len(), 32768);
    assert_eq!(rom.prg_rom[0], 0);
    assert_eq!(rom.prg_rom[..], buf[16 + 512..16 + 512 + 32768]);
    assert!(rom.chr_rom.is_empty());
    assert_eq!(rom.header.region, Region::PAL);
}

#[test]
fn rejects_bad_magic() {
    let mut buf = image(1, 0, 0, 0, 0);
    buf[3] = 0x1b;
    assert_eq!(load(&buf).unwrap_err(), RomError::BadMagic);
    assert_eq!(load(&vec![0x4e, 0x45]).unwrap_err(), RomError::BadMagic);
    assert_eq!(load(&vec![]).unwrap_err(), RomError::BadMagic);
}

#[test]
fn rejects_truncated_header() {
    assert_eq!(load(&vec![0x4e, 0x45, 0x53, 0x1a, 1, 0]).unwrap_err(), RomError::TruncatedHeader);
}

#[test]
fn rejects_truncated_trainer() {
    let buf = image(1, 0, 0x04, 0, 0);
    assert_eq!(load(&buf[..16 + 100].to_vec()).unwrap_err(), RomError::TruncatedTrainer);
}

#[test]
fn rejects_truncated_program() {
    let buf = image(2, 1, 0, 0, 0);
    assert_eq!(load(&buf[..16 + 20000].to_vec()).unwrap_err(), RomError::TruncatedProgram);
}

#[test]
fn rejects_truncated_character_rom() {
    let buf = image(1, 1, 0, 0, 0);
    assert_eq!(load(&buf[..buf.len() - 1].to_vec()).unwrap_err(), RomError::TruncatedCharacter);
}

#[test]
fn header_flags_and_mapper() {
    let h = Header::new(2, 1, 0x18, 0x41, 0, 0x00, 0);
    assert_eq!(h.screen_mode, ScreenMode::FourScreen);
    assert_eq!(h.system, System::VsUnisystem);
    assert_eq!(h.region, Region::NTSC);
    assert_eq!(h.mapper, 0x41);
    assert!(!h.trainer);
    let h = Header::new(1, 0, 0x04, 0x02, 0, 0x01, 0);
    assert_eq!(h.screen_mode, ScreenMode::Horizontal);
    assert_eq!(h.system, System::PlayChoice10);
    assert_eq!(h.region, Region::PAL);
    assert_eq!(h.mapper, 0x00);
    assert!(h.trainer);
}
