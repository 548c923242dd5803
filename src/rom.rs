//! The iNES cartridge format: a 16-byte header, an optional trainer, then the
//! program and character ROM banks.
use vstd::prelude::*;

verus! {

/// Bytes in the header.
pub const HEADER_LENGTH: usize = 16;
/// Bytes in the optional trainer that follows the header.
pub const TRAINER_LENGTH: usize = 512;
/// Bytes in one program ROM bank.
pub const PRG_ROM_PAGE_LENGTH: usize = 16384;
/// Bytes in one character ROM bank.
pub const CHR_ROM_PAGE_LENGTH: usize = 8192;

/// Flags 6, bit 0: vertical mirroring.
pub const VERTICAL: u8 = 0x01;
/// Flags 6, bit 2: a trainer precedes the program ROM.
pub const TRAINER: u8 = 0x04;
/// Flags 6, bit 3: four-screen VRAM.
pub const FOUR_SCREEN: u8 = 0x08;
/// Flags 7, bit 0: VS Unisystem.
pub const VS_UNISYSTEM: u8 = 0x01;
/// Flags 7, bit 1: PlayChoice-10.
pub const PLAYCHOICE_10: u8 = 0x02;
/// Flags 9, bit 0: PAL (clear: NTSC).
pub const TV_SYSTEM: u8 = 0x01;

/// Nametable mirroring.
#[derive(Clone, Copy, Debug, PartialEq, Eq, Structural)]
pub enum ScreenMode {
    Horizontal,
    Vertical,
    FourScreen,
}

/// The console the cartridge was made for.
#[derive(Clone, Copy, Debug, PartialEq, Eq, Structural)]
pub enum System {
    NES,
    VsUnisystem,
    PlayChoice10,
}

/// The television system.
#[derive(Clone, Copy, Debug, PartialEq, Eq, Structural)]
pub enum Region {
    PAL,
    NTSC,
}

/// Why a file is not an iNES image.
#[derive(Clone, Copy, Debug, PartialEq, Eq, Structural)]
pub enum RomError {
    /// The file does not start with `NES` and 0x1A.
    BadMagic,
    /// The file ends inside the header.
    TruncatedHeader,
    /// The header announces a trainer that the file does not hold.
    TruncatedTrainer,
    /// The file ends inside the program ROM.
    TruncatedProgram,
    /// The file ends inside the character ROM.
    TruncatedCharacter,
}

/// What the header says.
#[derive(Clone, Copy, Debug, PartialEq, Eq, Structural)]
pub struct Header {
    /// Program ROM size in 16 KiB banks.
    pub prg_size: usize,
    /// Character ROM size in 8 KiB banks.
    pub chr_size: usize,
    pub trainer: bool,
    pub screen_mode: ScreenMode,
    pub system: System,
    pub region: Region,
    pub mapper: u8,
}

/// A cartridge image: its header and its two ROMs.
#[derive(Debug)]
pub struct ROM {
    pub header: Header,
    pub prg_rom: Vec<u8>,
    pub chr_rom: Vec<u8>,
}

pub open spec fn screen_mode_of(flags6: u8) -> ScreenMode {
    if flags6 & FOUR_SCREEN != 0 {
        ScreenMode::FourScreen
    } else if flags6 & VERTICAL != 0 {
        ScreenMode::Vertical
    } else {
        ScreenMode::Horizontal
    }
}

pub open spec fn system_of(flags7: u8) -> System {
    if flags7 & VS_UNISYSTEM != 0 {
        System::VsUnisystem
    } else if flags7 & PLAYCHOICE_10 != 0 {
        System::PlayChoice10
    } else {
        System::NES
    }
}

pub open spec fn region_of(flags9: u8) -> Region {
    if flags9 & TV_SYSTEM != 0 {
        Region::PAL
    } else {
        Region::NTSC
    }
}

/// The mapper number: its high nibble from flags 7, its low nibble from flags 6.
pub open spec fn mapper_of(flags6: u8, flags7: u8) -> u8 {
    (flags7 & 0xf0) | (flags6 >> 4)
}

/// The header described by the size bytes and the flag bytes.
pub open spec fn header_spec(prg_size: usize, chr_size: usize, flags6: u8, flags7: u8, flags9: u8) -> Header {
    Header {
        prg_size,
        chr_size,
        trainer: flags6 & TRAINER != 0,
        screen_mode: screen_mode_of(flags6),
        system: system_of(flags7),
        region: region_of(flags9),
        mapper: mapper_of(flags6, flags7),
    }
}

/// The header that the first 16 bytes of `buf` spell out.
pub open spec fn parsed_header(buf: Seq<u8>) -> Header {
    header_spec(buf[4] as usize, buf[5] as usize, buf[6], buf[7], buf[9])
}

/// Whether `buf` starts with the iNES magic `NES` 0x1A.
pub open spec fn has_magic(buf: Seq<u8>) -> bool {
    buf.len() >= 4 && buf[0] == 0x4e && buf[1] == 0x45 && buf[2] == 0x53 && buf[3] == 0x1a
}

/// Offset of the program ROM.
pub open spec fn program_start(h: Header) -> int {
    HEADER_LENGTH + if h.trainer {
        TRAINER_LENGTH as int
    } else {
        0
    }
}

/// Offset just past the program ROM.
pub open spec fn program_end(h: Header) -> int {
    program_start(h) + h.prg_size * PRG_ROM_PAGE_LENGTH
}

/// Offset just past the character ROM.
pub open spec fn character_end(h: Header) -> int {
    program_end(h) + h.chr_size * CHR_ROM_PAGE_LENGTH
}

/// Why `buf` is not an iNES image, if it is not one; checked in file order.
pub open spec fn load_error(buf: Seq<u8>) -> Option<RomError> {
    if !has_magic(buf) {
        Some(RomError::BadMagic)
    } else if buf.len() < HEADER_LENGTH {
        Some(RomError::TruncatedHeader)
    } else if buf.len() < program_start(parsed_header(buf)) {
        Some(RomError::TruncatedTrainer)
    } else if buf.len() < program_end(parsed_header(buf)) {
        Some(RomError::TruncatedProgram)
    } else if buf.len() < character_end(parsed_header(buf)) {
        Some(RomError::TruncatedCharacter)
    } else {
        None
    }
}

impl ROM {
    fn new(header: Header, prg_rom: Vec<u8>, chr_rom: Vec<u8>) -> (r: ROM)
        ensures
            r.header == header,
            r.prg_rom@ == prg_rom@,
            r.chr_rom@ == chr_rom@,
    {
        ROM { header, prg_rom, chr_rom }
    }
}

impl Header {
    /// The header described by its fields as stored in the file. Bits that the
    /// format leaves unused are ignored; the program RAM size and flags 10 carry
    /// nothing this header keeps.
    pub fn new(
        prg_size: usize,
        chr_size: usize,
        flags6: u8,
        flags7: u8,
        prg_ram: u8,
        flags9: u8,
        flags10: u8,
    ) -> (r: Header)
        ensures
            r == header_spec(prg_size, chr_size, flags6, flags7, flags9),
    {
        let screen_mode = if flags6 & FOUR_SCREEN != 0 {
            ScreenMode::FourScreen
        } else if flags6 & VERTICAL != 0 {
            ScreenMode::Vertical
        } else {
            ScreenMode::Horizontal
        };
        let system = if flags7 & VS_UNISYSTEM != 0 {
            System::VsUnisystem
        } else if flags7 & PLAYCHOICE_10 != 0 {
            System::PlayChoice10
        } else {
            System::NES
        };
        let region = if flags9 & TV_SYSTEM != 0 {
            Region::PAL
        } else {
            Region::NTSC
        };
        Header {
            prg_size,
            chr_size,
            trainer: flags6 & TRAINER != 0,
            screen_mode,
            system,
            region,
            mapper: (flags7 & 0xf0) | (flags6 >> 4),
        }
    }
}

/// The bytes of `buf` from `start` up to `end`.
pub(crate) fn copy_range(buf: &Vec<u8>, start: usize, end: usize) -> (r: Vec<u8>)
    requires
        start <= end <= buf@.len(),
    ensures
        r@ == buf@.subrange(start as int, end as int),
{
    let mut r: Vec<u8> = Vec::new();
    let mut i = start;
    while i < end
        invariant
            start <= i <= end <= buf@.len(),
            r@ == buf@.subrange(start as int, i as int),
        decreases end - i,
    {
        r.push(buf[i]);
        i = i + 1;
        assert(r@ =~= buf@.subrange(start as int, i as int));
    }
    r
}

/// Reads an iNES image. Bytes after the character ROM are ignored.
pub fn load(buf: &Vec<u8>) -> (r: Result<ROM, RomError>)
    ensures
        match r {
            Ok(rom) => {
                &&& load_error(buf@) is None
                &&& rom.header == parsed_header(buf@)
                &&& rom.prg_rom@ == buf@.subrange(
                    program_start(rom.header),
                    program_end(rom.header),
                )
                &&& rom.chr_rom@ == buf@.subrange(
                    program_end(rom.header),
                    character_end(rom.header),
                )
            },
            Err(e) => load_error(buf@) == Some(e),
        },
{
    if buf.len() < 4 || buf[0] != 0x4e || buf[1] != 0x45 || buf[2] != 0x53 || buf[3] != 0x1a {
        return Err(RomError::BadMagic);
    }
    if buf.len() < HEADER_LENGTH {
        return Err(RomError::TruncatedHeader);
    }
    let header = Header::new(buf[4] as usize, buf[5] as usize, buf[6], buf[7], buf[8], buf[9], buf[10]);
    let start = if header.trainer {
        HEADER_LENGTH + TRAINER_LENGTH
    } else {
        HEADER_LENGTH
    };
    if buf.len() < start {
        return Err(RomError::TruncatedTrainer);
    }
    let program_end = start + header.prg_size * PRG_ROM_PAGE_LENGTH;
    if buf.len() < program_end {
        return Err(RomError::TruncatedProgram);
    }
    let character_end = program_end + header.chr_size * CHR_ROM_PAGE_LENGTH;
    if buf.len() < character_end {
        return Err(RomError::TruncatedCharacter);
    }
    let prg_rom = copy_range(buf, start, program_end);
    let chr_rom = copy_range(buf, program_end, character_end);
    Ok(ROM::new(header, prg_rom, chr_rom))
}

} // verus!
