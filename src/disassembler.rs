//! Walks a program image instruction by instruction and lists what each one is.
use vstd::prelude::*;
use crate::instructions::{
    AddressingMode, Instruction, Mnemonic, decode, decoded, lemma_length_matches_mode,
};
use crate::memory::{le_word, word};
use crate::rom::{Header, PRG_ROM_PAGE_LENGTH, ROM, copy_range};

verus! {

/// Where the program ROM appears in the address space.
pub const PRG_ROM_ORIGIN: u16 = 0x8000;

/// One line of a listing: where the instruction sits, what it is, and the operand
/// bytes that follow it.
#[derive(Debug)]
pub struct InstructionDeNovo {
    pub address: u16,
    pub opcode: u8,
    pub mnemonic: Mnemonic,
    pub mode: AddressingMode,
    pub length: u8,
    pub cycles: u8,
    pub operands: Vec<u8>,
}

/// Offsets at which instructions start, walking `program` from `offset` on.
pub open spec fn line_starts(program: Seq<u8>, offset: int) -> Seq<int>
    decreases program.len() - offset,
    via line_starts_decreases
{
    if offset < 0 || offset >= program.len() {
        Seq::empty()
    } else {
        let next = offset + decoded(program[offset]).length;
        seq![offset] + if next < program.len() {
            line_starts(program, next)
        } else {
            Seq::empty()
        }
    }
}

#[via_fn]
proof fn line_starts_decreases(program: Seq<u8>, offset: int) {
    if 0 <= offset < program.len() {
        lemma_length_matches_mode(program[offset]);
    }
}

/// The operand bytes of the instruction at `offset`: those its length covers, cut
/// off at the end of the program.
pub open spec fn operands_at(program: Seq<u8>, offset: int) -> Seq<u8> {
    let end = offset + decoded(program[offset]).length;
    program.subrange(offset + 1, if end <= program.len() { end } else { program.len() as int })
}

/// Whether `line` lists the instruction at `offset` of a program placed at `origin`.
pub open spec fn lists(line: InstructionDeNovo, program: Seq<u8>, origin: u16, offset: int) -> bool {
    let ins = decoded(program[offset]);
    &&& line.address == ((origin + offset) % 0x10000) as u16
    &&& line.opcode == ins.opcode
    &&& line.mnemonic == ins.mnemonic
    &&& line.mode == ins.mode
    &&& line.length == ins.length
    &&& line.cycles == ins.cycles
    &&& line.operands@ == operands_at(program, offset)
}

/// Whether `listing` lists `program`, placed at `origin`, one line per instruction.
pub open spec fn is_listing(listing: Seq<InstructionDeNovo>, program: Seq<u8>, origin: u16) -> bool {
    let starts = line_starts(program, 0);
    &&& listing.len() == starts.len()
    &&& forall|i: int| 0 <= i < listing.len() ==> lists(#[trigger] listing[i], program, origin, starts[i])
}

impl InstructionDeNovo {
    /// The operand as a number: the byte of a one-byte operand, the little-endian
    /// word of a two-byte one, zero when there is none.
    pub fn operand_value(&self) -> (r: u16)
        ensures
            r == if self.operands@.len() >= 2 {
                word(self.operands@[0], self.operands@[1])
            } else if self.operands@.len() == 1 {
                self.operands@[0] as u16
            } else {
                0
            },
    {
        if self.operands.len() >= 2 {
            le_word(self.operands[0], self.operands[1])
        } else if self.operands.len() == 1 {
            self.operands[0] as u16
        } else {
            0
        }
    }
}

/// The line for the instruction at `offset`.
fn line_at(program: &Vec<u8>, origin: u16, offset: usize) -> (r: InstructionDeNovo)
    requires
        offset < program@.len(),
    ensures
        lists(r, program@, origin, offset as int),
{
    let ins: Instruction = decode(program[offset]);
    proof {
        lemma_length_matches_mode(program@[offset as int]);
    }
    let end = if program.len() - offset >= ins.length as usize {
        offset + ins.length as usize
    } else {
        program.len()
    };
    let mut operands: Vec<u8> = Vec::new();
    let mut i = offset + 1;
    while i < end
        invariant
            offset + 1 <= i <= end || (i == offset + 1 && end <= i),
            end <= program@.len(),
            operands@ == program@.subrange(offset + 1, i as int),
        decreases end - i,
    {
        operands.push(program[i]);
        i = i + 1;
        assert(operands@ =~= program@.subrange(offset + 1, i as int));
    }
    assert(operands@ =~= operands_at(program@, offset as int));
    InstructionDeNovo {
        address: origin.wrapping_add((offset % 0x10000) as u16),
        opcode: ins.opcode,
        mnemonic: ins.mnemonic,
        mode: ins.mode,
        length: ins.length,
        cycles: ins.cycles,
        operands,
    }
}

/// Lists `program`, placed at `origin`, instruction by instruction from its first byte.
pub fn disassemble_program(program: &Vec<u8>, origin: u16) -> (r: Vec<InstructionDeNovo>)
    ensures
        is_listing(r@, program@, origin),
{
    let mut listing: Vec<InstructionDeNovo> = Vec::new();
    let mut offset: usize = 0;
    let ghost mut done: Seq<int> = Seq::empty();
    while offset < program.len()
        invariant
            offset <= program@.len(),
            line_starts(program@, 0) == done + line_starts(program@, offset as int),
            listing@.len() == done.len(),
            forall|i: int|
                0 <= i < listing@.len() ==> lists(#[trigger] listing@[i], program@, origin, done[i]),
        decreases program@.len() - offset,
    {
        let line = line_at(program, origin, offset);
        let length = line.length;
        proof {
            lemma_length_matches_mode(program@[offset as int]);
            let rest = line_starts(program@, offset + length);
            assert(line_starts(program@, offset as int) == seq![offset as int] + rest);
            assert(done + line_starts(program@, offset as int) =~= done.push(offset as int) + rest);
            done = done.push(offset as int);
        }
        listing.push(line);
        if program.len() - offset <= length as usize {
            proof {
                assert(line_starts(program@, offset + length) == Seq::<int>::empty());
            }
            offset = program.len();
        } else {
            offset = offset + length as usize;
        }
    }
    proof {
        assert(line_starts(program@, offset as int) == Seq::<int>::empty());
        assert(done + Seq::<int>::empty() =~= done);
    }
    listing
}

/// How many bytes of a program ROM holding `available` bytes the header declares:
/// its banks, cut off at what the ROM holds.
pub open spec fn declared_length(h: Header, available: int) -> int {
    if h.prg_size * PRG_ROM_PAGE_LENGTH <= available {
        h.prg_size * PRG_ROM_PAGE_LENGTH
    } else {
        available
    }
}

/// Lists the program ROM banks that the header of `rom` declares, as they appear
/// from address `$8000`.
pub fn disassemble(rom: &ROM) -> (r: Vec<InstructionDeNovo>)
    ensures
        is_listing(
            r@,
            rom.prg_rom@.subrange(0, declared_length(rom.header, rom.prg_rom@.len() as int)),
            PRG_ROM_ORIGIN,
        ),
{
    let available = rom.prg_rom.len();
    let banks = rom.header.prg_size;
    let end = if banks <= available / PRG_ROM_PAGE_LENGTH {
        proof {
            assert(banks * PRG_ROM_PAGE_LENGTH <= available) by (nonlinear_arith)
                requires
                    banks <= available / PRG_ROM_PAGE_LENGTH,
                    PRG_ROM_PAGE_LENGTH == 16384,
            ;
        }
        banks * PRG_ROM_PAGE_LENGTH
    } else {
        proof {
            assert(banks * PRG_ROM_PAGE_LENGTH > available) by (nonlinear_arith)
                requires
                    banks > available / PRG_ROM_PAGE_LENGTH,
                    PRG_ROM_PAGE_LENGTH == 16384,
            ;
        }
        available
    };
    let program = copy_range(&rom.prg_rom, 0, end);
    disassemble_program(&program, PRG_ROM_ORIGIN)
}

} // verus!
