//! Processor state, power-up and reset, and operand resolution.
use vstd::prelude::*;
use crate::instructions::{AddressingMode, operand_bytes};
use crate::memory::{ADDRESS_SPACE, Memory, le_word, word};
use crate::status::{INTERRUPT, StatusRegister, with_flag, with_zn};

verus! {

/// First address of the stack page.
pub const STACK_PAGE: u16 = 0x0100;
/// Where the NMI handler's address is stored.
pub const NMI_VECTOR: u16 = 0xfffa;
/// Where the reset handler's address is stored.
pub const RESET_VECTOR: u16 = 0xfffc;
/// Where the IRQ and BRK handler's address is stored.
pub const IRQ_VECTOR: u16 = 0xfffe;
/// Status at power-up: interrupts inhibited, both reserved bits set.
pub const POWER_ON_STATUS: u8 = 0x34;

/// The programmer-visible registers other than the status register.
#[derive(Clone, Copy, Debug, PartialEq, Eq, Structural)]
pub struct CpuRegisters {
    /// Accumulator.
    pub a: u8,
    /// Index register X.
    pub x: u8,
    /// Index register Y.
    pub y: u8,
    /// Program counter: the next unconsumed instruction byte.
    pub pc: u16,
    /// Stack pointer: an offset into the stack page.
    pub s: u8,
}

impl CpuRegisters {
    fn new() -> (r: CpuRegisters)
        ensures
            r == (CpuRegisters { a: 0, x: 0, y: 0, pc: 0, s: 0 }),
    {
        CpuRegisters { a: 0, x: 0, y: 0, pc: 0, s: 0 }
    }
}

/// The processor: its registers and its status register. Memory is supplied per call.
#[derive(Clone, Copy, Debug, PartialEq, Eq, Structural)]
pub struct Cpu {
    pub registers: CpuRegisters,
    pub status: StatusRegister,
}

/// What an addressing mode resolved to.
#[derive(Clone, Copy, Debug, PartialEq, Eq, Structural)]
pub enum Operand {
    /// No operand.
    Implied,
    /// The accumulator.
    Accumulator,
    /// A value taken from the instruction stream.
    Immediate(u8),
    /// A memory address (for branches and jumps, the target).
    Address(u16),
}

/// A resolved operand, and whether indexing or a branch crossed a page.
#[derive(Clone, Copy, Debug, PartialEq, Eq, Structural)]
pub struct EffectiveOperand {
    pub operand: Operand,
    pub page_crossed: bool,
}

/// `v` reduced to a 16-bit address.
pub open spec fn wrap16(v: int) -> u16 {
    (v % 0x10000) as u16
}

/// `v` reduced to a byte.
pub open spec fn wrap8(v: int) -> u8 {
    (v % 0x100) as u8
}

/// The 256-byte page an address lies in.
pub open spec fn page(address: u16) -> u16 {
    address / 0x100
}

/// A byte read as a two's-complement offset.
pub open spec fn offset(v: u8) -> int {
    if v >= 0x80 {
        v - 0x100
    } else {
        v as int
    }
}

/// `c` with the accumulator set to `v`.
pub open spec fn with_a(c: Cpu, v: u8) -> Cpu {
    Cpu { registers: CpuRegisters { a: v, ..c.registers }, ..c }
}

/// `c` with index register X set to `v`.
pub open spec fn with_x(c: Cpu, v: u8) -> Cpu {
    Cpu { registers: CpuRegisters { x: v, ..c.registers }, ..c }
}

/// `c` with index register Y set to `v`.
pub open spec fn with_y(c: Cpu, v: u8) -> Cpu {
    Cpu { registers: CpuRegisters { y: v, ..c.registers }, ..c }
}

/// `c` with the stack pointer set to `v`.
pub open spec fn with_s(c: Cpu, v: u8) -> Cpu {
    Cpu { registers: CpuRegisters { s: v, ..c.registers }, ..c }
}

/// `c` with the program counter set to `v`.
pub open spec fn with_pc(c: Cpu, v: u16) -> Cpu {
    Cpu { registers: CpuRegisters { pc: v, ..c.registers }, ..c }
}

/// `c` with the status register holding `bits`.
pub open spec fn with_bits(c: Cpu, bits: u8) -> Cpu {
    Cpu { status: StatusRegister { bits }, ..c }
}

/// `c` with Zero and Negative describing `v`.
pub open spec fn with_zn_of(c: Cpu, v: u8) -> Cpu {
    with_bits(c, with_zn(c.status.bits, v))
}

/// The state at power-up: registers zeroed, interrupts inhibited.
pub open spec fn power_on_state() -> Cpu {
    Cpu {
        registers: CpuRegisters { a: 0, x: 0, y: 0, pc: 0, s: 0 },
        status: StatusRegister { bits: POWER_ON_STATUS },
    }
}

/// The reset signal: registers kept, stack pointer lowered by three, interrupts
/// inhibited, program counter loaded from the reset vector.
pub open spec fn reset_spec(c: Cpu, mem: Seq<u8>) -> Cpu {
    with_pc(
        with_s(with_bits(c, with_flag(c.status.bits, INTERRUPT, true)), wrap8(c.registers.s + 0xfd)),
        word_at(mem, RESET_VECTOR),
    )
}

/// The word stored at `address` and the address after it.
#[verifier::opaque]
pub open spec fn word_at(mem: Seq<u8>, address: u16) -> u16 {
    word(mem[address as int], mem[wrap16(address + 1) as int])
}

/// The word stored at zero-page address `z` and the next one, wrapping within the zero page.
#[verifier::opaque]
pub open spec fn zero_page_word(mem: Seq<u8>, z: u8) -> u16 {
    word(mem[z as int], mem[wrap8(z + 1) as int])
}

/// Where an indirect JMP reads the high byte of its target: the address after
/// the pointer, but without carrying into the page (the hardware's page-wrap bug).
#[verifier::opaque]
pub open spec fn indirect_high_address(pointer: u16) -> u16 {
    (pointer - pointer % 0x100 + (pointer % 0x100 + 1) % 0x100) as u16
}

/// Address of the stack slot that the stack pointer `s` designates.
pub open spec fn stack_address(s: u8) -> u16 {
    (STACK_PAGE + s) as u16
}

/// Pushes `v`: stored at the current slot, then the stack pointer moves down (wrapping).
pub open spec fn push_spec(c: Cpu, mem: Seq<u8>, v: u8) -> (Cpu, Seq<u8>) {
    (with_s(c, wrap8(c.registers.s + 0xff)), mem.update(stack_address(c.registers.s) as int, v))
}

/// Pulls a byte: the stack pointer moves up (wrapping), then the slot is read.
pub open spec fn pull_spec(c: Cpu, mem: Seq<u8>) -> (Cpu, u8) {
    let s = wrap8(c.registers.s + 1);
    (with_s(c, s), mem[stack_address(s) as int])
}

/// An operand that crossed no page.
pub open spec fn plain(operand: Operand) -> EffectiveOperand {
    EffectiveOperand { operand, page_crossed: false }
}

/// `base` indexed by `index`; the page is crossed when the sum leaves the base's page.
#[verifier::opaque]
pub open spec fn indexed(base: u16, index: u8) -> EffectiveOperand {
    let target = wrap16(base + index);
    EffectiveOperand { operand: Operand::Address(target), page_crossed: page(base) != page(target) }
}

/// A branch target: `next` (the address after the branch) plus the signed offset `b`.
#[verifier::opaque]
pub open spec fn relative(next: u16, b: u8) -> EffectiveOperand {
    let target = wrap16(next + offset(b));
    EffectiveOperand { operand: Operand::Address(target), page_crossed: page(next) != page(target) }
}

/// The operand that `mode` designates, with the program counter on the first operand byte.
pub open spec fn resolved_operand(mode: AddressingMode, c: Cpu, mem: Seq<u8>) -> EffectiveOperand {
    let pc = c.registers.pc;
    let b = mem[pc as int];
    let x = c.registers.x;
    let y = c.registers.y;
    match mode {
        AddressingMode::IMP | AddressingMode::UNKNOWN => plain(Operand::Implied),
        AddressingMode::ACC => plain(Operand::Accumulator),
        AddressingMode::IMM => plain(Operand::Immediate(b)),
        AddressingMode::ZPG => plain(Operand::Address(b as u16)),
        AddressingMode::ZPX => plain(Operand::Address(wrap8(b + x) as u16)),
        AddressingMode::ZPY => plain(Operand::Address(wrap8(b + y) as u16)),
        AddressingMode::ABS => plain(Operand::Address(word_at(mem, pc))),
        AddressingMode::ABX => indexed(word_at(mem, pc), x),
        AddressingMode::ABY => indexed(word_at(mem, pc), y),
        AddressingMode::IND => {
            let pointer = word_at(mem, pc);
            plain(
                Operand::Address(
                    word(mem[pointer as int], mem[indirect_high_address(pointer) as int]),
                ),
            )
        },
        AddressingMode::IDX => plain(Operand::Address(zero_page_word(mem, wrap8(b + x)))),
        AddressingMode::IDY => indexed(zero_page_word(mem, b), y),
        AddressingMode::REL => relative(wrap16(pc + 1), b),
    }
}

/// Resolving `mode`: the operand, and the state with the program counter moved
/// past the operand bytes.
pub open spec fn resolve_spec(mode: AddressingMode, c: Cpu, mem: Seq<u8>) -> (EffectiveOperand, Cpu) {
    (resolved_operand(mode, c, mem), with_pc(c, wrap16(c.registers.pc + operand_bytes(mode))))
}

impl Cpu {
    /// A processor in its power-up state.
    pub fn new() -> (r: Cpu)
        ensures
            r == power_on_state(),
    {
        Cpu { registers: CpuRegisters::new(), status: StatusRegister::from_bits(POWER_ON_STATUS) }
    }

    /// Puts the processor in its power-up state: registers zeroed, interrupts inhibited.
    pub fn power_on(&mut self)
        ensures
            *final(self) == power_on_state(),
    {
        self.registers = CpuRegisters::new();
        self.status = StatusRegister::from_bits(POWER_ON_STATUS);
    }

    /// The reset signal: registers kept, stack pointer lowered by three, interrupts
    /// inhibited, program counter loaded from the reset vector.
    pub fn reset<M: Memory>(&mut self, mem: &M)
        requires
            mem.contents().len() == ADDRESS_SPACE,
        ensures
            *final(self) == reset_spec(*old(self), mem.contents()),
    {
        self.registers.s = self.registers.s.wrapping_sub(3);
        self.status.set(INTERRUPT, true);
        self.registers.pc = self.read_vector(mem, RESET_VECTOR);
    }

    pub(crate) fn read_vector<M: Memory>(&self, mem: &M, vector: u16) -> (r: u16)
        requires
            mem.contents().len() == ADDRESS_SPACE,
            vector == NMI_VECTOR || vector == RESET_VECTOR || vector == IRQ_VECTOR,
        ensures
            r == word_at(mem.contents(), vector),
    {
        reveal(word_at);
        let lo = mem.read(vector);
        let hi = mem.read(vector + 1);
        le_word(lo, hi)
    }

    /// Reads the byte at the program counter and moves past it.
    pub(crate) fn read_one<M: Memory>(&mut self, mem: &M) -> (r: u8)
        requires
            mem.contents().len() == ADDRESS_SPACE,
        ensures
            r == mem.contents()[old(self).registers.pc as int],
            *final(self) == with_pc(*old(self), wrap16(old(self).registers.pc + 1)),
    {
        let pc = self.registers.pc;
        self.registers.pc = pc.wrapping_add(1);
        mem.read(pc)
    }

    /// Reads the byte at the program counter as a zero-page address and moves past it.
    fn read_one_indexed<M: Memory>(&mut self, mem: &M) -> (r: u16)
        requires
            mem.contents().len() == ADDRESS_SPACE,
        ensures
            r == mem.contents()[old(self).registers.pc as int] as u16,
            *final(self) == with_pc(*old(self), wrap16(old(self).registers.pc + 1)),
    {
        self.read_one(mem) as u16
    }

    /// Reads the little-endian word at the program counter and moves past it.
    fn read_word<M: Memory>(&mut self, mem: &M) -> (r: u16)
        requires
            mem.contents().len() == ADDRESS_SPACE,
        ensures
            r == word_at(mem.contents(), old(self).registers.pc),
            *final(self) == with_pc(*old(self), wrap16(old(self).registers.pc + 2)),
    {
        reveal(word_at);
        let lo = self.read_one(mem);
        let hi = self.read_one(mem);
        le_word(lo, hi)
    }

    /// The word at zero-page address `z`, its high byte read from `z + 1` within the zero page.
    fn read_zero_page_word<M: Memory>(&self, mem: &M, z: u8) -> (r: u16)
        requires
            mem.contents().len() == ADDRESS_SPACE,
        ensures
            r == zero_page_word(mem.contents(), z),
    {
        reveal(zero_page_word);
        let lo = mem.read(z as u16);
        let hi = mem.read(z.wrapping_add(1) as u16);
        le_word(lo, hi)
    }

    fn index_operand(base: u16, index: u8) -> (r: EffectiveOperand)
        ensures
            r == indexed(base, index),
    {
        reveal(indexed);
        let target = base.wrapping_add(index as u16);
        EffectiveOperand {
            operand: Operand::Address(target),
            page_crossed: base / 0x100 != target / 0x100,
        }
    }

    fn relative_operand(next: u16, b: u8) -> (r: EffectiveOperand)
        ensures
            r == relative(next, b),
    {
        reveal(relative);
        let target = if b >= 0x80 {
            next.wrapping_sub(0x100 - b as u16)
        } else {
            next.wrapping_add(b as u16)
        };
        EffectiveOperand {
            operand: Operand::Address(target),
            page_crossed: next / 0x100 != target / 0x100,
        }
    }

    fn resolve_indirect<M: Memory>(&mut self, mem: &M) -> (r: EffectiveOperand)
        requires
            mem.contents().len() == ADDRESS_SPACE,
        ensures
            (r, *final(self)) == resolve_spec(AddressingMode::IND, *old(self), mem.contents()),
    {
        let pointer = self.read_word(mem);
        let lo = mem.read(pointer);
        reveal(indirect_high_address);
        let high_address = pointer - pointer % 0x100 + (pointer % 0x100 + 1) % 0x100;
        let hi = mem.read(high_address);
        EffectiveOperand { operand: Operand::Address(le_word(lo, hi)), page_crossed: false }
    }

    fn resolve_inherent<M: Memory>(&mut self, mode: AddressingMode, mem: &M) -> (r: EffectiveOperand)
        requires
            mem.contents().len() == ADDRESS_SPACE,
            mode == AddressingMode::IMP || mode == AddressingMode::UNKNOWN
                || mode == AddressingMode::ACC || mode == AddressingMode::IMM,
        ensures
            (r, *final(self)) == resolve_spec(mode, *old(self), mem.contents()),
    {
        match mode {
            AddressingMode::IMM => {
                let v = self.read_one(mem);
                EffectiveOperand { operand: Operand::Immediate(v), page_crossed: false }
            },
            AddressingMode::ACC => {
                EffectiveOperand { operand: Operand::Accumulator, page_crossed: false }
            },
            _ => EffectiveOperand { operand: Operand::Implied, page_crossed: false },
        }
    }

    fn resolve_zero_page<M: Memory>(&mut self, mode: AddressingMode, mem: &M) -> (r: EffectiveOperand)
        requires
            mem.contents().len() == ADDRESS_SPACE,
            mode == AddressingMode::ZPG || mode == AddressingMode::ZPX || mode == AddressingMode::ZPY,
        ensures
            (r, *final(self)) == resolve_spec(mode, *old(self), mem.contents()),
    {
        if mode == AddressingMode::ZPG {
            let address = self.read_one_indexed(mem);
            return EffectiveOperand { operand: Operand::Address(address), page_crossed: false };
        }
        let z = self.read_one(mem);
        let index: u8 = if mode == AddressingMode::ZPX {
            self.registers.x
        } else {
            self.registers.y
        };
        EffectiveOperand { operand: Operand::Address(z.wrapping_add(index) as u16), page_crossed: false }
    }

    fn resolve_absolute<M: Memory>(&mut self, mode: AddressingMode, mem: &M) -> (r: EffectiveOperand)
        requires
            mem.contents().len() == ADDRESS_SPACE,
            mode == AddressingMode::ABS || mode == AddressingMode::ABX || mode == AddressingMode::ABY,
        ensures
            (r, *final(self)) == resolve_spec(mode, *old(self), mem.contents()),
    {
        let base = self.read_word(mem);
        match mode {
            AddressingMode::ABX => Self::index_operand(base, self.registers.x),
            AddressingMode::ABY => Self::index_operand(base, self.registers.y),
            _ => EffectiveOperand { operand: Operand::Address(base), page_crossed: false },
        }
    }

    fn resolve_pointer<M: Memory>(&mut self, mode: AddressingMode, mem: &M) -> (r: EffectiveOperand)
        requires
            mem.contents().len() == ADDRESS_SPACE,
            mode == AddressingMode::IDX || mode == AddressingMode::IDY,
        ensures
            (r, *final(self)) == resolve_spec(mode, *old(self), mem.contents()),
    {
        let z = self.read_one(mem);
        if mode == AddressingMode::IDX {
            let target = self.read_zero_page_word(mem, z.wrapping_add(self.registers.x));
            EffectiveOperand { operand: Operand::Address(target), page_crossed: false }
        } else {
            let base = self.read_zero_page_word(mem, z);
            Self::index_operand(base, self.registers.y)
        }
    }

    fn resolve_branch<M: Memory>(&mut self, mem: &M) -> (r: EffectiveOperand)
        requires
            mem.contents().len() == ADDRESS_SPACE,
        ensures
            (r, *final(self)) == resolve_spec(AddressingMode::REL, *old(self), mem.contents()),
    {
        let b = self.read_one(mem);
        Self::relative_operand(self.registers.pc, b)
    }

    /// Resolves the operand of an instruction in `mode`, with the program counter on
    /// its first operand byte, and moves the program counter past the operand bytes.
    pub fn resolve<M: Memory>(&mut self, mode: AddressingMode, mem: &M) -> (r: EffectiveOperand)
        requires
            mem.contents().len() == ADDRESS_SPACE,
        ensures
            (r, *final(self)) == resolve_spec(mode, *old(self), mem.contents()),
    {
        match mode {
            AddressingMode::IMP | AddressingMode::UNKNOWN | AddressingMode::ACC
            | AddressingMode::IMM => self.resolve_inherent(mode, mem),
            AddressingMode::ZPG | AddressingMode::ZPX | AddressingMode::ZPY => {
                self.resolve_zero_page(mode, mem)
            },
            AddressingMode::ABS | AddressingMode::ABX | AddressingMode::ABY => {
                self.resolve_absolute(mode, mem)
            },
            AddressingMode::IND => self.resolve_indirect(mem),
            AddressingMode::IDX | AddressingMode::IDY => self.resolve_pointer(mode, mem),
            AddressingMode::REL => self.resolve_branch(mem),
        }
    }
}

} // verus!
