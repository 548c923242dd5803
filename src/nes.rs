//! The console: a processor, its memory, and the cartridge mapped into it.
use vstd::prelude::*;
use crate::cpu::{Cpu, power_on_state};
use crate::execute::{run_spec, step_spec};
use crate::memory::{ADDRESS_SPACE, Memory, Ram};
use crate::rom::ROM;

verus! {

/// First address of the cartridge's program ROM.
pub const CARTRIDGE_START: u16 = 0x8000;

/// The byte at `address` once the program ROM is mapped: from `$8000` on, the
/// program repeated to fill the upper half of the address space (a 16 KiB
/// program appears twice); below `$8000`, zero.
pub open spec fn mapped_byte(prg: Seq<u8>, address: int) -> u8 {
    if address >= CARTRIDGE_START && prg.len() > 0 {
        prg[(address - CARTRIDGE_START) % (prg.len() as int)]
    } else {
        0
    }
}

/// Whether `mem` is the address space with `prg` mapped into it.
pub open spec fn is_mapped(mem: Seq<u8>, prg: Seq<u8>) -> bool {
    &&& mem.len() == ADDRESS_SPACE
    &&& forall|a: int| 0 <= a < ADDRESS_SPACE ==> #[trigger] mem[a] == mapped_byte(prg, a)
}

/// A console with a cartridge in it.
pub struct NES {
    pub cpu: Cpu,
    pub memory: Ram,
    pub rom: ROM,
}

/// Fresh memory with `prg` mapped into it.
fn map_program(prg: &Vec<u8>) -> (r: Ram)
    ensures
        is_mapped(r.contents(), prg@),
{
    let mut memory = Ram::new();
    if prg.len() > 0 {
        let mut address: usize = CARTRIDGE_START as usize;
        while address < ADDRESS_SPACE
            invariant
                CARTRIDGE_START <= address <= ADDRESS_SPACE,
                prg@.len() > 0,
                memory.contents().len() == ADDRESS_SPACE,
                forall|a: int|
                    0 <= a < ADDRESS_SPACE ==> #[trigger] memory.contents()[a] == if a < address {
                        mapped_byte(prg@, a)
                    } else {
                        0
                    },
            decreases ADDRESS_SPACE - address,
        {
            let v = prg[(address - CARTRIDGE_START as usize) % prg.len()];
            memory.write(address as u16, v);
            address = address + 1;
        }
    }
    memory
}

impl NES {
    /// Inserts `rom`, maps its program, and powers the processor on. Resetting it,
    /// which loads the program counter from the reset vector, is left to the caller.
    pub fn new(rom: ROM) -> (r: NES)
        ensures
            is_mapped(r.memory.contents(), rom.prg_rom@),
            r.cpu == power_on_state(),
            r.rom.header == rom.header,
            r.rom.prg_rom@ == rom.prg_rom@,
            r.rom.chr_rom@ == rom.chr_rom@,
    {
        let memory = map_program(&rom.prg_rom);
        NES { cpu: Cpu::new(), memory, rom }
    }

    /// Swaps in another cartridge: memory remapped and a freshly powered-on processor,
    /// all earlier processor state discarded.
    pub fn load_rom(&mut self, rom: ROM)
        ensures
            is_mapped(final(self).memory.contents(), rom.prg_rom@),
            final(self).cpu == power_on_state(),
            final(self).rom.header == rom.header,
            final(self).rom.prg_rom@ == rom.prg_rom@,
            final(self).rom.chr_rom@ == rom.chr_rom@,
    {
        self.memory = map_program(&rom.prg_rom);
        self.cpu = Cpu::new();
        self.rom = rom;
    }

    /// Executes one instruction; returns the cycles it took.
    pub fn step(&mut self) -> (r: u8)
        requires
            old(self).memory.contents().len() == ADDRESS_SPACE,
        ensures
            (final(self).cpu, final(self).memory.contents(), r) == step_spec(
                old(self).cpu,
                old(self).memory.contents(),
            ),
            final(self).rom.header == old(self).rom.header,
            final(self).rom.prg_rom@ == old(self).rom.prg_rom@,
    {
        self.cpu.step(&mut self.memory)
    }

    /// Executes `steps` instructions in a row; returns the total cycles taken.
    pub fn run(&mut self, steps: u32) -> (r: u64)
        requires
            old(self).memory.contents().len() == ADDRESS_SPACE,
        ensures
            (final(self).cpu, final(self).memory.contents(), r as int) == run_spec(
                old(self).cpu,
                old(self).memory.contents(),
                steps as nat,
            ),
            final(self).rom.header == old(self).rom.header,
            final(self).rom.prg_rom@ == old(self).rom.prg_rom@,
    {
        self.cpu.run(&mut self.memory, steps)
    }
}

} // verus!
