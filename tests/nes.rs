use mudkip::memory::Memory;
use mudkip::cpu::Cpu;
use mudkip::nes::NES;
use mudkip::rom::load;

fn cartridge(banks: u8, program: &[u8]) -> Vec<u8> {
    let mut buf = vec![0x4e, 0x45, 0x53, 0x1a, banks, 0, 0, 0, 0, 0, 0, 0, 0, 0, 0, 0];
    let mut prg = vec![0u8; banks as usize * 16384];
    prg[..program.len()].copy_from_slice(program);
    let n = prg.len();
    prg[n - 4] = 0x00;
    prg[n - 3] = 0x80;
    buf.extend(prg);
    buf
}

#[test]
fn sixteen_kib_program_is_mirrored_and_reset_vector_followed() {
    let mut nes = NES::new(load(&cartridge(1, &[0xa9, 0x07])).unwrap());
    assert_eq!(nes.cpu, Cpu::new());
    nes.cpu.reset(&nes.memory);
    assert_eq!(nes.memory.read(0x8000), 0xa9);
    assert_eq!(nes.memory.read(0xc000), 0xa9);
    assert_eq!(nes.memory.read(0xc001), 0x07);
    assert_eq!(nes.memory.read(0x7fff), 0x00);
    assert_eq!(nes.cpu.registers.pc, 0x8000);
    assert_eq!(nes.cpu.registers.s, 0xfd);
}

#[test]
fn console_steps_through_cartridge_code() {
    let mut nes = NES::new(load(&cartridge(2, &[0xa9, 0x07, 0x85, 0x10])).unwrap());
    nes.cpu.reset(&nes.memory);
    assert_eq!(nes.memory.read(0xc000), 0x00);
    assert_eq!(nes.step(), 2);
    assert_eq!(nes.cpu.registers.a, 7);
    assert_eq!(nes.step(), 3);
    assert_eq!(nes.memory.read(0x10), 7);
}

#[test]
fn load_rom_replaces_cartridge_and_resets() {
    let mut nes = NES::new(load(&cartridge(1, &[0xa9, 0x07])).unwrap());
    nes.cpu.reset(&nes.memory);
    nes.step();
    nes.load_rom(load(&cartridge(1, &[0xa2, 0x01])).unwrap());
    assert_eq!(nes.cpu, Cpu::new());
    assert_eq!(nes.cpu.registers.pc, 0);
    nes.cpu.reset(&nes.memory);
    assert_eq!(nes.cpu.registers.pc, 0x8000);
    assert_eq!(nes.memory.read(0x8000), 0xa2);
    assert_eq!(nes.step(), 2);
    assert_eq!(nes.cpu.registers.x, 1);
}

#[test]
fn run_executes_several_instructions() {
    let mut nes = NES::new(load(&cartridge(1, &[0xa9, 0x07, 0x85, 0x10, 0xe8])).unwrap());
    nes.cpu.reset(&nes.memory);
    assert_eq!(nes.run(3), 2 + 3 + 2);
    assert_eq!(nes.memory.read(0x10), 7);
    assert_eq!(nes.cpu.registers.x, 1);
    assert_eq!(nes.cpu.registers.pc, 0x8005);
}
