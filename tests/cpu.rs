use mudkip::cpu::{Cpu, EffectiveOperand, Operand};
use mudkip::instructions::{decode, AddressingMode};
use mudkip::memory::{Memory, Ram};
use mudkip::status::{BREAK, CARRY, DECIMAL, INTERRUPT, NEGATIVE, OVERFLOW, UNUSED, ZERO};

fn machine(program: &[u8], origin: u16) -> (Cpu, Ram) {
    let mut ram = Ram::new();
    ram.load(origin, program);
    let mut cpu = Cpu::new();
    cpu.registers.pc = origin;
    (cpu, ram)
}

#[test]
fn lda_adc_then_brk_end_to_end() {
    let (mut cpu, mut ram) = machine(&[0xa9, 0x05, 0x69, 0x03, 0x00], 0);
    let first = cpu.step(&mut ram);
    let second = cpu.step(&mut ram);
    assert_eq!(cpu.registers.a, 8);
    assert!(!cpu.status.contains(CARRY));
    assert!(!cpu.status.contains(NEGATIVE));
    assert!(!cpu.status.contains(ZERO));
    assert_eq!(first + second, 4);
    assert_eq!(cpu.registers.pc, 4);
    assert_eq!(ram.read(4), 0x00);
}

#[test]
fn run_counts_cycles_of_every_step() {
    let (mut cpu, mut ram) = machine(&[0xa9, 0x05, 0x69, 0x03, 0x00], 0);
    assert_eq!(cpu.run(&mut ram, 2), 4);
    assert_eq!(cpu.registers.a, 8);
    let (mut cpu, mut ram) = machine(&[0xa9, 0x05, 0x69, 0x03, 0x00], 0);
    assert_eq!(cpu.run(&mut ram, 0), 0);
    assert_eq!(cpu.registers.pc, 0);
}

#[test]
fn bit_copies_operand_bits_whatever_the_accumulator() {
    for a in [0x00u8, 0xff, 0x0f, 0xc0] {
        for m in [0x00u8, 0x40, 0x80, 0xc0, 0x3f, 0xff] {
            let (mut cpu, mut ram) = machine(&[0x24, 0x10], 0x0200);
            ram.write(0x10, m);
            cpu.registers.a = a;
            assert_eq!(cpu.step(&mut ram), 3);
            assert_eq!(cpu.status.contains(NEGATIVE), m & 0x80 != 0);
            assert_eq!(cpu.status.contains(OVERFLOW), m & 0x40 != 0);
            assert_eq!(cpu.status.contains(ZERO), a & m == 0);
            assert_eq!(cpu.registers.a, a);
        }
    }
}

#[test]
fn branch_not_taken_costs_two_cycles() {
    let (mut cpu, mut ram) = machine(&[0xd0, 0x04], 0x0200);
    cpu.status.set(ZERO, true);
    assert_eq!(cpu.step(&mut ram), 2);
    assert_eq!(cpu.registers.pc, 0x0202);
}

#[test]
fn branch_taken_within_page_costs_three_cycles() {
    let (mut cpu, mut ram) = machine(&[0xd0, 0x04], 0x0200);
    cpu.status.set(ZERO, false);
    assert_eq!(cpu.step(&mut ram), 3);
    assert_eq!(cpu.registers.pc, 0x0206);
}

#[test]
fn branch_taken_across_page_costs_four_cycles() {
    let (mut cpu, mut ram) = machine(&[0xd0, 0x20], 0x02f0);
    cpu.status.set(ZERO, false);
    assert_eq!(cpu.step(&mut ram), 4);
    assert_eq!(cpu.registers.pc, 0x0312);
    let (mut cpu, mut ram) = machine(&[0xf0, 0xfb], 0x0300);
    cpu.status.set(ZERO, true);
    assert_eq!(cpu.step(&mut ram), 4);
    assert_eq!(cpu.registers.pc, 0x02fd);
}

#[test]
fn pha_pla_restores_accumulator_and_stack_pointer() {
    let (mut cpu, mut ram) = machine(&[0x48, 0xa9, 0x00, 0x68], 0x0200);
    cpu.registers.a = 0x42;
    cpu.registers.s = 0xfd;
    assert_eq!(cpu.step(&mut ram), 3);
    assert_eq!(ram.read(0x01fd), 0x42);
    assert_eq!(cpu.registers.s, 0xfc);
    cpu.step(&mut ram);
    assert_eq!(cpu.registers.a, 0);
    assert_eq!(cpu.step(&mut ram), 4);
    assert_eq!(cpu.registers.a, 0x42);
    assert_eq!(cpu.registers.s, 0xfd);
    assert!(!cpu.status.contains(ZERO));
}

#[test]
fn php_plp_restores_status() {
    let (mut cpu, mut ram) = machine(&[0x08, 0x38, 0xf8, 0x78, 0x28], 0x0200);
    cpu.registers.s = 0xff;
    cpu.status.bits = NEGATIVE | OVERFLOW | UNUSED | ZERO;
    let before = cpu.status;
    cpu.step(&mut ram);
    assert_eq!(ram.read(0x01ff), NEGATIVE | OVERFLOW | UNUSED | BREAK | ZERO);
    cpu.run(&mut ram, 3);
    assert!(cpu.status.contains(CARRY) && cpu.status.contains(DECIMAL) && cpu.status.contains(INTERRUPT));
    cpu.step(&mut ram);
    assert_eq!(cpu.status, before);
    assert_eq!(cpu.registers.s, 0xff);
}

#[test]
fn stack_pointer_wraps_within_its_page() {
    let (mut cpu, mut ram) = machine(&[0x48, 0x68], 0x0200);
    cpu.registers.s = 0x00;
    cpu.registers.a = 0x99;
    cpu.step(&mut ram);
    assert_eq!(ram.read(0x0100), 0x99);
    assert_eq!(cpu.registers.s, 0xff);
    cpu.step(&mut ram);
    assert_eq!(cpu.registers.s, 0x00);
    assert_eq!(cpu.registers.a, 0x99);
}

#[test]
fn jsr_then_rts_returns_after_the_call() {
    let (mut cpu, mut ram) = machine(&[0x20, 0x00, 0x07], 0x0600);
    ram.write(0x0700, 0x60);
    cpu.registers.s = 0xfd;
    assert_eq!(cpu.step(&mut ram), 6);
    assert_eq!(cpu.registers.pc, 0x0700);
    assert_eq!(ram.read(0x01fd), 0x06);
    assert_eq!(ram.read(0x01fc), 0x02);
    assert_eq!(cpu.step(&mut ram), 6);
    assert_eq!(cpu.registers.pc, 0x0603);
    assert_eq!(cpu.registers.s, 0xfd);
}

#[test]
fn indirect_jmp_wraps_within_the_pointer_page() {
    let (mut cpu, mut ram) = machine(&[0x6c, 0xff, 0x02], 0x0400);
    ram.write(0x02ff, 0x34);
    ram.write(0x0200, 0x12);
    ram.write(0x0300, 0x56);
    assert_eq!(cpu.step(&mut ram), 5);
    assert_eq!(cpu.registers.pc, 0x1234);
}

#[test]
fn indirect_jmp_reads_adjacent_bytes_inside_a_page() {
    let (mut cpu, mut ram) = machine(&[0x6c, 0x20, 0x02], 0x0400);
    ram.write(0x0220, 0xcd);
    ram.write(0x0221, 0xab);
    cpu.step(&mut ram);
    assert_eq!(cpu.registers.pc, 0xabcd);
}

#[test]
fn indexed_read_pays_for_page_crossing() {
    let (mut cpu, mut ram) = machine(&[0xbd, 0xff, 0x10], 0x0200);
    ram.write(0x1100, 0x77);
    cpu.registers.x = 1;
    assert_eq!(cpu.step(&mut ram), 5);
    assert_eq!(cpu.registers.a, 0x77);
    let (mut cpu, mut ram) = machine(&[0xbd, 0xfe, 0x10], 0x0200);
    ram.write(0x10ff, 0x66);
    cpu.registers.x = 1;
    assert_eq!(cpu.step(&mut ram), 4);
    assert_eq!(cpu.registers.a, 0x66);
    let (mut cpu, mut ram) = machine(&[0x9d, 0xfe, 0x10], 0x0200);
    cpu.registers.x = 1;
    cpu.registers.a = 0x55;
    assert_eq!(cpu.step(&mut ram), 5);
    assert_eq!(ram.read(0x10ff), 0x55);
}

#[test]
fn indirect_indexed_and_indexed_indirect_addressing() {
    let (mut cpu, mut ram) = machine(&[0xb1, 0x40], 0x0200);
    ram.write(0x40, 0xf0);
    ram.write(0x41, 0x12);
    ram.write(0x1300, 0xab);
    cpu.registers.y = 0x10;
    assert_eq!(cpu.step(&mut ram), 6);
    assert_eq!(cpu.registers.a, 0xab);
    let (mut cpu, mut ram) = machine(&[0xa1, 0xff], 0x0200);
    ram.write(0x00, 0x34);
    ram.write(0x01, 0x12);
    ram.write(0x1234, 0x5a);
    cpu.registers.x = 1;
    assert_eq!(cpu.step(&mut ram), 6);
    assert_eq!(cpu.registers.a, 0x5a);
}

#[test]
fn zero_page_indexing_wraps_within_zero_page() {
    let (mut cpu, mut ram) = machine(&[0xb5, 0xf0], 0x0200);
    ram.write(0x0010, 0x21);
    ram.write(0x0110, 0x99);
    cpu.registers.x = 0x20;
    assert_eq!(cpu.step(&mut ram), 4);
    assert_eq!(cpu.registers.a, 0x21);
}

#[test]
fn compare_sets_carry_zero_negative() {
    let (mut cpu, mut ram) = machine(&[0xc9, 0x10, 0xc9, 0x10, 0xe0, 0x05], 0x0200);
    cpu.registers.a = 0x10;
    cpu.step(&mut ram);
    assert!(cpu.status.contains(ZERO) && cpu.status.contains(CARRY) && !cpu.status.contains(NEGATIVE));
    cpu.registers.a = 0x0f;
    cpu.step(&mut ram);
    assert!(!cpu.status.contains(ZERO) && !cpu.status.contains(CARRY) && cpu.status.contains(NEGATIVE));
    cpu.registers.x = 0x06;
    cpu.step(&mut ram);
    assert!(!cpu.status.contains(ZERO) && cpu.status.contains(CARRY) && !cpu.status.contains(NEGATIVE));
}

#[test]
fn read_modify_write_on_memory_and_accumulator() {
    let (mut cpu, mut ram) = machine(&[0xe6, 0x10, 0xc6, 0x11, 0x06, 0x12, 0x6a], 0x0200);
    ram.write(0x10, 0xff);
    ram.write(0x11, 0x00);
    ram.write(0x12, 0x81);
    assert_eq!(cpu.step(&mut ram), 5);
    assert_eq!(ram.read(0x10), 0x00);
    assert!(cpu.status.contains(ZERO));
    cpu.step(&mut ram);
    assert_eq!(ram.read(0x11), 0xff);
    assert!(cpu.status.contains(NEGATIVE));
    cpu.step(&mut ram);
    assert_eq!(ram.read(0x12), 0x02);
    assert!(cpu.status.contains(CARRY));
    cpu.registers.a = 0x01;
    assert_eq!(cpu.step(&mut ram), 2);
    assert_eq!(cpu.registers.a, 0x80);
    assert!(cpu.status.contains(CARRY) && cpu.status.contains(NEGATIVE));
}

#[test]
fn transfers_and_register_increments() {
    let (mut cpu, mut ram) = machine(&[0xaa, 0xe8, 0x9a, 0xba, 0x88], 0x0200);
    cpu.registers.a = 0xfe;
    cpu.step(&mut ram);
    assert_eq!(cpu.registers.x, 0xfe);
    assert!(cpu.status.contains(NEGATIVE));
    cpu.step(&mut ram);
    assert_eq!(cpu.registers.x, 0xff);
    cpu.status.set(NEGATIVE, false);
    cpu.step(&mut ram);
    assert_eq!(cpu.registers.s, 0xff);
    assert!(!cpu.status.contains(NEGATIVE));
    cpu.registers.x = 0;
    cpu.step(&mut ram);
    assert_eq!(cpu.registers.x, 0xff);
    cpu.registers.y = 0;
    cpu.step(&mut ram);
    assert_eq!(cpu.registers.y, 0xff);
}

#[test]
fn unknown_opcode_is_a_one_byte_nop() {
    let (mut cpu, mut ram) = machine(&[0x02, 0xea], 0x0200);
    let before = cpu;
    assert_eq!(cpu.step(&mut ram), 2);
    assert_eq!(cpu.registers.pc, 0x0201);
    assert_eq!(cpu.registers.a, before.registers.a);
    assert_eq!(cpu.status, before.status);
    assert_eq!(cpu.step(&mut ram), 2);
    assert_eq!(cpu.registers.pc, 0x0202);
}

#[test]
fn power_on_and_reset() {
    let mut ram = Ram::new();
    ram.write(0xfffc, 0x00);
    ram.write(0xfffd, 0x80);
    let mut cpu = Cpu::new();
    assert_eq!(cpu.status.bits, 0x34);
    assert_eq!(cpu.registers.s, 0);
    cpu.reset(&ram);
    assert_eq!(cpu.registers.pc, 0x8000);
    assert_eq!(cpu.registers.s, 0xfd);
    assert!(cpu.status.contains(INTERRUPT));
    cpu.registers.a = 9;
    cpu.power_on();
    assert_eq!(cpu, Cpu::new());
}

#[test]
fn brk_and_rti() {
    let (mut cpu, mut ram) = machine(&[0x00, 0xff, 0xea], 0x0200);
    ram.write(0xfffe, 0x00);
    ram.write(0xffff, 0x90);
    ram.write(0x9000, 0x40);
    cpu.registers.s = 0xfd;
    cpu.status.bits = UNUSED | CARRY;
    assert_eq!(cpu.step(&mut ram), 7);
    assert_eq!(cpu.registers.pc, 0x9000);
    assert_eq!(ram.read(0x01fd), 0x02);
    assert_eq!(ram.read(0x01fc), 0x02);
    assert_eq!(ram.read(0x01fb), UNUSED | BREAK | CARRY);
    assert!(cpu.status.contains(INTERRUPT));
    assert_eq!(cpu.step(&mut ram), 6);
    assert_eq!(cpu.registers.pc, 0x0202);
    assert_eq!(cpu.registers.s, 0xfd);
    assert_eq!(cpu.status.bits, UNUSED | CARRY);
}

#[test]
fn irq_is_masked_by_interrupt_flag() {
    let (mut cpu, mut ram) = machine(&[0xea], 0x0200);
    ram.write(0xfffe, 0x00);
    ram.write(0xffff, 0xa0);
    cpu.registers.s = 0xfd;
    cpu.status.bits = UNUSED | INTERRUPT;
    assert_eq!(cpu.irq(&mut ram), 0);
    assert_eq!(cpu.registers.pc, 0x0200);
    cpu.status.bits = UNUSED;
    assert_eq!(cpu.irq(&mut ram), 7);
    assert_eq!(cpu.registers.pc, 0xa000);
    assert_eq!(ram.read(0x01fb), UNUSED);
    assert!(cpu.status.contains(INTERRUPT));
}

#[test]
fn nmi_is_taken_even_when_masked() {
    let (mut cpu, mut ram) = machine(&[0xea], 0x0234);
    ram.write(0xfffa, 0x00);
    ram.write(0xfffb, 0xb0);
    cpu.registers.s = 0xfd;
    cpu.status.bits = UNUSED | INTERRUPT | BREAK;
    assert_eq!(cpu.nmi(&mut ram), 7);
    assert_eq!(cpu.registers.pc, 0xb000);
    assert_eq!(ram.read(0x01fd), 0x02);
    assert_eq!(ram.read(0x01fc), 0x34);
    assert_eq!(ram.read(0x01fb), UNUSED | INTERRUPT);
}

#[test]
fn resolve_then_execute_by_hand() {
    let (mut cpu, mut ram) = machine(&[0xff, 0x20], 0x0200);
    cpu.registers.y = 0x01;
    let eff = cpu.resolve(AddressingMode::ABY, &ram);
    assert_eq!(eff, EffectiveOperand { operand: Operand::Address(0x2100), page_crossed: true });
    assert_eq!(cpu.registers.pc, 0x0202);
    ram.write(0x2100, 0x10);
    cpu.registers.a = 0x05;
    cpu.status.set(CARRY, true);
    assert_eq!(cpu.execute(decode(0x79), eff, &mut ram), 5);
    assert_eq!(cpu.registers.a, 0x16);
    assert!(!cpu.status.contains(CARRY));
    let imm = EffectiveOperand { operand: Operand::Immediate(0x01), page_crossed: false };
    assert_eq!(cpu.execute(decode(0xe9), imm, &mut ram), 2);
    assert_eq!(cpu.registers.a, 0x14);
    assert!(cpu.status.contains(CARRY));
}

#[test]
fn relative_operand_is_measured_from_next_instruction() {
    let (mut cpu, ram) = machine(&[0x80], 0x12ff);
    let eff = cpu.resolve(AddressingMode::REL, &ram);
    assert_eq!(eff, EffectiveOperand { operand: Operand::Address(0x1280), page_crossed: true });
    assert_eq!(cpu.registers.pc, 0x1300);
}
