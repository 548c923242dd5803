//! What each instruction does to the registers, the status flags and memory,
//! what it costs in cycles, and the step that strings fetch, decode, resolve
//! and execute together.
use vstd::prelude::*;
use crate::alu::{
    add_with_carry, adc_spec, rotate_left, rotate_right, sbc_spec, shift_left, shift_right,
    subtract_with_carry,
};
use crate::cpu::{
    Cpu, EffectiveOperand, IRQ_VECTOR, NMI_VECTOR, Operand, STACK_PAGE, indexed, relative,
    resolve_spec, resolved_operand, pull_spec, push_spec, with_a,
    with_bits, with_pc, with_s, with_x, with_y, with_zn_of, word_at, wrap16, wrap8,
};
use crate::instructions::{AddressingMode, Instruction, Mnemonic, decode, decoded};
use crate::memory::{ADDRESS_SPACE, Memory, le_word, word};
use crate::status::{
    BREAK, CARRY, DECIMAL, INTERRUPT, MEANINGFUL, NEGATIVE, OVERFLOW, RESERVED, UNUSED, ZERO,
    flag, with_flag, with_zn,
};

verus! {

/// Cycles taken to enter an interrupt handler.
pub const INTERRUPT_CYCLES: u8 = 7;

/// The value an operand designates.
pub open spec fn load_operand(op: Operand, c: Cpu, mem: Seq<u8>) -> u8 {
    match op {
        Operand::Implied => 0,
        Operand::Accumulator => c.registers.a,
        Operand::Immediate(v) => v,
        Operand::Address(a) => mem[a as int],
    }
}

/// Writing `v` to an operand: the accumulator, or memory at an address.
pub open spec fn store_operand(op: Operand, c: Cpu, mem: Seq<u8>, v: u8) -> (Cpu, Seq<u8>) {
    match op {
        Operand::Accumulator => (with_a(c, v), mem),
        Operand::Address(a) => (c, mem.update(a as int, v)),
        _ => (c, mem),
    }
}

/// The address an operand designates (a jump or branch target).
pub open spec fn target(op: Operand) -> u16 {
    match op {
        Operand::Address(a) => a,
        _ => 0,
    }
}

/// Instructions that write their operand.
pub open spec fn writes_operand(mn: Mnemonic) -> bool {
    match mn {
        Mnemonic::STA | Mnemonic::STX | Mnemonic::STY | Mnemonic::INC | Mnemonic::DEC
        | Mnemonic::ASL | Mnemonic::LSR | Mnemonic::ROL | Mnemonic::ROR => true,
        _ => false,
    }
}

/// The conditional branches.
pub open spec fn is_branch(mn: Mnemonic) -> bool {
    match mn {
        Mnemonic::BCC | Mnemonic::BCS | Mnemonic::BEQ | Mnemonic::BNE | Mnemonic::BMI
        | Mnemonic::BPL | Mnemonic::BVC | Mnemonic::BVS => true,
        _ => false,
    }
}

/// Whether branch `mn` is taken under the status `bits`.
pub open spec fn branch_taken(mn: Mnemonic, bits: u8) -> bool {
    match mn {
        Mnemonic::BCC => !flag(bits, CARRY),
        Mnemonic::BCS => flag(bits, CARRY),
        Mnemonic::BEQ => flag(bits, ZERO),
        Mnemonic::BNE => !flag(bits, ZERO),
        Mnemonic::BMI => flag(bits, NEGATIVE),
        Mnemonic::BPL => !flag(bits, NEGATIVE),
        Mnemonic::BVC => !flag(bits, OVERFLOW),
        Mnemonic::BVS => flag(bits, OVERFLOW),
        _ => false,
    }
}

/// Read instructions that pay one more cycle when indexing crosses a page.
pub open spec fn pays_page_penalty(mn: Mnemonic) -> bool {
    match mn {
        Mnemonic::LDA | Mnemonic::LDX | Mnemonic::LDY | Mnemonic::ADC | Mnemonic::SBC
        | Mnemonic::AND | Mnemonic::ORA | Mnemonic::EOR | Mnemonic::CMP => true,
        _ => false,
    }
}

/// Cycles an instruction takes: its base cost, one more for a read that crossed a
/// page, and for a taken branch one more, plus one if the target is on another page.
pub open spec fn cycle_cost(ins: Instruction, eff: EffectiveOperand, c: Cpu) -> u8 {
    let mn = ins.mnemonic;
    if is_branch(mn) {
        if !branch_taken(mn, c.status.bits) {
            ins.cycles
        } else if eff.page_crossed {
            (ins.cycles + 2) as u8
        } else {
            (ins.cycles + 1) as u8
        }
    } else if pays_page_penalty(mn) && eff.page_crossed {
        (ins.cycles + 1) as u8
    } else {
        ins.cycles
    }
}

/// Status after ADC or SBC with outcome (result, carry, overflow).
pub open spec fn arithmetic_status(bits: u8, r: (u8, bool, bool)) -> u8 {
    with_flag(with_flag(with_zn(bits, r.0), CARRY, r.1), OVERFLOW, r.2)
}

/// Status after comparing `reg` with `v`: flags as for `reg - v`, carry when no borrow.
pub open spec fn compare_status(bits: u8, reg: u8, v: u8) -> u8 {
    with_flag(with_zn(bits, wrap8(reg - v + 0x100)), CARRY, reg >= v)
}

/// Status after BIT: Zero from `a & v`, Overflow and Negative copied from bits 6 and 7 of `v`.
pub open spec fn bit_status(bits: u8, a: u8, v: u8) -> u8 {
    with_flag(
        with_flag(with_flag(bits, ZERO, a & v == 0), OVERFLOW, flag(v, OVERFLOW)),
        NEGATIVE,
        flag(v, NEGATIVE),
    )
}

/// Status after a shift with outcome (result, bit shifted out).
pub open spec fn shift_status(bits: u8, r: (u8, bool)) -> u8 {
    with_flag(with_zn(bits, r.0), CARRY, r.1)
}

/// The status restored from a pulled byte: its six flags, and the reserved bits kept.
pub open spec fn restored(pulled: u8, current: u8) -> u8 {
    (pulled & MEANINGFUL) | (current & RESERVED)
}

/// The status byte an interrupt pushes: bit 5 set, bit 4 clear.
pub open spec fn interrupt_status(bits: u8) -> u8 {
    with_flag(with_flag(bits, UNUSED, true), BREAK, false)
}

/// Loads, stores and register transfers.
#[verifier::opaque]
pub open spec fn transfer_effect(mn: Mnemonic, op: Operand, c: Cpu, mem: Seq<u8>) -> (Cpu, Seq<u8>) {
    let v = load_operand(op, c, mem);
    let r = c.registers;
    match mn {
        Mnemonic::LDA => (with_zn_of(with_a(c, v), v), mem),
        Mnemonic::LDX => (with_zn_of(with_x(c, v), v), mem),
        Mnemonic::LDY => (with_zn_of(with_y(c, v), v), mem),
        Mnemonic::STA => store_operand(op, c, mem, r.a),
        Mnemonic::STX => store_operand(op, c, mem, r.x),
        Mnemonic::STY => store_operand(op, c, mem, r.y),
        Mnemonic::TAX => (with_zn_of(with_x(c, r.a), r.a), mem),
        Mnemonic::TAY => (with_zn_of(with_y(c, r.a), r.a), mem),
        Mnemonic::TSX => (with_zn_of(with_x(c, r.s), r.s), mem),
        Mnemonic::TXA => (with_zn_of(with_a(c, r.x), r.x), mem),
        Mnemonic::TXS => (with_s(c, r.x), mem),
        Mnemonic::TYA => (with_zn_of(with_a(c, r.y), r.y), mem),
        _ => (c, mem),
    }
}

/// Arithmetic, logic, comparisons and BIT: registers and flags only.
#[verifier::opaque]
pub open spec fn arithmetic_effect(mn: Mnemonic, op: Operand, c: Cpu, mem: Seq<u8>) -> Cpu {
    let v = load_operand(op, c, mem);
    let r = c.registers;
    let bits = c.status.bits;
    match mn {
        Mnemonic::ADC => {
            let out = adc_spec(r.a, v, flag(bits, CARRY));
            with_bits(with_a(c, out.0), arithmetic_status(bits, out))
        },
        Mnemonic::SBC => {
            let out = sbc_spec(r.a, v, flag(bits, CARRY));
            with_bits(with_a(c, out.0), arithmetic_status(bits, out))
        },
        Mnemonic::AND => with_zn_of(with_a(c, r.a & v), r.a & v),
        Mnemonic::ORA => with_zn_of(with_a(c, r.a | v), r.a | v),
        Mnemonic::EOR => with_zn_of(with_a(c, r.a ^ v), r.a ^ v),
        Mnemonic::CMP => with_bits(c, compare_status(bits, r.a, v)),
        Mnemonic::CPX => with_bits(c, compare_status(bits, r.x, v)),
        Mnemonic::CPY => with_bits(c, compare_status(bits, r.y, v)),
        Mnemonic::BIT => with_bits(c, bit_status(bits, r.a, v)),
        _ => c,
    }
}

/// Writes a shift's result back to its operand and sets the flags from it.
pub open spec fn shifted(op: Operand, c: Cpu, mem: Seq<u8>, out: (u8, bool)) -> (Cpu, Seq<u8>) {
    let (c1, m1) = store_operand(op, c, mem, out.0);
    (with_bits(c1, shift_status(c.status.bits, out)), m1)
}

/// Increments, decrements, shifts and rotates.
#[verifier::opaque]
pub open spec fn modify_effect(mn: Mnemonic, op: Operand, c: Cpu, mem: Seq<u8>) -> (Cpu, Seq<u8>) {
    let v = load_operand(op, c, mem);
    let r = c.registers;
    let fill = flag(c.status.bits, CARRY);
    match mn {
        Mnemonic::INC => {
            let (c1, m1) = store_operand(op, c, mem, wrap8(v + 1));
            (with_zn_of(c1, wrap8(v + 1)), m1)
        },
        Mnemonic::DEC => {
            let (c1, m1) = store_operand(op, c, mem, wrap8(v + 0xff));
            (with_zn_of(c1, wrap8(v + 0xff)), m1)
        },
        Mnemonic::ASL => shifted(op, c, mem, shift_left(v, false)),
        Mnemonic::ROL => shifted(op, c, mem, shift_left(v, fill)),
        Mnemonic::LSR => shifted(op, c, mem, shift_right(v, false)),
        Mnemonic::ROR => shifted(op, c, mem, shift_right(v, fill)),
        Mnemonic::INX => (with_zn_of(with_x(c, wrap8(r.x + 1)), wrap8(r.x + 1)), mem),
        Mnemonic::INY => (with_zn_of(with_y(c, wrap8(r.y + 1)), wrap8(r.y + 1)), mem),
        Mnemonic::DEX => (with_zn_of(with_x(c, wrap8(r.x + 0xff)), wrap8(r.x + 0xff)), mem),
        Mnemonic::DEY => (with_zn_of(with_y(c, wrap8(r.y + 0xff)), wrap8(r.y + 0xff)), mem),
        _ => (c, mem),
    }
}

/// Entering a handler: push `ret` (high byte first) and `pushed`, inhibit
/// interrupts, and continue at the address stored at `vector`.
pub open spec fn enter_handler(c: Cpu, mem: Seq<u8>, ret: u16, pushed: u8, vector: u16) -> (
    Cpu,
    Seq<u8>,
) {
    let (c1, m1) = push_spec(c, mem, (ret / 0x100) as u8);
    let (c2, m2) = push_spec(c1, m1, (ret % 0x100) as u8);
    let (c3, m3) = push_spec(c2, m2, pushed);
    (
        with_pc(with_bits(c3, with_flag(c.status.bits, INTERRUPT, true)), word_at(m3, vector)),
        m3,
    )
}

/// Branches, jumps, subroutine calls and returns, and BRK. The program counter
/// of `c` is already past the instruction.
#[verifier::opaque]
pub open spec fn control_effect(mn: Mnemonic, op: Operand, c: Cpu, mem: Seq<u8>) -> (Cpu, Seq<u8>) {
    let pc = c.registers.pc;
    let bits = c.status.bits;
    match mn {
        Mnemonic::JMP => (with_pc(c, target(op)), mem),
        Mnemonic::JSR => {
            let ret = wrap16(pc + 0xffff);
            let (c1, m1) = push_spec(c, mem, (ret / 0x100) as u8);
            let (c2, m2) = push_spec(c1, m1, (ret % 0x100) as u8);
            (with_pc(c2, target(op)), m2)
        },
        Mnemonic::RTS => {
            let (c1, lo) = pull_spec(c, mem);
            let (c2, hi) = pull_spec(c1, mem);
            (with_pc(c2, wrap16(word(lo, hi) + 1)), mem)
        },
        Mnemonic::RTI => {
            let (c1, pulled) = pull_spec(c, mem);
            let (c2, lo) = pull_spec(c1, mem);
            let (c3, hi) = pull_spec(c2, mem);
            (
                with_pc(with_bits(c3, with_flag(restored(pulled, bits), BREAK, false)), word(lo, hi)),
                mem,
            )
        },
        Mnemonic::BRK => enter_handler(c, mem, wrap16(pc + 1), bits | RESERVED, IRQ_VECTOR),
        _ => if is_branch(mn) && branch_taken(mn, bits) {
            (with_pc(c, target(op)), mem)
        } else {
            (c, mem)
        },
    }
}

/// Pushes and pulls of the accumulator and the status register.
#[verifier::opaque]
pub open spec fn stack_effect(mn: Mnemonic, c: Cpu, mem: Seq<u8>) -> (Cpu, Seq<u8>) {
    let bits = c.status.bits;
    match mn {
        Mnemonic::PHA => push_spec(c, mem, c.registers.a),
        Mnemonic::PHP => push_spec(c, mem, bits | RESERVED),
        Mnemonic::PLA => {
            let (c1, v) = pull_spec(c, mem);
            (with_zn_of(with_a(c1, v), v), mem)
        },
        Mnemonic::PLP => {
            let (c1, v) = pull_spec(c, mem);
            (with_bits(c1, restored(v, bits)), mem)
        },
        _ => (c, mem),
    }
}

/// Flag sets and clears; NOP and undocumented opcodes change nothing.
#[verifier::opaque]
pub open spec fn flag_effect(mn: Mnemonic, c: Cpu) -> Cpu {
    let bits = c.status.bits;
    match mn {
        Mnemonic::CLC => with_bits(c, with_flag(bits, CARRY, false)),
        Mnemonic::SEC => with_bits(c, with_flag(bits, CARRY, true)),
        Mnemonic::CLI => with_bits(c, with_flag(bits, INTERRUPT, false)),
        Mnemonic::SEI => with_bits(c, with_flag(bits, INTERRUPT, true)),
        Mnemonic::CLV => with_bits(c, with_flag(bits, OVERFLOW, false)),
        Mnemonic::CLD => with_bits(c, with_flag(bits, DECIMAL, false)),
        Mnemonic::SED => with_bits(c, with_flag(bits, DECIMAL, true)),
        _ => c,
    }
}

/// The effect of `mn` on operand `op`, with the program counter past the instruction.
pub open spec fn effect(mn: Mnemonic, op: Operand, c: Cpu, mem: Seq<u8>) -> (Cpu, Seq<u8>) {
    match mn {
        Mnemonic::LDA | Mnemonic::LDX | Mnemonic::LDY | Mnemonic::STA | Mnemonic::STX
        | Mnemonic::STY | Mnemonic::TAX | Mnemonic::TAY | Mnemonic::TSX | Mnemonic::TXA
        | Mnemonic::TXS | Mnemonic::TYA => transfer_effect(mn, op, c, mem),
        Mnemonic::ADC | Mnemonic::SBC | Mnemonic::AND | Mnemonic::ORA | Mnemonic::EOR
        | Mnemonic::CMP | Mnemonic::CPX | Mnemonic::CPY | Mnemonic::BIT => (
            arithmetic_effect(mn, op, c, mem),
            mem,
        ),
        Mnemonic::INC | Mnemonic::DEC | Mnemonic::ASL | Mnemonic::LSR | Mnemonic::ROL
        | Mnemonic::ROR | Mnemonic::INX | Mnemonic::INY | Mnemonic::DEX | Mnemonic::DEY => {
            modify_effect(mn, op, c, mem)
        },
        Mnemonic::BCC | Mnemonic::BCS | Mnemonic::BEQ | Mnemonic::BNE | Mnemonic::BMI
        | Mnemonic::BPL | Mnemonic::BVC | Mnemonic::BVS | Mnemonic::JMP | Mnemonic::JSR
        | Mnemonic::RTS | Mnemonic::RTI | Mnemonic::BRK => control_effect(mn, op, c, mem),
        Mnemonic::PHA | Mnemonic::PHP | Mnemonic::PLA | Mnemonic::PLP => stack_effect(mn, c, mem),
        _ => (flag_effect(mn, c), mem),
    }
}

/// Executing a decoded instruction on its resolved operand: the new state, the new
/// memory, and the cycles taken.
pub open spec fn execute_spec(ins: Instruction, eff: EffectiveOperand, c: Cpu, mem: Seq<u8>) -> (
    Cpu,
    Seq<u8>,
    u8,
) {
    let (c1, m1) = effect(ins.mnemonic, eff.operand, c, mem);
    (c1, m1, cycle_cost(ins, eff, c))
}

/// One instruction from the program counter: fetch the opcode, decode it, resolve
/// its operand, execute it.
#[verifier::opaque]
pub open spec fn step_spec(c: Cpu, mem: Seq<u8>) -> (Cpu, Seq<u8>, u8) {
    let ins = decoded(mem[c.registers.pc as int]);
    let fetched = with_pc(c, wrap16(c.registers.pc + 1));
    let (eff, resolved) = resolve_spec(ins.mode, fetched, mem);
    execute_spec(ins, eff, resolved, mem)
}

/// `n` steps in a row: the final state, the final memory and the total cycles.
pub open spec fn run_spec(c: Cpu, mem: Seq<u8>, n: nat) -> (Cpu, Seq<u8>, int)
    decreases n,
{
    if n == 0 {
        (c, mem, 0)
    } else {
        let (c1, m1, total) = run_spec(c, mem, (n - 1) as nat);
        let (c2, m2, k) = step_spec(c1, m1);
        (c2, m2, total + k)
    }
}

/// A step writes memory only in place: its size is kept.
pub proof fn lemma_step_keeps_size(c: Cpu, mem: Seq<u8>)
    requires
        mem.len() == ADDRESS_SPACE,
    ensures
        step_spec(c, mem).1.len() == ADDRESS_SPACE,
{
    reveal(step_spec);
    reveal(transfer_effect);
    reveal(modify_effect);
    reveal(control_effect);
    reveal(stack_effect);
}

/// No table entry costs more than seven cycles, and no instruction that writes its
/// operand has an immediate form.
pub proof fn lemma_table_bounds(opcode: u8)
    ensures
        decoded(opcode).cycles <= 7,
        decoded(opcode).mode == AddressingMode::IMM ==> !writes_operand(decoded(opcode).mnemonic),
{
}

/// Only immediate mode resolves to an immediate operand.
pub proof fn lemma_immediate_only_from_imm(mode: AddressingMode, c: Cpu, mem: Seq<u8>)
    ensures
        resolved_operand(mode, c, mem).operand is Immediate ==> mode == AddressingMode::IMM,
{
    reveal(indexed);
    reveal(relative);
}

impl Cpu {
    fn operand_value<M: Memory>(&self, op: Operand, mem: &M) -> (r: u8)
        requires
            mem.contents().len() == ADDRESS_SPACE,
        ensures
            r == load_operand(op, *self, mem.contents()),
    {
        match op {
            Operand::Implied => 0,
            Operand::Accumulator => self.registers.a,
            Operand::Immediate(v) => v,
            Operand::Address(a) => mem.read(a),
        }
    }

    /// Writes `v` to the operand. An immediate operand cannot be written.
    fn store<M: Memory>(&mut self, op: Operand, mem: &mut M, v: u8)
        requires
            old(mem).contents().len() == ADDRESS_SPACE,
            !(op is Immediate),
        ensures
            (*final(self), final(mem).contents()) == store_operand(
                op,
                *old(self),
                old(mem).contents(),
                v,
            ),
    {
        match op {
            Operand::Accumulator => self.registers.a = v,
            Operand::Address(a) => mem.write(a, v),
            _ => {},
        }
    }

    fn push<M: Memory>(&mut self, mem: &mut M, v: u8)
        requires
            old(mem).contents().len() == ADDRESS_SPACE,
        ensures
            (*final(self), final(mem).contents()) == push_spec(*old(self), old(mem).contents(), v),
    {
        let s = self.registers.s;
        mem.write(STACK_PAGE + s as u16, v);
        self.registers.s = s.wrapping_sub(1);
    }

    fn pull<M: Memory>(&mut self, mem: &M) -> (r: u8)
        requires
            mem.contents().len() == ADDRESS_SPACE,
        ensures
            (*final(self), r) == pull_spec(*old(self), mem.contents()),
    {
        let s = self.registers.s.wrapping_add(1);
        self.registers.s = s;
        mem.read(STACK_PAGE + s as u16)
    }

    fn transfer<M: Memory>(&mut self, mn: Mnemonic, op: Operand, mem: &mut M)
        requires
            old(mem).contents().len() == ADDRESS_SPACE,
            writes_operand(mn) ==> !(op is Immediate),
        ensures
            (*final(self), final(mem).contents()) == transfer_effect(
                mn,
                op,
                *old(self),
                old(mem).contents(),
            ),
    {
        reveal(transfer_effect);
        let r = self.registers;
        match mn {
            Mnemonic::LDA => {
                let v = self.operand_value(op, mem);
                self.registers.a = v;
                self.status.set_zn(v);
            },
            Mnemonic::LDX => {
                let v = self.operand_value(op, mem);
                self.registers.x = v;
                self.status.set_zn(v);
            },
            Mnemonic::LDY => {
                let v = self.operand_value(op, mem);
                self.registers.y = v;
                self.status.set_zn(v);
            },
            Mnemonic::STA => self.store(op, mem, r.a),
            Mnemonic::STX => self.store(op, mem, r.x),
            Mnemonic::STY => self.store(op, mem, r.y),
            Mnemonic::TAX => {
                self.registers.x = r.a;
                self.status.set_zn(r.a);
            },
            Mnemonic::TAY => {
                self.registers.y = r.a;
                self.status.set_zn(r.a);
            },
            Mnemonic::TSX => {
                self.registers.x = r.s;
                self.status.set_zn(r.s);
            },
            Mnemonic::TXA => {
                self.registers.a = r.x;
                self.status.set_zn(r.x);
            },
            Mnemonic::TXS => self.registers.s = r.x,
            Mnemonic::TYA => {
                self.registers.a = r.y;
                self.status.set_zn(r.y);
            },
            _ => {},
        }
    }

    fn set_arithmetic_flags(&mut self, out: (u8, bool, bool))
        ensures
            *final(self) == with_bits(*old(self), arithmetic_status(old(self).status.bits, out)),
    {
        self.status.set_zn(out.0);
        self.status.set(CARRY, out.1);
        self.status.set(OVERFLOW, out.2);
    }

    fn compare(&mut self, reg: u8, v: u8)
        ensures
            *final(self) == with_bits(*old(self), compare_status(old(self).status.bits, reg, v)),
    {
        self.status.set_zn(reg.wrapping_sub(v));
        self.status.set(CARRY, reg >= v);
    }

    fn arithmetic<M: Memory>(&mut self, mn: Mnemonic, op: Operand, mem: &M)
        requires
            mem.contents().len() == ADDRESS_SPACE,
        ensures
            *final(self) == arithmetic_effect(mn, op, *old(self), mem.contents()),
    {
        reveal(arithmetic_effect);
        let v = self.operand_value(op, mem);
        let r = self.registers;
        match mn {
            Mnemonic::ADC => {
                let out = add_with_carry(r.a, v, self.status.contains(CARRY));
                self.registers.a = out.0;
                self.set_arithmetic_flags(out);
            },
            Mnemonic::SBC => {
                let out = subtract_with_carry(r.a, v, self.status.contains(CARRY));
                self.registers.a = out.0;
                self.set_arithmetic_flags(out);
            },
            Mnemonic::AND => {
                self.registers.a = r.a & v;
                self.status.set_zn(r.a & v);
            },
            Mnemonic::ORA => {
                self.registers.a = r.a | v;
                self.status.set_zn(r.a | v);
            },
            Mnemonic::EOR => {
                self.registers.a = r.a ^ v;
                self.status.set_zn(r.a ^ v);
            },
            Mnemonic::CMP => self.compare(r.a, v),
            Mnemonic::CPX => self.compare(r.x, v),
            Mnemonic::CPY => self.compare(r.y, v),
            Mnemonic::BIT => {
                self.status.set(ZERO, r.a & v == 0);
                self.status.set(OVERFLOW, v & OVERFLOW != 0);
                self.status.set(NEGATIVE, v & NEGATIVE != 0);
            },
            _ => {},
        }
    }

    fn store_shifted<M: Memory>(&mut self, op: Operand, mem: &mut M, out: (u8, bool))
        requires
            old(mem).contents().len() == ADDRESS_SPACE,
            !(op is Immediate),
        ensures
            (*final(self), final(mem).contents()) == shifted(
                op,
                *old(self),
                old(mem).contents(),
                out,
            ),
    {
        self.store(op, mem, out.0);
        self.status.set_zn(out.0);
        self.status.set(CARRY, out.1);
    }

    fn modify<M: Memory>(&mut self, mn: Mnemonic, op: Operand, mem: &mut M)
        requires
            old(mem).contents().len() == ADDRESS_SPACE,
            writes_operand(mn) ==> !(op is Immediate),
        ensures
            (*final(self), final(mem).contents()) == modify_effect(
                mn,
                op,
                *old(self),
                old(mem).contents(),
            ),
    {
        reveal(modify_effect);
        let r = self.registers;
        let fill = self.status.contains(CARRY);
        match mn {
            Mnemonic::INC => {
                let v = self.operand_value(op, mem).wrapping_add(1);
                self.store(op, mem, v);
                self.status.set_zn(v);
            },
            Mnemonic::DEC => {
                let v = self.operand_value(op, mem).wrapping_sub(1);
                self.store(op, mem, v);
                self.status.set_zn(v);
            },
            Mnemonic::ASL => {
                let v = self.operand_value(op, mem);
                self.store_shifted(op, mem, rotate_left(v, false));
            },
            Mnemonic::ROL => {
                let v = self.operand_value(op, mem);
                self.store_shifted(op, mem, rotate_left(v, fill));
            },
            Mnemonic::LSR => {
                let v = self.operand_value(op, mem);
                self.store_shifted(op, mem, rotate_right(v, false));
            },
            Mnemonic::ROR => {
                let v = self.operand_value(op, mem);
                self.store_shifted(op, mem, rotate_right(v, fill));
            },
            Mnemonic::INX => {
                self.registers.x = r.x.wrapping_add(1);
                self.status.set_zn(r.x.wrapping_add(1));
            },
            Mnemonic::INY => {
                self.registers.y = r.y.wrapping_add(1);
                self.status.set_zn(r.y.wrapping_add(1));
            },
            Mnemonic::DEX => {
                self.registers.x = r.x.wrapping_sub(1);
                self.status.set_zn(r.x.wrapping_sub(1));
            },
            Mnemonic::DEY => {
                self.registers.y = r.y.wrapping_sub(1);
                self.status.set_zn(r.y.wrapping_sub(1));
            },
            _ => {},
        }
    }

    fn enter_interrupt<M: Memory>(&mut self, mem: &mut M, ret: u16, pushed: u8, vector: u16)
        requires
            old(mem).contents().len() == ADDRESS_SPACE,
            vector == NMI_VECTOR || vector == IRQ_VECTOR,
        ensures
            (*final(self), final(mem).contents()) == enter_handler(
                *old(self),
                old(mem).contents(),
                ret,
                pushed,
                vector,
            ),
    {
        self.push(mem, (ret / 0x100) as u8);
        self.push(mem, (ret % 0x100) as u8);
        self.push(mem, pushed);
        self.status.set(INTERRUPT, true);
        self.registers.pc = self.read_vector(mem, vector);
    }

    fn branch_condition(&self, mn: Mnemonic) -> (r: bool)
        ensures
            r == (is_branch(mn) && branch_taken(mn, self.status.bits)),
    {
        match mn {
            Mnemonic::BCC => !self.status.contains(CARRY),
            Mnemonic::BCS => self.status.contains(CARRY),
            Mnemonic::BEQ => self.status.contains(ZERO),
            Mnemonic::BNE => !self.status.contains(ZERO),
            Mnemonic::BMI => self.status.contains(NEGATIVE),
            Mnemonic::BPL => !self.status.contains(NEGATIVE),
            Mnemonic::BVC => !self.status.contains(OVERFLOW),
            Mnemonic::BVS => self.status.contains(OVERFLOW),
            _ => false,
        }
    }

    fn control<M: Memory>(&mut self, mn: Mnemonic, op: Operand, mem: &mut M)
        requires
            old(mem).contents().len() == ADDRESS_SPACE,
        ensures
            (*final(self), final(mem).contents()) == control_effect(
                mn,
                op,
                *old(self),
                old(mem).contents(),
            ),
    {
        reveal(control_effect);
        let pc = self.registers.pc;
        let bits = self.status.bits;
        let destination: u16 = match op {
            Operand::Address(a) => a,
            _ => 0,
        };
        match mn {
            Mnemonic::JMP => self.registers.pc = destination,
            Mnemonic::JSR => {
                let ret = pc.wrapping_sub(1);
                self.push(mem, (ret / 0x100) as u8);
                self.push(mem, (ret % 0x100) as u8);
                self.registers.pc = destination;
            },
            Mnemonic::RTS => {
                let lo = self.pull(mem);
                let hi = self.pull(mem);
                self.registers.pc = le_word(lo, hi).wrapping_add(1);
            },
            Mnemonic::RTI => {
                let pulled = self.pull(mem);
                let lo = self.pull(mem);
                let hi = self.pull(mem);
                self.status.bits = (pulled & MEANINGFUL) | (bits & RESERVED);
                self.status.set(BREAK, false);
                self.registers.pc = le_word(lo, hi);
            },
            Mnemonic::BRK => self.enter_interrupt(mem, pc.wrapping_add(1), bits | RESERVED, IRQ_VECTOR),
            _ => {
                if self.branch_condition(mn) {
                    self.registers.pc = destination;
                }
            },
        }
    }

    fn stack<M: Memory>(&mut self, mn: Mnemonic, mem: &mut M)
        requires
            old(mem).contents().len() == ADDRESS_SPACE,
        ensures
            (*final(self), final(mem).contents()) == stack_effect(mn, *old(self), old(mem).contents()),
    {
        reveal(stack_effect);
        let bits = self.status.bits;
        match mn {
            Mnemonic::PHA => {
                let a = self.registers.a;
                self.push(mem, a);
            },
            Mnemonic::PHP => self.push(mem, bits | RESERVED),
            Mnemonic::PLA => {
                let v = self.pull(mem);
                self.registers.a = v;
                self.status.set_zn(v);
            },
            Mnemonic::PLP => {
                let v = self.pull(mem);
                self.status.bits = (v & MEANINGFUL) | (bits & RESERVED);
            },
            _ => {},
        }
    }

    fn flags(&mut self, mn: Mnemonic)
        ensures
            *final(self) == flag_effect(mn, *old(self)),
    {
        reveal(flag_effect);
        match mn {
            Mnemonic::CLC => self.status.set(CARRY, false),
            Mnemonic::SEC => self.status.set(CARRY, true),
            Mnemonic::CLI => self.status.set(INTERRUPT, false),
            Mnemonic::SEI => self.status.set(INTERRUPT, true),
            Mnemonic::CLV => self.status.set(OVERFLOW, false),
            Mnemonic::CLD => self.status.set(DECIMAL, false),
            Mnemonic::SED => self.status.set(DECIMAL, true),
            _ => {},
        }
    }

    fn cycles_for(&self, ins: Instruction, eff: EffectiveOperand) -> (r: u8)
        requires
            ins.cycles <= 7,
        ensures
            r == cycle_cost(ins, eff, *self),
    {
        let mn = ins.mnemonic;
        let branch = matches!(mn, Mnemonic::BCC | Mnemonic::BCS | Mnemonic::BEQ | Mnemonic::BNE
            | Mnemonic::BMI | Mnemonic::BPL | Mnemonic::BVC | Mnemonic::BVS);
        let penalised = matches!(mn, Mnemonic::LDA | Mnemonic::LDX | Mnemonic::LDY
            | Mnemonic::ADC | Mnemonic::SBC | Mnemonic::AND | Mnemonic::ORA | Mnemonic::EOR
            | Mnemonic::CMP);
        if branch {
            if !self.branch_condition(mn) {
                ins.cycles
            } else if eff.page_crossed {
                ins.cycles + 2
            } else {
                ins.cycles + 1
            }
        } else if penalised && eff.page_crossed {
            ins.cycles + 1
        } else {
            ins.cycles
        }
    }

    /// Executes a decoded instruction on its resolved operand, with the program
    /// counter already past the instruction; returns the cycles taken.
    pub fn execute<M: Memory>(&mut self, ins: Instruction, eff: EffectiveOperand, mem: &mut M) -> (r:
        u8)
        requires
            old(mem).contents().len() == ADDRESS_SPACE,
            ins == decoded(ins.opcode),
            writes_operand(ins.mnemonic) ==> !(eff.operand is Immediate),
        ensures
            (*final(self), final(mem).contents(), r) == execute_spec(
                ins,
                eff,
                *old(self),
                old(mem).contents(),
            ),
    {
        proof {
            lemma_table_bounds(ins.opcode);
        }
        let cycles = self.cycles_for(ins, eff);
        let mn = ins.mnemonic;
        let op = eff.operand;
        match mn {
            Mnemonic::LDA | Mnemonic::LDX | Mnemonic::LDY | Mnemonic::STA | Mnemonic::STX
            | Mnemonic::STY | Mnemonic::TAX | Mnemonic::TAY | Mnemonic::TSX | Mnemonic::TXA
            | Mnemonic::TXS | Mnemonic::TYA => self.transfer(mn, op, mem),
            Mnemonic::ADC | Mnemonic::SBC | Mnemonic::AND | Mnemonic::ORA | Mnemonic::EOR
            | Mnemonic::CMP | Mnemonic::CPX | Mnemonic::CPY | Mnemonic::BIT => {
                self.arithmetic(mn, op, mem)
            },
            Mnemonic::INC | Mnemonic::DEC | Mnemonic::ASL | Mnemonic::LSR | Mnemonic::ROL
            | Mnemonic::ROR | Mnemonic::INX | Mnemonic::INY | Mnemonic::DEX | Mnemonic::DEY => {
                self.modify(mn, op, mem)
            },
            Mnemonic::BCC | Mnemonic::BCS | Mnemonic::BEQ | Mnemonic::BNE | Mnemonic::BMI
            | Mnemonic::BPL | Mnemonic::BVC | Mnemonic::BVS | Mnemonic::JMP | Mnemonic::JSR
            | Mnemonic::RTS | Mnemonic::RTI | Mnemonic::BRK => self.control(mn, op, mem),
            Mnemonic::PHA | Mnemonic::PHP | Mnemonic::PLA | Mnemonic::PLP => self.stack(mn, mem),
            _ => self.flags(mn),
        }
        cycles
    }
    /// Executes the instruction at the program counter; returns the cycles it took.
    pub fn step<M: Memory>(&mut self, mem: &mut M) -> (r: u8)
        requires
            old(mem).contents().len() == ADDRESS_SPACE,
        ensures
            (*final(self), final(mem).contents(), r) == step_spec(*old(self), old(mem).contents()),
    {
        reveal(step_spec);
        let opcode = self.read_one(mem);
        let ins = decode(opcode);
        let ghost fetched = *self;
        let eff = self.resolve(ins.mode, mem);
        proof {
            lemma_table_bounds(opcode);
            lemma_immediate_only_from_imm(ins.mode, fetched, mem.contents());
        }
        self.execute(ins, eff, mem)
    }

    /// Executes `steps` instructions in a row; returns the total cycles taken.
    pub fn run<M: Memory>(&mut self, mem: &mut M, steps: u32) -> (r: u64)
        requires
            old(mem).contents().len() == ADDRESS_SPACE,
        ensures
            (*final(self), final(mem).contents(), r as int) == run_spec(
                *old(self),
                old(mem).contents(),
                steps as nat,
            ),
    {
        let mut total: u64 = 0;
        let mut i: u32 = 0;
        while i < steps
            invariant
                i <= steps,
                mem.contents().len() == ADDRESS_SPACE,
                total <= 0xff * i,
                (*self, mem.contents(), total as int) == run_spec(
                    *old(self),
                    old(mem).contents(),
                    i as nat,
                ),
            decreases steps - i,
        {
            proof {
                lemma_step_keeps_size(*self, mem.contents());
            }
            let cycles = self.step(mem);
            total = total + cycles as u64;
            i = i + 1;
        }
        total
    }

    /// A maskable interrupt request, taken at an instruction boundary: ignored while
    /// interrupts are inhibited (no cycles); otherwise the program counter and the
    /// status (bit 4 clear) are pushed and the IRQ handler entered.
    pub fn irq<M: Memory>(&mut self, mem: &mut M) -> (r: u8)
        requires
            old(mem).contents().len() == ADDRESS_SPACE,
        ensures
            if flag(old(self).status.bits, INTERRUPT) {
                &&& *final(self) == *old(self)
                &&& final(mem).contents() == old(mem).contents()
                &&& r == 0
            } else {
                &&& (*final(self), final(mem).contents()) == enter_handler(
                    *old(self),
                    old(mem).contents(),
                    old(self).registers.pc,
                    interrupt_status(old(self).status.bits),
                    IRQ_VECTOR,
                )
                &&& r == INTERRUPT_CYCLES
            },
    {
        if self.status.contains(INTERRUPT) {
            0
        } else {
            let pushed = self.interrupt_byte();
            let pc = self.registers.pc;
            self.enter_interrupt(mem, pc, pushed, IRQ_VECTOR);
            INTERRUPT_CYCLES
        }
    }

    /// A non-maskable interrupt, taken at an instruction boundary: the program
    /// counter and the status (bit 4 clear) are pushed and the NMI handler entered.
    pub fn nmi<M: Memory>(&mut self, mem: &mut M) -> (r: u8)
        requires
            old(mem).contents().len() == ADDRESS_SPACE,
        ensures
            (*final(self), final(mem).contents()) == enter_handler(
                *old(self),
                old(mem).contents(),
                old(self).registers.pc,
                interrupt_status(old(self).status.bits),
                NMI_VECTOR,
            ),
            r == INTERRUPT_CYCLES,
    {
        let pushed = self.interrupt_byte();
        let pc = self.registers.pc;
        self.enter_interrupt(mem, pc, pushed, NMI_VECTOR);
        INTERRUPT_CYCLES
    }

    fn interrupt_byte(&self) -> (r: u8)
        ensures
            r == interrupt_status(self.status.bits),
    {
        let mut pushed = self.status;
        pushed.set(UNUSED, true);
        pushed.set(BREAK, false);
        pushed.bits
    }
}

} // verus!
