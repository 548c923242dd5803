//! Properties of the instruction set that hold for every state and every memory.
use vstd::prelude::*;
use crate::alu::{
    adc_spec, carry_value, lemma_adc_overflow_bits, lemma_sbc_is_adc_of_complement,
};
use crate::cpu::{
    Cpu, Operand, indirect_high_address, offset, page, relative, stack_address, word_at, wrap16,
    wrap8,
};
use crate::execute::{
    arithmetic_effect, branch_taken, control_effect, effect, is_branch, load_operand, stack_effect,
    step_spec,
};
use crate::instructions::{AddressingMode, Mnemonic, decoded};
use crate::memory::{ADDRESS_SPACE, word};
use crate::status::{
    CARRY, DECIMAL, INTERRUPT, MEANINGFUL, NEGATIVE, OVERFLOW, RESERVED, ZERO, flag,
    lemma_flag_of_with_flag,
};

verus! {

broadcast use lemma_flag_of_with_flag;

/// ADC then SBC of the same operand, where the SBC's carry in is the carry that
/// the ADC produced, gives back the accumulator whenever that carry is the
/// complement of the ADC's own carry in.
pub proof fn lemma_adc_then_sbc_restores_accumulator(c: Cpu, mem: Seq<u8>, b: u8)
    requires
        adc_spec(c.registers.a, b, flag(c.status.bits, CARRY)).1 != flag(c.status.bits, CARRY),
    ensures
        ({
            let after_adc = effect(Mnemonic::ADC, Operand::Immediate(b), c, mem).0;
            let after_sbc = effect(Mnemonic::SBC, Operand::Immediate(b), after_adc, mem).0;
            after_sbc.registers.a == c.registers.a
        }),
{
    reveal(arithmetic_effect);
}

/// ADC, on any operand: the accumulator becomes the low byte of `a + m + carry`,
/// Carry the carry out of bit 7, Overflow set when `a` and `m` agree in sign and the
/// result does not, Zero and Negative from the result; Interrupt and Decimal are
/// kept, and Decimal does not change the result.
pub proof fn lemma_adc_flags(c: Cpu, mem: Seq<u8>, op: Operand)
    ensures
        ({
            let a = c.registers.a;
            let m = load_operand(op, c, mem);
            let sum = a + m + carry_value(flag(c.status.bits, CARRY));
            let after = effect(Mnemonic::ADC, op, c, mem).0;
            let r = after.registers.a;
            let bits = after.status.bits;
            &&& r == sum % 0x100
            &&& flag(bits, CARRY) == (sum > 0xff)
            &&& flag(bits, OVERFLOW) == ((a ^ r) & (m ^ r) & 0x80 != 0)
            &&& flag(bits, ZERO) == (r == 0)
            &&& flag(bits, NEGATIVE) == (r >= 0x80)
            &&& flag(bits, INTERRUPT) == flag(c.status.bits, INTERRUPT)
            &&& flag(bits, DECIMAL) == flag(c.status.bits, DECIMAL)
        }),
{
    reveal(arithmetic_effect);
    lemma_adc_overflow_bits(c.registers.a, load_operand(op, c, mem), flag(c.status.bits, CARRY));
}

/// SBC, on any operand: the accumulator becomes `a - m - borrow` modulo 256, where
/// the borrow is the complement of Carry; Carry is set when no borrow occurred,
/// Overflow as for ADC of the complemented operand, Zero and Negative from the
/// result; Interrupt and Decimal are kept, and Decimal does not change the result.
pub proof fn lemma_sbc_flags(c: Cpu, mem: Seq<u8>, op: Operand)
    ensures
        ({
            let a = c.registers.a;
            let m = load_operand(op, c, mem);
            let diff = a - m - (1 - carry_value(flag(c.status.bits, CARRY)));
            let after = effect(Mnemonic::SBC, op, c, mem).0;
            let r = after.registers.a;
            let bits = after.status.bits;
            &&& r == (diff + 0x100) % 0x100
            &&& flag(bits, CARRY) == (diff >= 0)
            &&& flag(bits, OVERFLOW) == ((a ^ r) & (!m ^ r) & 0x80 != 0)
            &&& flag(bits, ZERO) == (r == 0)
            &&& flag(bits, NEGATIVE) == (r >= 0x80)
            &&& flag(bits, INTERRUPT) == flag(c.status.bits, INTERRUPT)
            &&& flag(bits, DECIMAL) == flag(c.status.bits, DECIMAL)
        }),
{
    reveal(arithmetic_effect);
    let m = load_operand(op, c, mem);
    lemma_sbc_is_adc_of_complement(c.registers.a, m, flag(c.status.bits, CARRY));
    lemma_adc_overflow_bits(c.registers.a, !m, flag(c.status.bits, CARRY));
}

/// BIT copies bits 7 and 6 of the operand into Negative and Overflow whatever the
/// accumulator holds, sets Zero exactly when the accumulator AND the operand is
/// zero, and leaves the registers alone.
pub proof fn lemma_bit_flags(c: Cpu, mem: Seq<u8>, op: Operand)
    ensures
        ({
            let v = load_operand(op, c, mem);
            let (after, m) = effect(Mnemonic::BIT, op, c, mem);
            &&& flag(after.status.bits, NEGATIVE) == (v & 0x80 != 0)
            &&& flag(after.status.bits, OVERFLOW) == (v & 0x40 != 0)
            &&& flag(after.status.bits, ZERO) == (c.registers.a & v == 0)
            &&& flag(after.status.bits, CARRY) == flag(c.status.bits, CARRY)
            &&& after.registers == c.registers
            &&& m == mem
        }),
{
    reveal(arithmetic_effect);
}

/// A conditional branch costs two cycles when not taken, three when taken to the
/// same page as the next instruction, and four when taken to another page.
pub proof fn lemma_branch_cycles(c: Cpu, mem: Seq<u8>)
    requires
        mem.len() == ADDRESS_SPACE,
        is_branch(decoded(mem[c.registers.pc as int]).mnemonic),
    ensures
        ({
            let pc = c.registers.pc;
            let next = wrap16(pc + 2);
            let destination = wrap16(next + offset(mem[wrap16(pc + 1) as int]));
            let taken = branch_taken(decoded(mem[pc as int]).mnemonic, c.status.bits);
            let (after, _, cycles) = step_spec(c, mem);
            &&& !taken ==> cycles == 2 && after.registers.pc == next
            &&& taken && page(next) == page(destination) ==> cycles == 3
                && after.registers.pc == destination
            &&& taken && page(next) != page(destination) ==> cycles == 4
                && after.registers.pc == destination
        }),
{
    reveal(step_spec);
    reveal(relative);
    reveal(control_effect);
}

/// PHA then PLA gives back the accumulator and the stack pointer.
pub proof fn lemma_pha_pla(c: Cpu, mem: Seq<u8>)
    requires
        mem.len() == ADDRESS_SPACE,
    ensures
        ({
            let (pushed, m) = effect(Mnemonic::PHA, Operand::Implied, c, mem);
            let (pulled, _) = effect(Mnemonic::PLA, Operand::Implied, pushed, m);
            pulled.registers.a == c.registers.a && pulled.registers.s == c.registers.s
        }),
{
    reveal(stack_effect);
}

/// PHP then PLP gives back the whole status register, and the stack pointer.
pub proof fn lemma_php_plp(c: Cpu, mem: Seq<u8>)
    requires
        mem.len() == ADDRESS_SPACE,
    ensures
        ({
            let (pushed, m) = effect(Mnemonic::PHP, Operand::Implied, c, mem);
            let (pulled, _) = effect(Mnemonic::PLP, Operand::Implied, pushed, m);
            pulled.status == c.status && pulled.registers.s == c.registers.s
        }),
{
    reveal(stack_effect);
    let p = c.status.bits;
    assert(((p | 0x30) & 0xcf) | (p & 0x30) == p) by (bit_vector);
}

/// PHA stores the accumulator in the current stack slot and moves the stack
/// pointer down; the rest of memory and the other registers are kept.
pub proof fn lemma_pha_step(c: Cpu, mem: Seq<u8>)
    requires
        mem.len() == ADDRESS_SPACE,
        mem[c.registers.pc as int] == 0x48,
    ensures
        ({
            let (after, m, cycles) = step_spec(c, mem);
            &&& m == mem.update(stack_address(c.registers.s) as int, c.registers.a)
            &&& after.registers.s == wrap8(c.registers.s + 0xff)
            &&& after.registers.a == c.registers.a
            &&& after.status == c.status
            &&& cycles == 3
        }),
{
    reveal(step_spec);
    reveal(stack_effect);
    assert(decoded(0x48).mnemonic == Mnemonic::PHA);
}

/// PLA run when the stack pointer is one below `s0` loads the byte in slot `s0`
/// and brings the stack pointer back to `s0`, whatever ran since that byte was
/// pushed.
pub proof fn lemma_pla_step(c: Cpu, mem: Seq<u8>, s0: u8)
    requires
        mem.len() == ADDRESS_SPACE,
        mem[c.registers.pc as int] == 0x68,
        c.registers.s == wrap8(s0 + 0xff),
    ensures
        ({
            let v = mem[stack_address(s0) as int];
            let (after, m, cycles) = step_spec(c, mem);
            &&& after.registers.a == v
            &&& after.registers.s == s0
            &&& flag(after.status.bits, ZERO) == (v == 0)
            &&& flag(after.status.bits, NEGATIVE) == (v >= 0x80)
            &&& m == mem
            &&& cycles == 4
        }),
{
    reveal(step_spec);
    reveal(stack_effect);
    assert(decoded(0x68).mnemonic == Mnemonic::PLA);
}

/// PHP stores the status, with both reserved bits set, in the current stack slot
/// and moves the stack pointer down.
pub proof fn lemma_php_step(c: Cpu, mem: Seq<u8>)
    requires
        mem.len() == ADDRESS_SPACE,
        mem[c.registers.pc as int] == 0x08,
    ensures
        ({
            let (after, m, cycles) = step_spec(c, mem);
            &&& m == mem.update(stack_address(c.registers.s) as int, c.status.bits | RESERVED)
            &&& after.registers.s == wrap8(c.registers.s + 0xff)
            &&& after.status == c.status
            &&& cycles == 3
        }),
{
    reveal(step_spec);
    reveal(stack_effect);
    assert(decoded(0x08).mnemonic == Mnemonic::PHP);
}

/// PLP run when the stack pointer is one below `s0`, and slot `s0` holds what PHP
/// pushed from status `p0`, restores the six flags of `p0` and brings the stack
/// pointer back to `s0`, whatever ran in between.
pub proof fn lemma_plp_step(c: Cpu, mem: Seq<u8>, s0: u8, p0: u8)
    requires
        mem.len() == ADDRESS_SPACE,
        mem[c.registers.pc as int] == 0x28,
        c.registers.s == wrap8(s0 + 0xff),
        mem[stack_address(s0) as int] == p0 | RESERVED,
    ensures
        ({
            let (after, m, cycles) = step_spec(c, mem);
            &&& after.status.bits & MEANINGFUL == p0 & MEANINGFUL
            &&& after.status.bits & RESERVED == c.status.bits & RESERVED
            &&& after.registers.s == s0
            &&& m == mem
            &&& cycles == 4
        }),
{
    reveal(step_spec);
    reveal(stack_effect);
    assert(decoded(0x28).mnemonic == Mnemonic::PLP);
    let cur = c.status.bits;
    assert(((((p0 | 0x30) & 0xcf) | (cur & 0x30)) & 0xcf) == p0 & 0xcf && ((((p0 | 0x30)
        & 0xcf) | (cur & 0x30)) & 0x30) == cur & 0x30) by (bit_vector);
}

/// JSR pushes the address of its own last byte, high byte first, and jumps to
/// its operand.
pub proof fn lemma_jsr_step(c: Cpu, mem: Seq<u8>)
    requires
        mem.len() == ADDRESS_SPACE,
        mem[c.registers.pc as int] == 0x20,
    ensures
        ({
            let pc = c.registers.pc;
            let s = c.registers.s;
            let ret = wrap16(pc + 2);
            let (called, m, cycles) = step_spec(c, mem);
            &&& cycles == 6
            &&& called.registers.pc == word_at(mem, wrap16(pc + 1))
            &&& called.registers.s == wrap8(s + 0xfe)
            &&& m == mem.update(stack_address(s) as int, (ret / 0x100) as u8).update(
                stack_address(wrap8(s + 0xff)) as int,
                (ret % 0x100) as u8,
            )
        }),
{
    reveal(step_spec);
    reveal(control_effect);
    let pc = c.registers.pc;
    assert(wrap16(wrap16(pc + 1) + 2) == wrap16(pc + 3));
    assert(wrap16(wrap16(pc + 3) + 0xffff) == wrap16(pc + 2));
    let jsr = decoded(0x20);
    assert(jsr.mnemonic == Mnemonic::JSR && jsr.mode == AddressingMode::ABS);
}

/// RTS pulls an address, low byte first, and continues one past it.
pub proof fn lemma_rts_step(c: Cpu, mem: Seq<u8>)
    requires
        mem.len() == ADDRESS_SPACE,
        mem[c.registers.pc as int] == 0x60,
    ensures
        ({
            let s = c.registers.s;
            let lo = mem[stack_address(wrap8(s + 1)) as int];
            let hi = mem[stack_address(wrap8(s + 2)) as int];
            let (returned, m, cycles) = step_spec(c, mem);
            &&& cycles == 6
            &&& m == mem
            &&& returned.registers.pc == wrap16(word(lo, hi) + 1)
            &&& returned.registers.s == wrap8(s + 2)
        }),
{
    reveal(step_spec);
    reveal(control_effect);
    let rts = decoded(0x60);
    assert(rts.mnemonic == Mnemonic::RTS && rts.mode == AddressingMode::IMP);
}

/// A JSR to `X` followed by the RTS found at `X` returns to the instruction after
/// the JSR, with the stack pointer as it was; provided the two bytes the JSR
/// pushes do not overwrite that RTS.
pub proof fn lemma_jsr_rts(c: Cpu, mem: Seq<u8>)
    requires
        mem.len() == ADDRESS_SPACE,
        mem[c.registers.pc as int] == 0x20,
        mem[word_at(mem, wrap16(c.registers.pc + 1)) as int] == 0x60,
        word_at(mem, wrap16(c.registers.pc + 1)) != stack_address(c.registers.s),
        word_at(mem, wrap16(c.registers.pc + 1)) != stack_address(wrap8(c.registers.s + 0xff)),
    ensures
        ({
            let (called, m, _) = step_spec(c, mem);
            let (returned, _, _) = step_spec(called, m);
            &&& called.registers.pc == word_at(mem, wrap16(c.registers.pc + 1))
            &&& returned.registers.pc == wrap16(c.registers.pc + 3)
            &&& returned.registers.s == c.registers.s
        }),
{
    let pc = c.registers.pc;
    let s = c.registers.s;
    let ret = wrap16(pc + 2);
    lemma_jsr_step(c, mem);
    let (called, m, _) = step_spec(c, mem);
    lemma_rts_step(called, m);
    assert(wrap8(wrap8(s + 0xfe) + 1) == wrap8(s + 0xff));
    assert(wrap8(wrap8(s + 0xfe) + 2) == s);
    assert(stack_address(s) != stack_address(wrap8(s + 0xff)));
    assert(word((ret % 0x100) as u8, (ret / 0x100) as u8) == ret);
}

/// An indirect JMP through a pointer at `$xxFF` takes the high byte of its target
/// from `$xx00`, not from the next page.
pub proof fn lemma_indirect_jump_page_wrap(c: Cpu, mem: Seq<u8>)
    requires
        mem.len() == ADDRESS_SPACE,
        mem[c.registers.pc as int] == 0x6c,
        word_at(mem, wrap16(c.registers.pc + 1)) % 0x100 == 0xff,
    ensures
        ({
            let pointer = word_at(mem, wrap16(c.registers.pc + 1));
            step_spec(c, mem).0.registers.pc == word(
                mem[pointer as int],
                mem[pointer - 0xff],
            )
        }),
{
    reveal(step_spec);
    reveal(control_effect);
    reveal(indirect_high_address);
}

} // verus!
