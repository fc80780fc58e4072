//! Facts about the instruction semantics, proved from their definitions.

use vstd::prelude::*;
use crate::cpu::Cpu;
use crate::memory::{
    byte_at, operand_byte, operand_word, relative_address, AddressingMode, MEMORY_SIZE,
};
use crate::opcodes::{
    decode_spec, instruction_length, is_branch, sets_program_counter, theorem_branches_are_relative,
    Instruction, Opcode,
};
use crate::semantics::{
    add_with_carry, branch, branch_penalty, branch_taken, execute, execute_decoded,
    instruction_cycles, jump_to_subroutine, operand_address, perform, pull16, pull8, pulled_status,
    push16, push8, pushed_status, return_from_subroutine, stack_address, step, subtract_with_carry,
};
use crate::status::{
    carry_in, flag, is_flag_mask, lemma_with_flag, lemma_with_zn, with_flag, FLAG_B, FLAG_CARRY,
    FLAG_DECIMAL, FLAG_INTERRUPT_DISABLE, FLAG_NEGATIVE, FLAG_OVERFLOW, FLAG_U, FLAG_ZERO,
};
use crate::words::{
    group_wrap_near, high_byte, lemma_word_bytes, lemma_wrap8_sum, lemma_wrap_is_remainder,
    low_byte, page_of, signed8, wrap16, wrap32, wrap8,
};

verus! {

broadcast use group_wrap_near;

/// The flags of `p` that no arithmetic instruction touches are those of `q`.
pub open spec fn same_control_flags(p: u8, q: u8) -> bool {
    &&& flag(p, FLAG_INTERRUPT_DISABLE) == flag(q, FLAG_INTERRUPT_DISABLE)
    &&& flag(p, FLAG_DECIMAL) == flag(q, FLAG_DECIMAL)
    &&& flag(p, FLAG_B) == flag(q, FLAG_B)
    &&& flag(p, FLAG_U) == flag(q, FLAG_U)
}

/// `ADC` adds as unsigned and as signed numbers at once. The accumulator
/// takes the sum of accumulator, operand and carry modulo 256. Carry says
/// that the unsigned sum does not fit in a byte, overflow that the signed
/// sum does not fit in -128..=127, zero that the result is 0, negative that
/// the result read as a signed number is below 0. Nothing else changes.
pub proof fn theorem_adc_flags(c: Cpu, val: u8)
    ensures
        ({
            let after = add_with_carry(c, val);
            let unsigned = c.a + val + carry_in(c.p);
            let signed = signed8(c.a) + signed8(val) + carry_in(c.p);
            &&& after.a == unsigned % 256
            &&& flag(after.p, FLAG_CARRY) == (unsigned > 255)
            &&& flag(after.p, FLAG_OVERFLOW) == (signed < -128 || signed > 127)
            &&& flag(after.p, FLAG_ZERO) == (after.a == 0)
            &&& flag(after.p, FLAG_NEGATIVE) == (signed8(after.a) < 0)
            &&& !flag(after.p, FLAG_OVERFLOW) ==> signed8(after.a) == signed
            &&& !flag(after.p, FLAG_CARRY) ==> after.a == unsigned
            &&& same_control_flags(after.p, c.p)
            &&& after == (Cpu { a: after.a, p: after.p, ..c })
        }),
{
    let sum = c.a + val + carry_in(c.p);
    let result = wrap8(sum);
    lemma_wrap_is_remainder(sum);
    let overflow = ((c.a >= 128) == (val >= 128)) && !((c.a >= 128) == (result >= 128));
    let p1 = with_flag(c.p, FLAG_CARRY, sum > 255);
    let p2 = with_flag(p1, FLAG_OVERFLOW, overflow);
    lemma_with_zn(p2, result);
    lemma_with_flag(p1, FLAG_OVERFLOW, FLAG_OVERFLOW, overflow);
    lemma_with_flag(p1, FLAG_OVERFLOW, FLAG_CARRY, overflow);
    lemma_with_flag(p1, FLAG_OVERFLOW, FLAG_INTERRUPT_DISABLE, overflow);
    lemma_with_flag(p1, FLAG_OVERFLOW, FLAG_DECIMAL, overflow);
    lemma_with_flag(p1, FLAG_OVERFLOW, FLAG_B, overflow);
    lemma_with_flag(p1, FLAG_OVERFLOW, FLAG_U, overflow);
    lemma_with_flag(c.p, FLAG_CARRY, FLAG_CARRY, sum > 255);
    lemma_with_flag(c.p, FLAG_CARRY, FLAG_INTERRUPT_DISABLE, sum > 255);
    lemma_with_flag(c.p, FLAG_CARRY, FLAG_DECIMAL, sum > 255);
    lemma_with_flag(c.p, FLAG_CARRY, FLAG_B, sum > 255);
    lemma_with_flag(c.p, FLAG_CARRY, FLAG_U, sum > 255);
}

/// `SBC` subtracts as unsigned and as signed numbers at once. With the
/// borrow being 1 when carry is clear and 0 when it is set, the accumulator
/// takes accumulator minus operand minus borrow modulo 256. Carry says that
/// the unsigned difference is not below 0, overflow that the signed
/// difference does not fit in -128..=127, zero and negative describe the
/// result. Nothing else changes.
pub proof fn theorem_sbc_flags(c: Cpu, val: u8)
    ensures
        ({
            let after = subtract_with_carry(c, val);
            let borrow = 1 - carry_in(c.p);
            let unsigned = c.a - val - borrow;
            let signed = signed8(c.a) - signed8(val) - borrow;
            &&& after.a == unsigned % 256
            &&& flag(after.p, FLAG_CARRY) == (unsigned >= 0)
            &&& flag(after.p, FLAG_OVERFLOW) == (signed < -128 || signed > 127)
            &&& flag(after.p, FLAG_ZERO) == (after.a == 0)
            &&& flag(after.p, FLAG_NEGATIVE) == (signed8(after.a) < 0)
            &&& !flag(after.p, FLAG_OVERFLOW) ==> signed8(after.a) == signed
            &&& same_control_flags(after.p, c.p)
            &&& after == (Cpu { a: after.a, p: after.p, ..c })
        }),
{
    theorem_adc_flags(c, (255 - val) as u8);
    lemma_wrap_is_remainder(c.a + (255 - val) + carry_in(c.p));
    lemma_wrap_is_remainder(c.a - val - (1 - carry_in(c.p)));
}

/// Incrementing and decrementing wrap around: 0xFF goes up to 0x00 and 0x00
/// goes down to 0xFF, and either undoes the other on every byte.
pub proof fn theorem_increment_wraps(val: u8)
    ensures
        wrap8(0xFFu8 + 1) == 0x00,
        wrap8(0x00u8 - 1) == 0xFF,
        val < 0xFF ==> wrap8(val + 1) == val + 1,
        val > 0x00 ==> wrap8(val - 1) == val - 1,
        wrap8(wrap8(val + 1) - 1) == val,
        wrap8(wrap8(val - 1) + 1) == val,
{
}

/// What pushing and pulling do to the status byte, flag by flag. The pushed
/// copy has break and the unused bit set; a pulled status has break clear
/// and the unused bit set; either way the six other flags are kept. So a
/// status that is pushed and pulled again is the status that a pull alone
/// would have made of it.
pub proof fn theorem_status_on_the_stack(p: u8, mask: u8)
    by (bit_vector)
    requires
        is_flag_mask(mask),
    ensures
        flag(pushed_status(p), mask) == (mask == FLAG_B || mask == FLAG_U || flag(p, mask)),
        flag(pulled_status(p), mask) == (mask != FLAG_B && (mask == FLAG_U || flag(p, mask))),
        pulled_status(pushed_status(p)) == pulled_status(p),
{
}

/// The stack never leaves page one: whatever the stack pointer, a push
/// writes one byte between 0x0100 and 0x01FF and no other, and a pull reads
/// from there.
pub proof fn theorem_stack_stays_on_page_one(c: Cpu, m: Seq<u8>, val: u8)
    requires
        m.len() == MEMORY_SIZE,
    ensures
        0x0100 <= stack_address(c.s) <= 0x01FF,
        0x0100 <= stack_address(pull8(c, m).0.s) <= 0x01FF,
        push8(c, m, val).1.len() == m.len(),
        forall|a: u16| a != stack_address(c.s) ==> byte_at(push8(c, m, val).1, a) == byte_at(m, a),
        byte_at(push8(c, m, val).1, stack_address(c.s)) == val,
{
}

/// The state after the bytes of `vals` have been pushed in order.
pub open spec fn push_all(c: Cpu, m: Seq<u8>, vals: Seq<u8>) -> (Cpu, Seq<u8>)
    decreases vals.len(),
{
    if vals.len() == 0 {
        (c, m)
    } else {
        let (c1, m1) = push_all(c, m, vals.drop_last());
        push8(c1, m1, vals.last())
    }
}

/// The registers after `count` bytes have been pulled.
pub open spec fn pull_times(c: Cpu, m: Seq<u8>, count: nat) -> Cpu
    decreases count,
{
    if count == 0 {
        c
    } else {
        pull8(pull_times(c, m, (count - 1) as nat), m).0
    }
}

/// Pushing moves the stack pointer down by the number of bytes pushed,
/// modulo 256, and changes no other register.
pub proof fn theorem_push_moves_pointer(c: Cpu, m: Seq<u8>, vals: Seq<u8>)
    ensures
        push_all(c, m, vals).0 == (Cpu { s: wrap8(c.s - vals.len()), ..c }),
    decreases vals.len(),
{
    if vals.len() > 0 {
        theorem_push_moves_pointer(c, m, vals.drop_last());
        lemma_wrap8_sum(c.s - (vals.len() - 1), -1);
    }
}

/// Pulling moves the stack pointer up by the number of bytes pulled, modulo
/// 256, and changes no other register.
pub proof fn theorem_pull_moves_pointer(c: Cpu, m: Seq<u8>, count: nat)
    ensures
        pull_times(c, m, count) == (Cpu { s: wrap8(c.s + count), ..c }),
    decreases count,
{
    if count > 0 {
        theorem_pull_moves_pointer(c, m, (count - 1) as nat);
        lemma_wrap8_sum(c.s + (count - 1), 1);
    }
}

/// The stack pointer runs in a cycle of 256: after 256 pushes, or after 256
/// pulls, it is where it was.
pub proof fn theorem_stack_pointer_cycle(c: Cpu, m: Seq<u8>, vals: Seq<u8>)
    requires
        vals.len() == 256,
    ensures
        push_all(c, m, vals).0 == c,
        pull_times(c, m, 256) == c,
{
    theorem_push_moves_pointer(c, m, vals);
    theorem_pull_moves_pointer(c, m, 256);
}

/// A pull after a push yields the byte pushed and restores the registers.
pub proof fn theorem_pull_undoes_push(c: Cpu, m: Seq<u8>, val: u8)
    requires
        m.len() == MEMORY_SIZE,
    ensures
        ({
            let (c1, m1) = push8(c, m, val);
            pull8(c1, m1) == (c, val)
        }),
{
}

/// What the eight branch instructions do to a state.
pub proof fn lemma_perform_branch(
    instruction: Instruction,
    mode: AddressingMode,
    c: Cpu,
    m: Seq<u8>,
    address: u16,
)
    requires
        is_branch(instruction),
    ensures
        perform(instruction, mode, c, m, address) == (
            branch(c, branch_taken(instruction, c.p), address),
            m,
        ),
{
    reveal(perform);
}

/// What `JSR` and `RTS` do to a state.
pub proof fn lemma_perform_call_and_return(mode: AddressingMode, c: Cpu, m: Seq<u8>, address: u16)
    ensures
        perform(Instruction::JSR, mode, c, m, address) == jump_to_subroutine(c, m, address),
        perform(Instruction::RTS, mode, c, m, address) == (return_from_subroutine(c, m), m),
{
    reveal(perform);
}

/// Pulling a word after a word was pushed yields that word and puts the
/// stack pointer back, whatever became of the other registers in between.
pub proof fn theorem_pull_undoes_push_word(c: Cpu, m: Seq<u8>, val: u16, later: Cpu)
    requires
        m.len() == MEMORY_SIZE,
        later.s == push16(c, m, val).0.s,
    ensures
        pull16(later, push16(c, m, val).1) == (Cpu { s: c.s, ..later }, val),
{
    let (c1, m1) = push8(c, m, high_byte(val));
    let (c2, m2) = push8(c1, m1, low_byte(val));
    let (d1, lo) = pull8(later, m2);
    assert(d1.s == c1.s);
    assert(lo == low_byte(val));
    let (d2, hi) = pull8(d1, m2);
    assert(d2.s == c.s);
    assert(stack_address(c.s) != stack_address(c1.s));
    assert(hi == high_byte(val));
    lemma_word_bytes(0, 0, val);
}

/// What a decoded branch costs and where it leads: see
/// `theorem_branch_cycles`.
pub proof fn lemma_branch_decoded(found: Opcode, c: Cpu, m: Seq<u8>)
    requires
        is_branch(found.instruction),
        found.mode == AddressingMode::Relative,
        found.cycles == 2,
    ensures
        ({
            let (after, bytes) = execute_decoded(found, c, m);
            let next = wrap16(c.pc + 2);
            let target = wrap16(next + signed8(operand_byte(m, c.pc)));
            let taken = branch_taken(found.instruction, c.p);
            &&& bytes == m
            &&& !taken ==> after == (Cpu { pc: next, cycles: wrap32(c.cycles + 2), ..c })
            &&& taken && page_of(target) == page_of(next) ==> after == (Cpu {
                pc: target,
                cycles: wrap32(c.cycles + 3),
                ..c
            })
            &&& taken && page_of(target) != page_of(next) ==> after == (Cpu {
                pc: target,
                cycles: wrap32(c.cycles + 4),
                ..c
            })
        }),
{
    reveal(execute_decoded);
    let address = relative_address(m, c.pc);
    assert(operand_address(found.mode, c, m) == address);
    lemma_perform_branch(found.instruction, found.mode, c, m, address);
    assert(instruction_cycles(found, c, m) == 2);
    assert(!sets_program_counter(found.instruction));
    assert(instruction_length(found.mode) == 2);
    let next = wrap16(c.pc + 2);
    let target = wrap16(next + signed8(operand_byte(m, c.pc)));
    assert(wrap16(address + 2) == target);
    let taken = branch_taken(found.instruction, c.p);
    let c1 = branch(c, taken, address);
    assert(execute_decoded(found, c, m) == (
        Cpu { pc: wrap16(c1.pc + 2), cycles: wrap32(c1.cycles + 2), ..c1 },
        m,
    ));
    if taken {
        assert(c1.pc == address);
        assert(c1.cycles == wrap32(c.cycles + branch_penalty(c.pc, address)));
        if page_of(target) == page_of(next) {
            assert(branch_penalty(c.pc, address) == 1);
            assert(wrap32(c1.cycles + 2) == wrap32(c.cycles + 3));
        } else {
            assert(branch_penalty(c.pc, address) == 2);
            assert(wrap32(c1.cycles + 2) == wrap32(c.cycles + 4));
        }
    }
}

/// What a conditional branch costs and where it leads. A branch that is not
/// taken takes its two base cycles and goes on with the next instruction. A
/// taken branch goes to the next instruction's address plus the signed
/// displacement; it takes one cycle more than the base where that target is
/// on the page of the next instruction, and two more where it is on another
/// page.
pub proof fn theorem_branch_cycles(c: Cpu, m: Seq<u8>, opcode: u8)
    requires
        decode_spec(opcode) is Some,
        is_branch(decode_spec(opcode)->0.instruction),
    ensures
        ({
            let instruction = decode_spec(opcode)->0.instruction;
            let (after, bytes) = execute(c, m, opcode);
            let next = wrap16(c.pc + 2);
            let target = wrap16(next + signed8(operand_byte(m, c.pc)));
            let taken = branch_taken(instruction, c.p);
            &&& bytes == m
            &&& !taken ==> after == (Cpu { pc: next, cycles: wrap32(c.cycles + 2), ..c })
            &&& taken && page_of(target) == page_of(next) ==> after == (Cpu {
                pc: target,
                cycles: wrap32(c.cycles + 3),
                ..c
            })
            &&& taken && page_of(target) != page_of(next) ==> after == (Cpu {
                pc: target,
                cycles: wrap32(c.cycles + 4),
                ..c
            })
        }),
{
    let found = decode_spec(opcode)->0;
    theorem_branches_are_relative(opcode);
    lemma_branch_decoded(found, c, m);
    assert(execute(c, m, opcode) == execute_decoded(found, c, m));
}

/// What a decoded `JSR` and a decoded `RTS` do to a state.
pub proof fn lemma_call_and_return_decoded(c: Cpu, m: Seq<u8>)
    ensures
        execute_decoded(
            Opcode { instruction: Instruction::JSR, mode: AddressingMode::Absolute, cycles: 6 },
            c,
            m,
        ) == ({
            let (pushed, bytes) = push16(c, m, wrap16(c.pc + 2));
            (
                Cpu { pc: operand_word(m, c.pc), cycles: wrap32(c.cycles + 6), ..pushed },
                bytes,
            )
        }),
        execute_decoded(
            Opcode { instruction: Instruction::RTS, mode: AddressingMode::Implied, cycles: 6 },
            c,
            m,
        ) == ({
            let (pulled, ret) = pull16(c, m);
            (Cpu { pc: wrap16(ret + 1), cycles: wrap32(c.cycles + 6), ..pulled }, m)
        }),
{
    reveal(execute_decoded);
    let jsr = Opcode { instruction: Instruction::JSR, mode: AddressingMode::Absolute, cycles: 6 };
    let rts = Opcode { instruction: Instruction::RTS, mode: AddressingMode::Implied, cycles: 6 };
    let target = operand_word(m, c.pc);
    assert(operand_address(jsr.mode, c, m) == target);
    lemma_perform_call_and_return(jsr.mode, c, m, target);
    lemma_perform_call_and_return(rts.mode, c, m, c.pc);
    assert(instruction_cycles(jsr, c, m) == 6);
    assert(instruction_cycles(rts, c, m) == 6);
    assert(sets_program_counter(jsr.instruction));
    assert(sets_program_counter(rts.instruction));
}

/// What a step does where `JSR` is at the program counter.
pub proof fn lemma_step_call(c: Cpu, m: Seq<u8>)
    requires
        byte_at(m, c.pc) == 0x20,
    ensures
        step(c, m) == ({
            let (pushed, bytes) = push16(c, m, wrap16(c.pc + 2));
            (
                Cpu { pc: operand_word(m, c.pc), cycles: wrap32(c.cycles + 6), ..pushed },
                bytes,
            )
        }),
{
    let jsr = Opcode { instruction: Instruction::JSR, mode: AddressingMode::Absolute, cycles: 6 };
    assert(decode_spec(0x20) == Some(jsr));
    lemma_call_and_return_decoded(c, m);
}

/// What a step does where `RTS` is at the program counter.
pub proof fn lemma_step_return(c: Cpu, m: Seq<u8>)
    requires
        byte_at(m, c.pc) == 0x60,
    ensures
        step(c, m) == ({
            let (pulled, ret) = pull16(c, m);
            (Cpu { pc: wrap16(ret + 1), cycles: wrap32(c.cycles + 6), ..pulled }, m)
        }),
{
    let rts = Opcode { instruction: Instruction::RTS, mode: AddressingMode::Implied, cycles: 6 };
    assert(decode_spec(0x60) == Some(rts));
    lemma_call_and_return_decoded(c, m);
}

/// A subroutine call that is at once followed by a return comes back to
/// the instruction after the call, with the stack pointer where it was: if
/// `JSR` is at the program counter, and `RTS` is what stands at the
/// subroutine's address once the call has pushed the return address, then
/// after both instructions the program counter is three bytes past the
/// `JSR`, and no register but the cycle count differs from before.
pub proof fn theorem_call_and_return(c: Cpu, m: Seq<u8>)
    requires
        m.len() == MEMORY_SIZE,
        byte_at(m, c.pc) == 0x20,
        byte_at(step(c, m).1, step(c, m).0.pc) == 0x60,
    ensures
        ({
            let (called, pushed) = step(c, m);
            let (returned, bytes) = step(called, pushed);
            &&& called.pc == operand_word(m, c.pc)
            &&& returned.pc == wrap16(c.pc + 3)
            &&& returned.s == c.s
            &&& bytes == pushed
            &&& returned == (Cpu {
                pc: wrap16(c.pc + 3),
                cycles: wrap32(c.cycles + 12),
                ..c
            })
        }),
{
    let ret = wrap16(c.pc + 2);
    let (called, pushed) = step(c, m);
    lemma_step_call(c, m);
    lemma_step_return(called, pushed);
    theorem_pull_undoes_push_word(c, m, ret, called);
    assert(wrap32(wrap32(c.cycles + 6) + 6) == wrap32(c.cycles + 12));
    assert(wrap16(ret + 1) == wrap16(c.pc + 3));
}

} // verus!
